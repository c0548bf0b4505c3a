//! A uniform request/response abstraction over the four shapes an RPC endpoint
//! can take: unary/unary, unary/streaming, streaming/unary and
//! streaming/streaming.
//!
//! - [`shape`] names the shapes and describes endpoints.
//! - [`envelope`] wraps request and response values with what the transport
//!   sends along with them.
//! - [`status`] names the ways in which a call can fail.
//! - [`Service`], in this module, is the unit that processes the requests of
//!   one endpoint.
//! - [`convert`] holds the service-style adapter, the method-style adapter
//!   and the conversion between them.
//! - [`call`] follows one call through its life, event by event, for
//!   transports that answer later.
//! - [`unary_unary`], [`unary_streaming`], [`streaming_unary`] and
//!   [`streaming_streaming`] are the four endpoints, with the messages in
//!   [`proto`].
//!
//! Nothing here waits, retries or keeps a stream: a call is handed to the
//! service of its endpoint once, and what comes back is handed to the caller
//! as it came.

use vstd::prelude::*;

pub mod call;
pub mod convert;
pub mod envelope;
pub mod proto;
pub mod shape;
pub mod status;
pub mod streaming_streaming;
pub mod streaming_unary;
pub mod unary_streaming;
pub mod unary_unary;

verus! {

/// The failure of a service itself, as opposed to a failure that the
/// transport reports in a response. It carries nothing.
#[derive(Clone, Copy, Debug, PartialEq, Eq)]
pub struct Error;

/// Why a service is not ready.
#[derive(Clone, Copy, Debug, PartialEq, Eq)]
pub enum Reason {
    /// The service is at capacity.
    AtCapacity,
    /// The service did not say.
    Unspecified,
}

/// What a readiness probe answers.
#[derive(Clone, Copy, Debug, PartialEq, Eq)]
pub enum Readiness {
    /// A call is likely to be handled at once. This is no promise.
    Ready,
    /// A call is likely to be turned away for now.
    NotReady(Reason),
    /// The service has failed.
    Errored,
}

/// A unit that processes requests of one kind, whatever the shape of the
/// endpoint behind it.
///
/// A service says what its probes and its calls may do by the two relations
/// [`Service::probes`] and [`Service::handles`], and is held to them. One that
/// says nothing is held to nothing: every answer and every outcome is then
/// possible. What the library proves of a service, it proves from these
/// relations alone.
///
/// A probe is advice. A service may answer `Ready` and fail the next call,
/// and a call may be made without any probe before it. A call does not probe.
/// A service that cannot take a request says so in the outcome of the call.
pub trait Service<Request> {
    /// What a call that the service handled gives back.
    type Response;

    /// Whether one probe may lead from `self` to `after` and answer `readiness`.
    open spec fn probes(&self, after: &Self, readiness: Readiness) -> bool {
        true
    }

    /// Whether one call with `request` may lead from `self` to `after` and
    /// end in `outcome`.
    open spec fn handles(
        &self,
        request: Request,
        after: &Self,
        outcome: Result<Self::Response, Error>,
    ) -> bool {
        true
    }

    /// Probes, without blocking, whether a call is likely to be handled.
    fn poll_ready(&mut self) -> (readiness: Readiness)
        ensures
            old(self).probes(final(self), readiness),
    ;

    /// Processes the request.
    fn call(&mut self, request: Request) -> (outcome: Result<Self::Response, Error>)
        ensures
            old(self).handles(request, final(self), outcome),
    ;
}

} // verus!
