//! The two styles of adapter and the conversion between them.
//!
//! A service-style adapter holds one [`Service`] for each endpoint. A
//! method-style adapter offers one operation for each endpoint. The second is
//! made from the first and adds nothing of its own: an operation checks the
//! side of the request value, hands the request to the endpoint's service, and
//! hands back what the service made of it.

use crate::envelope::{RequestEnvelope, ResponseEnvelope};
use crate::shape::{MethodDescriptor, Side};
use crate::status::{CallError, Status};
use crate::{streaming_streaming, streaming_unary, unary_streaming, unary_unary};
use crate::{Error, Readiness, Service};
use vstd::prelude::*;

verus! {

/// What the caller of a method is told when the endpoint's service has ended
/// a call in `outcome`: a response and a failure of the transport as they
/// came, and `NotReady` where the service itself failed.
pub open spec fn settled<R>(outcome: Result<Result<R, Status>, Error>) -> Result<R, CallError> {
    match outcome {
        Ok(Ok(response)) => Ok(response),
        Ok(Err(status)) => Err(CallError::Status(status)),
        Err(_) => Err(CallError::NotReady),
    }
}

/// What the caller of a method is told when the endpoint's service has ended
/// a call in `outcome`.
pub fn settle<R>(outcome: Result<Result<R, Status>, Error>) -> (out: Result<R, CallError>)
    ensures
        out == settled(outcome),
{
    match outcome {
        Ok(Ok(response)) => Ok(response),
        Ok(Err(status)) => Err(CallError::Status(status)),
        Err(_) => Err(CallError::NotReady),
    }
}

/// Whether invoking a method whose request side is declared as `declared`
/// may lead the endpoint's service from `before` to `after` and tell the
/// caller `out`.
///
/// A request value of the declared side is handed to the service once, and
/// the caller is told what the service made of it. Any other request value
/// is refused and the service is left as it was.
pub open spec fn invoked<S, T, C, U, D>(
    before: &S,
    declared: Side,
    request: RequestEnvelope<T, C>,
    after: &S,
    out: Result<ResponseEnvelope<U, D>, CallError>,
) -> bool where
    S: Service<RequestEnvelope<T, C>, Response = Result<ResponseEnvelope<U, D>, Status>>,
 {
    if request.payload.side() == declared {
        exists|outcome: Result<Result<ResponseEnvelope<U, D>, Status>, Error>|
            #[trigger] before.handles(request, after, outcome) && out == settled(outcome)
    } else {
        out == Err::<ResponseEnvelope<U, D>, CallError>(CallError::ShapeMismatch) && after
            == before
    }
}

/// Invokes `method` on the service of its endpoint.
///
/// Readiness is not asked for, before the call or during it.
pub fn invoke<S, T, C, U, D>(
    service: &mut S,
    method: &MethodDescriptor,
    request: RequestEnvelope<T, C>,
) -> (out: Result<ResponseEnvelope<U, D>, CallError>) where
    S: Service<RequestEnvelope<T, C>, Response = Result<ResponseEnvelope<U, D>, Status>>,

    ensures
        invoked(old(service), method.request_side(), request, final(service), out),
{
    if method.admits(request.payload.side()) {
        settle(service.call(request))
    } else {
        Err(CallError::ShapeMismatch)
    }
}

/// The outcome of a direct call that a caller of a method was told as `out`.
/// A refusal for the wrong side stands for no outcome: no call was made.
pub open spec fn unsettled<R>(out: Result<R, CallError>) -> Result<Result<R, Status>, Error> {
    match out {
        Ok(response) => Ok(Ok(response)),
        Err(CallError::Status(status)) => Ok(Err(status)),
        Err(_) => Err(Error),
    }
}

/// Settling loses nothing. From what the caller of a method is told, the
/// outcome of the direct call can be read back: the same success or failure,
/// with the same response or the same status. No outcome of a call is told
/// as a refusal for the wrong side.
pub proof fn law_settling_loses_nothing<R>(outcome: Result<Result<R, Status>, Error>)
    ensures
        unsettled(settled(outcome)) == outcome,
        settled(outcome) != Err::<R, CallError>(CallError::ShapeMismatch),
        settled(outcome) is Ok <==> outcome matches Ok(Ok(_)),
{
    // The failure of a service carries nothing, so there is one such value.
    if let Err(error) = outcome {
        assert(error == Error);
    }
}

/// Invoking a method is calling its service. With a request value of the
/// declared side, the caller may be told `out` exactly if a direct call with
/// the same request may end in the outcome that `out` stands for, and the
/// service is left as the direct call leaves it.
pub proof fn law_invoke_is_call<S, T, C, U, D>(
    before: &S,
    declared: Side,
    request: RequestEnvelope<T, C>,
    after: &S,
    out: Result<ResponseEnvelope<U, D>, CallError>,
) where
    S: Service<RequestEnvelope<T, C>, Response = Result<ResponseEnvelope<U, D>, Status>>,

    requires
        request.payload.side() == declared,
    ensures
        invoked(before, declared, request, after, out) <==> out != Err::<
            ResponseEnvelope<U, D>,
            CallError,
        >(CallError::ShapeMismatch) && before.handles(request, after, unsettled(out)),
{
    if invoked(before, declared, request, after, out) {
        let outcome = choose|outcome: Result<Result<ResponseEnvelope<U, D>, Status>, Error>|
            #[trigger] before.handles(request, after, outcome) && out == settled(outcome);
        law_settling_loses_nothing(outcome);
    }
}

/// A call needs no probe before it. In whatever state the service is, if a
/// direct call would end well with `response`, then so does the method, and
/// the caller is told `response`.
pub proof fn law_call_needs_no_probe<S, T, C, U, D>(
    before: &S,
    declared: Side,
    request: RequestEnvelope<T, C>,
    after: &S,
    response: ResponseEnvelope<U, D>,
) where
    S: Service<RequestEnvelope<T, C>, Response = Result<ResponseEnvelope<U, D>, Status>>,

    requires
        request.payload.side() == declared,
        before.handles(request, after, Ok(Ok(response))),
    ensures
        invoked(before, declared, request, after, Ok(response)),
{
}

/// Readiness is advice only: a probe does not stand between a caller and a
/// call. Whatever a probe answered, a request of the declared side that the
/// service would handle after it is handed on, and the caller is told what
/// the service made of it.
pub proof fn law_probe_does_not_gate<S, T, C, U, D>(
    before: &S,
    readiness: Readiness,
    probed: &S,
    declared: Side,
    request: RequestEnvelope<T, C>,
    after: &S,
    outcome: Result<Result<ResponseEnvelope<U, D>, Status>, Error>,
) where
    S: Service<RequestEnvelope<T, C>, Response = Result<ResponseEnvelope<U, D>, Status>>,

    requires
        before.probes(probed, readiness),
        request.payload.side() == declared,
        probed.handles(request, after, outcome),
    ensures
        invoked(probed, declared, request, after, settled(outcome)),
{
}

/// The service-style adapter: for each endpoint, the service that processes
/// its requests.
#[derive(Clone, Debug, PartialEq, Eq)]
pub struct ServicePerEndpoint<UU, US, SU, SS> {
    pub unary_unary: UU,
    pub unary_streaming: US,
    pub streaming_unary: SU,
    pub streaming_streaming: SS,
}

/// The method-style adapter: one operation for each endpoint, over the
/// services of a service-style adapter.
#[derive(Clone, Debug, PartialEq, Eq)]
pub struct MethodPerEndpoint<UU, US, SU, SS> {
    services: ServicePerEndpoint<UU, US, SU, SS>,
}

impl<UU, US, SU, SS> View for MethodPerEndpoint<UU, US, SU, SS> {
    type V = ServicePerEndpoint<UU, US, SU, SS>;

    /// The services that the operations call.
    closed spec fn view(&self) -> Self::V {
        self.services
    }
}

impl<UU, US, SU, SS> ServicePerEndpoint<UU, US, SU, SS> {
    /// Makes the method-style adapter over these services.
    pub fn to_method_per_endpoint(self) -> (methods: MethodPerEndpoint<UU, US, SU, SS>)
        ensures
            methods@ == self,
    {
        MethodPerEndpoint { services: self }
    }
}

impl<UU, US, SU, SS> MethodPerEndpoint<UU, US, SU, SS> {
    /// Gives back the service-style adapter that the operations call.
    pub fn into_service_per_endpoint(self) -> (services: ServicePerEndpoint<UU, US, SU, SS>)
        ensures
            services == self@,
    {
        self.services
    }

    /// Calls the endpoint that takes one request and gives one response.
    pub fn unary_unary<C, D>(
        &mut self,
        request: RequestEnvelope<unary_unary::Request, C>,
    ) -> (out: Result<ResponseEnvelope<unary_unary::Response, D>, CallError>) where
        UU: Service<
            RequestEnvelope<unary_unary::Request, C>,
            Response = Result<ResponseEnvelope<unary_unary::Response, D>, Status>,
        >,

        ensures
            invoked(
                &old(self)@.unary_unary,
                Side::Single,
                request,
                &final(self)@.unary_unary,
                out,
            ),
            final(self)@.unary_streaming == old(self)@.unary_streaming,
            final(self)@.streaming_unary == old(self)@.streaming_unary,
            final(self)@.streaming_streaming == old(self)@.streaming_streaming,
    {
        let method = unary_unary::descriptor();
        invoke(&mut self.services.unary_unary, &method, request)
    }

    /// Calls the endpoint that takes one request and gives a stream of
    /// responses.
    pub fn unary_streaming<C, D>(
        &mut self,
        request: RequestEnvelope<unary_streaming::Request, C>,
    ) -> (out: Result<ResponseEnvelope<unary_streaming::Response, D>, CallError>) where
        US: Service<
            RequestEnvelope<unary_streaming::Request, C>,
            Response = Result<ResponseEnvelope<unary_streaming::Response, D>, Status>,
        >,

        ensures
            invoked(
                &old(self)@.unary_streaming,
                Side::Single,
                request,
                &final(self)@.unary_streaming,
                out,
            ),
            final(self)@.unary_unary == old(self)@.unary_unary,
            final(self)@.streaming_unary == old(self)@.streaming_unary,
            final(self)@.streaming_streaming == old(self)@.streaming_streaming,
    {
        let method = unary_streaming::descriptor();
        invoke(&mut self.services.unary_streaming, &method, request)
    }

    /// Calls the endpoint that takes a stream of requests and gives one
    /// response.
    pub fn streaming_unary<C, D>(
        &mut self,
        request: RequestEnvelope<streaming_unary::Request, C>,
    ) -> (out: Result<ResponseEnvelope<streaming_unary::Response, D>, CallError>) where
        SU: Service<
            RequestEnvelope<streaming_unary::Request, C>,
            Response = Result<ResponseEnvelope<streaming_unary::Response, D>, Status>,
        >,

        ensures
            invoked(
                &old(self)@.streaming_unary,
                Side::Stream,
                request,
                &final(self)@.streaming_unary,
                out,
            ),
            final(self)@.unary_unary == old(self)@.unary_unary,
            final(self)@.unary_streaming == old(self)@.unary_streaming,
            final(self)@.streaming_streaming == old(self)@.streaming_streaming,
    {
        let method = streaming_unary::descriptor();
        invoke(&mut self.services.streaming_unary, &method, request)
    }

    /// Calls the endpoint that takes a stream of requests and gives a stream
    /// of responses.
    pub fn streaming_streaming<C, D>(
        &mut self,
        request: RequestEnvelope<streaming_streaming::Request, C>,
    ) -> (out: Result<ResponseEnvelope<streaming_streaming::Response, D>, CallError>) where
        SS: Service<
            RequestEnvelope<streaming_streaming::Request, C>,
            Response = Result<ResponseEnvelope<streaming_streaming::Response, D>, Status>,
        >,

        ensures
            invoked(
                &old(self)@.streaming_streaming,
                Side::Stream,
                request,
                &final(self)@.streaming_streaming,
                out,
            ),
            final(self)@.unary_unary == old(self)@.unary_unary,
            final(self)@.unary_streaming == old(self)@.unary_streaming,
            final(self)@.streaming_unary == old(self)@.streaming_unary,
    {
        let method = streaming_streaming::descriptor();
        invoke(&mut self.services.streaming_streaming, &method, request)
    }
}

} // verus!
