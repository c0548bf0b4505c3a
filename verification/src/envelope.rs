//! Requests and responses, wrapped with what the transport adds to them.

use crate::shape::Side;
use vstd::prelude::*;

verus! {

/// The value on one side of a call: a single message of type `T`, or a
/// carrier `C` of a stream of them. The library never looks into a carrier,
/// so whoever receives one draws its values as they arrive.
#[derive(Clone, Debug, PartialEq, Eq)]
pub enum Payload<T, C> {
    Single(T),
    Stream(C),
}

impl<T, C> Payload<T, C> {
    /// The side that this value is of.
    pub open spec fn spec_side(&self) -> Side {
        match self {
            Payload::Single(_) => Side::Single,
            Payload::Stream(_) => Side::Stream,
        }
    }

    /// The side that this value is of.
    #[verifier::when_used_as_spec(spec_side)]
    pub fn side(&self) -> (side: Side)
        ensures
            side == self.spec_side(),
    {
        match self {
            Payload::Single(_) => Side::Single,
            Payload::Stream(_) => Side::Stream,
        }
    }
}

/// What the transport sends along with a request.
#[derive(Clone, Debug, PartialEq, Eq)]
pub struct Metadata {
    /// The time the call may take, in milliseconds, if it is limited.
    pub deadline_ms: Option<u64>,
    /// Header names with their values, in the order they were given.
    pub headers: Vec<(String, String)>,
}

impl Metadata {
    /// No deadline and no headers.
    pub fn new() -> (metadata: Metadata)
        ensures
            metadata.deadline_ms is None,
            metadata.headers@ == Seq::<(String, String)>::empty(),
    {
        Metadata { deadline_ms: None, headers: Vec::new() }
    }
}

/// A request value together with its call metadata.
#[derive(Clone, Debug, PartialEq, Eq)]
pub struct RequestEnvelope<T, C> {
    pub metadata: Metadata,
    pub payload: Payload<T, C>,
}

impl<T, C> RequestEnvelope<T, C> {
    /// Wraps `payload` with no deadline and no headers.
    pub fn new(payload: Payload<T, C>) -> (envelope: Self)
        ensures
            envelope.payload == payload,
            envelope.metadata.deadline_ms is None,
            envelope.metadata.headers@ == Seq::<(String, String)>::empty(),
    {
        RequestEnvelope { metadata: Metadata::new(), payload }
    }
}

/// A response value together with its trailing metadata.
#[derive(Clone, Debug, PartialEq, Eq)]
pub struct ResponseEnvelope<T, C> {
    pub payload: Payload<T, C>,
    /// Trailer names with their values, in the order they were given.
    pub trailers: Vec<(String, String)>,
}

impl<T, C> ResponseEnvelope<T, C> {
    /// Wraps `payload` with no trailers.
    pub fn new(payload: Payload<T, C>) -> (envelope: Self)
        ensures
            envelope.payload == payload,
            envelope.trailers@ == Seq::<(String, String)>::empty(),
    {
        ResponseEnvelope { payload, trailers: Vec::new() }
    }
}

} // verus!
