//! The endpoint that takes a stream of requests and gives one response.

use crate::proto::{Bar, Foo};
use crate::shape::{MethodDescriptor, Shape, Side};
use vstd::prelude::*;

verus! {

/// A request message of this endpoint.
#[derive(Clone, Debug, PartialEq, Eq)]
pub struct Request(pub Foo);

/// A response message of this endpoint.
#[derive(Clone, Debug, PartialEq, Eq)]
pub struct Response(pub Bar);

/// The descriptor of this endpoint.
pub fn descriptor() -> (method: MethodDescriptor)
    ensures
        method.spec_name() == "StreamingUnary"@,
        method.spec_shape() == Shape::StreamingUnary,
{
    MethodDescriptor::new("StreamingUnary", Side::Stream, Side::Single)
}

} // verus!
