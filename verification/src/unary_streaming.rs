//! The endpoint that takes one request and gives a stream of responses.

use crate::proto::{Bar, Foo};
use crate::shape::{MethodDescriptor, Shape, Side};
use vstd::prelude::*;

verus! {

/// A request message of this endpoint.
#[derive(Clone, Debug, PartialEq, Eq)]
pub struct Request(pub Foo);

/// A response message of this endpoint.
#[derive(Clone, Debug, PartialEq, Eq)]
pub struct Response(pub Bar);

/// The descriptor of this endpoint.
pub fn descriptor() -> (method: MethodDescriptor)
    ensures
        method.spec_name() == "UnaryStreaming"@,
        method.spec_shape() == Shape::UnaryStreaming,
{
    MethodDescriptor::new("UnaryStreaming", Side::Single, Side::Stream)
}

} // verus!
