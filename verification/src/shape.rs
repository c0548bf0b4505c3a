//! Endpoint shapes and endpoint descriptors.

use vstd::prelude::*;

verus! {

/// One side of an endpoint: a single value, or a stream of values.
#[derive(Clone, Copy, Debug, PartialEq, Eq, Structural)]
pub enum Side {
    /// Exactly one value.
    Single,
    /// A sequence of values, produced one after another.
    Stream,
}

/// The shape of an endpoint: the side of its request and the side of its
/// response. The first word names the request, the second the response.
#[derive(Clone, Copy, Debug, PartialEq, Eq, Structural)]
pub enum Shape {
    UnaryUnary,
    UnaryStreaming,
    StreamingUnary,
    StreamingStreaming,
}

impl Shape {
    /// The shape with the given sides.
    pub open spec fn spec_of(request: Side, response: Side) -> Shape {
        match (request, response) {
            (Side::Single, Side::Single) => Shape::UnaryUnary,
            (Side::Single, Side::Stream) => Shape::UnaryStreaming,
            (Side::Stream, Side::Single) => Shape::StreamingUnary,
            (Side::Stream, Side::Stream) => Shape::StreamingStreaming,
        }
    }

    /// The side of the request.
    pub open spec fn spec_request_side(self) -> Side {
        match self {
            Shape::UnaryUnary | Shape::UnaryStreaming => Side::Single,
            Shape::StreamingUnary | Shape::StreamingStreaming => Side::Stream,
        }
    }

    /// The side of the response.
    pub open spec fn spec_response_side(self) -> Side {
        match self {
            Shape::UnaryUnary | Shape::StreamingUnary => Side::Single,
            Shape::UnaryStreaming | Shape::StreamingStreaming => Side::Stream,
        }
    }

    /// The shape with the given sides.
    #[verifier::when_used_as_spec(spec_of)]
    pub fn of(request: Side, response: Side) -> (shape: Shape)
        ensures
            shape == Shape::spec_of(request, response),
    {
        match request {
            Side::Single => match response {
                Side::Single => Shape::UnaryUnary,
                Side::Stream => Shape::UnaryStreaming,
            },
            Side::Stream => match response {
                Side::Single => Shape::StreamingUnary,
                Side::Stream => Shape::StreamingStreaming,
            },
        }
    }

    /// The side of the request.
    #[verifier::when_used_as_spec(spec_request_side)]
    pub fn request_side(self) -> (side: Side)
        ensures
            side == self.spec_request_side(),
    {
        match self {
            Shape::UnaryUnary | Shape::UnaryStreaming => Side::Single,
            Shape::StreamingUnary | Shape::StreamingStreaming => Side::Stream,
        }
    }

    /// The side of the response.
    #[verifier::when_used_as_spec(spec_response_side)]
    pub fn response_side(self) -> (side: Side)
        ensures
            side == self.spec_response_side(),
    {
        match self {
            Shape::UnaryUnary | Shape::StreamingUnary => Side::Single,
            Shape::UnaryStreaming | Shape::StreamingStreaming => Side::Stream,
        }
    }
}

/// A shape is its two sides and nothing else: the sides of the shape built
/// from two sides are those two, and a shape is the one built from its own
/// sides.
pub proof fn law_shape_is_its_sides(shape: Shape, request: Side, response: Side)
    ensures
        Shape::of(request, response).request_side() == request,
        Shape::of(request, response).response_side() == response,
        Shape::of(shape.request_side(), shape.response_side()) == shape,
{
}

/// Names one endpoint and declares the side of its request and of its
/// response. Both are set when the descriptor is made and cannot change
/// afterwards.
#[derive(Clone, Copy, Debug, PartialEq, Eq)]
pub struct MethodDescriptor {
    name: &'static str,
    shape: Shape,
}

impl MethodDescriptor {
    /// The name of the endpoint.
    pub closed spec fn spec_name(&self) -> Seq<char> {
        self.name@
    }

    /// The declared shape.
    pub closed spec fn spec_shape(&self) -> Shape {
        self.shape
    }

    /// The declared side of the request.
    pub open spec fn spec_request_side(&self) -> Side {
        self.spec_shape().request_side()
    }

    /// The declared side of the response.
    pub open spec fn spec_response_side(&self) -> Side {
        self.spec_shape().response_side()
    }

    /// Whether a request value of the given side matches the declaration.
    pub open spec fn spec_admits(&self, side: Side) -> bool {
        side == self.spec_request_side()
    }

    /// Describes the endpoint `name` with the given sides.
    pub fn new(name: &'static str, request: Side, response: Side) -> (method: MethodDescriptor)
        ensures
            method.spec_name() == name@,
            method.spec_shape() == Shape::of(request, response),
    {
        MethodDescriptor { name, shape: Shape::of(request, response) }
    }

    /// The name of the endpoint.
    pub fn name(&self) -> (name: &'static str)
        ensures
            name@ == self.spec_name(),
    {
        self.name
    }

    /// The declared shape.
    #[verifier::when_used_as_spec(spec_shape)]
    pub fn shape(&self) -> (shape: Shape)
        ensures
            shape == self.spec_shape(),
    {
        self.shape
    }

    /// The declared side of the request.
    #[verifier::when_used_as_spec(spec_request_side)]
    pub fn request_side(&self) -> (side: Side)
        ensures
            side == self.spec_request_side(),
    {
        self.shape.request_side()
    }

    /// The declared side of the response.
    #[verifier::when_used_as_spec(spec_response_side)]
    pub fn response_side(&self) -> (side: Side)
        ensures
            side == self.spec_response_side(),
    {
        self.shape.response_side()
    }

    /// Whether a request value of the given side matches the declaration.
    #[verifier::when_used_as_spec(spec_admits)]
    pub fn admits(&self, side: Side) -> (admitted: bool)
        ensures
            admitted == self.spec_admits(side),
    {
        side == self.shape.request_side()
    }
}

} // verus!
