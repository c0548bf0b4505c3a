//! The messages that the endpoints exchange. What a message means is the
//! business of the schema it comes from: here it is held as its encoded bytes.

use vstd::prelude::*;

verus! {

/// The message that requests carry.
#[derive(Clone, Debug, PartialEq, Eq)]
pub struct Foo {
    pub encoded: Vec<u8>,
}

/// The message that responses carry.
#[derive(Clone, Debug, PartialEq, Eq)]
pub struct Bar {
    pub encoded: Vec<u8>,
}

} // verus!
