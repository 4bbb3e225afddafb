use vstd::prelude::*;

verus! {

/// An owned byte-sequence input value.
///
/// Generators construct one from raw bytes and hand it to the caller whole;
/// its view is the sequence of bytes it wraps.
#[derive(Clone, Debug, PartialEq, Eq)]
pub struct BytesInput {
    bytes: Vec<u8>,
}

impl View for BytesInput {
    type V = Seq<u8>;

    closed spec fn view(&self) -> Seq<u8> {
        self.bytes@
    }
}

impl BytesInput {
    /// Wraps an owned byte sequence as an input value.
    pub fn new(bytes: Vec<u8>) -> (input: Self)
        ensures
            input@ == bytes@,
    {
        BytesInput { bytes }
    }

    /// The bytes this input holds.
    pub fn bytes(&self) -> (bytes: &Vec<u8>)
        ensures
            bytes@ == self@,
    {
        &self.bytes
    }

    /// The number of bytes this input holds.
    pub fn len(&self) -> (n: usize)
        ensures
            n == self@.len(),
    {
        self.bytes.len()
    }
}

} // verus!
