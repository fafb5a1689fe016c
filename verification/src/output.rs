//! The compiled output.

use vstd::prelude::*;

verus! {

/// Compiled output, the raw bytes a compilation produced, all owned here.
pub struct Output {
    data: Vec<u8>,
}

impl View for Output {
    type V = Seq<u8>;

    closed spec fn view(&self) -> Seq<u8> {
        self.data@
    }
}

impl Output {
    /// Wrap the bytes collected from a compilation.
    pub fn new(data: Vec<u8>) -> (o: Output)
        ensures
            o@ == data@,
    {
        Output { data }
    }

    /// The compiled bytes.
    pub fn as_bytes(&self) -> (b: &[u8])
        ensures
            b@ == self@,
    {
        self.data.as_slice()
    }

    /// The compiled bytes, taken out of the output.
    pub fn into_bytes(self) -> (b: Vec<u8>)
        ensures
            b@ == self@,
    {
        self.data
    }

    /// The number of compiled bytes.
    pub fn len(&self) -> (n: usize)
        ensures
            n == self@.len(),
    {
        self.data.len()
    }

    /// Whether the compilation produced no bytes.
    pub fn is_empty(&self) -> (b: bool)
        ensures
            b == (self@.len() == 0),
    {
        self.data.len() == 0
    }
}

impl AsRef<[u8]> for Output {
    fn as_ref(&self) -> (b: &[u8])
        ensures
            b@ == self@,
    {
        self.data.as_slice()
    }
}

} // verus!
