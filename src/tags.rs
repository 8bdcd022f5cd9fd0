use vstd::prelude::*;

verus! {

/// The compression tag recorded in a strip's metadata, naming the algorithm that
/// encoded it.
#[derive(Clone, Copy, Debug, PartialEq, Eq, Structural)]
pub enum CompressionMethod {
    /// Samples stored as they are.
    Uncompressed,
    /// Two-dimensional bi-level coding (CCITT Group 4).
    Fax4,
}

/// The numeric value under which a tag is stored.
pub open spec fn method_code(m: CompressionMethod) -> u16 {
    match m {
        CompressionMethod::Uncompressed => 1,
        CompressionMethod::Fax4 => 4,
    }
}

impl CompressionMethod {
    /// The numeric value under which this tag is stored.
    pub fn to_u16(&self) -> (r: u16)
        ensures
            r == method_code(*self),
    {
        match self {
            CompressionMethod::Uncompressed => 1,
            CompressionMethod::Fax4 => 4,
        }
    }
}

} // verus!
