use vstd::prelude::*;
use crate::ccittg4::CcittG4;
use crate::fax4::{Fax4, MAX_LINE_WIDTH};
use crate::tags::CompressionMethod;

verus! {

/// An algorithm used for compression.
pub trait CompressionAlgorithm: Sized {
    /// Whether this instance is configured so that it can encode.
    spec fn can_encode(&self) -> bool;

    /// The coded bytes that this instance produces for a strip.
    spec fn encoding(&self, bytes: Seq<u8>) -> Seq<u8>;

    /// Encodes `bytes` and appends the coded block to `writer`; returns the number of
    /// bytes appended.
    fn write_to(&mut self, writer: &mut Vec<u8>, bytes: &[u8]) -> (r: u64)
        requires
            old(self).can_encode(),
        ensures
            *final(self) == *old(self),
            final(writer)@ == old(writer)@ + old(self).encoding(bytes@),
            r as int == old(self).encoding(bytes@).len(),
    ;
}

/// An algorithm together with its tag, which can be wrapped in a `Compressor`.
pub trait Compression: CompressionAlgorithm {
    /// The tag of this algorithm.
    spec fn method_spec() -> CompressionMethod;

    /// The dispatch value that this algorithm gives for rows of `width` samples.
    spec fn algorithm_for(&self, width: usize) -> Compressor;

    /// The tag of this algorithm.
    fn compression_method() -> (r: CompressionMethod)
        ensures
            r == Self::method_spec(),
    ;

    /// A dispatch value holding this algorithm configured for rows of `width` samples.
    fn get_algorithm(&self, width: usize) -> (r: Compressor)
        ensures
            r == self.algorithm_for(width),
            r.method() == Self::method_spec(),
    ;
}

/// Stores samples as they are.
#[derive(Clone, Copy, Debug, PartialEq, Eq, Default)]
pub struct Uncompressed;

impl CompressionAlgorithm for Uncompressed {
    open spec fn can_encode(&self) -> bool {
        true
    }

    open spec fn encoding(&self, bytes: Seq<u8>) -> Seq<u8> {
        bytes
    }

    fn write_to(&mut self, writer: &mut Vec<u8>, bytes: &[u8]) -> (r: u64) {
        let ghost start = writer@;
        let mut i: usize = 0;
        while i < bytes.len()
            invariant
                0 <= i <= bytes@.len(),
                writer@ == start + bytes@.subrange(0, i as int),
            decreases bytes@.len() - i,
        {
            writer.push(bytes[i]);
            assert(bytes@.subrange(0, i + 1) == bytes@.subrange(0, i as int).push(bytes@[i as int]));
            i = i + 1;
        }
        assert(bytes@.subrange(0, i as int) == bytes@);
        bytes.len() as u64
    }
}

impl Compression for Uncompressed {
    open spec fn method_spec() -> CompressionMethod {
        CompressionMethod::Uncompressed
    }

    open spec fn algorithm_for(&self, width: usize) -> Compressor {
        Compressor::Uncompressed(Uncompressed)
    }

    fn compression_method() -> (r: CompressionMethod) {
        CompressionMethod::Uncompressed
    }

    fn get_algorithm(&self, width: usize) -> (r: Compressor) {
        Compressor::Uncompressed(Uncompressed)
    }
}

/// Holds one algorithm of the closed set.
#[derive(Clone, Copy, Debug, PartialEq, Eq)]
pub enum Compressor {
    Uncompressed(Uncompressed),
    Fax4(Fax4),
    CcittG4(CcittG4),
}

impl Compressor {
    /// The tag that the closed set associates with each variant.
    pub open spec fn method(self) -> CompressionMethod {
        match self {
            Compressor::Uncompressed(_) => CompressionMethod::Uncompressed,
            Compressor::Fax4(_) => CompressionMethod::Fax4,
            Compressor::CcittG4(_) => CompressionMethod::Fax4,
        }
    }

    /// The tag of the variant that is active.
    pub fn method_tag(&self) -> (r: CompressionMethod)
        ensures
            r == self.method(),
    {
        match self {
            Compressor::Uncompressed(_) => Uncompressed::compression_method(),
            Compressor::Fax4(_) => Fax4::compression_method(),
            Compressor::CcittG4(_) => CcittG4::compression_method(),
        }
    }

    /// Whether the active algorithm is configured so that it can encode.
    pub fn ready(&self) -> (r: bool)
        ensures
            r == self.can_encode(),
    {
        match self {
            Compressor::Uncompressed(_) => true,
            Compressor::Fax4(a) => {
                let w = a.bits_per_row();
                0 < w && w <= MAX_LINE_WIDTH
            },
            Compressor::CcittG4(a) => a.bits_per_row() > 0,
        }
    }
}

/// Each variant of the closed set carries the tag that its wrapped algorithm declares.
pub proof fn lemma_variant_tags_agree(c: Compressor)
    ensures
        c matches Compressor::Uncompressed(_) ==> c.method() == Uncompressed::method_spec(),
        c matches Compressor::Fax4(_) ==> c.method() == Fax4::method_spec(),
        c matches Compressor::CcittG4(_) ==> c.method() == CcittG4::method_spec(),
{
}

impl Default for Compressor {
    /// The default compression strategy does not apply any compression.
    fn default() -> (r: Self)
        ensures
            r == Compressor::Uncompressed(Uncompressed),
    {
        Compressor::Uncompressed(Uncompressed)
    }
}

impl CompressionAlgorithm for Compressor {
    open spec fn can_encode(&self) -> bool {
        match *self {
            Compressor::Uncompressed(a) => a.can_encode(),
            Compressor::Fax4(a) => a.can_encode(),
            Compressor::CcittG4(a) => a.can_encode(),
        }
    }

    open spec fn encoding(&self, bytes: Seq<u8>) -> Seq<u8> {
        match *self {
            Compressor::Uncompressed(a) => a.encoding(bytes),
            Compressor::Fax4(a) => a.encoding(bytes),
            Compressor::CcittG4(a) => a.encoding(bytes),
        }
    }

    fn write_to(&mut self, writer: &mut Vec<u8>, bytes: &[u8]) -> (r: u64) {
        match *self {
            Compressor::Uncompressed(a) => {
                let mut algorithm = a;
                algorithm.write_to(writer, bytes)
            },
            Compressor::Fax4(a) => {
                let mut algorithm = a;
                algorithm.write_to(writer, bytes)
            },
            Compressor::CcittG4(a) => {
                let mut algorithm = a;
                algorithm.write_to(writer, bytes)
            },
        }
    }
}

} // verus!
