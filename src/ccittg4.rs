use vstd::prelude::*;
use crate::compression::{Compression, CompressionAlgorithm, Compressor};
use crate::tags::CompressionMethod;

verus! {

/// The complete Group 4 stream that the ccitt-t4-t6 encoder produces for packed rows
/// of `width` samples, skipping `skip_tail` bits after each row.
pub uninterp spec fn g4_code(width: usize, input: Seq<u8>, skip_tail: usize) -> Seq<u8>;

/// Relies on `ccitt_t4_t6::g42d::encode::Encoder::new` with its `skip_tail` field set,
/// and on its `encode`: the result depends on the width, the input and the skip count
/// alone, and ends with a 24-bit end-of-block code, so it is never shorter than three
/// bytes. A zero width would never consume input when nothing is skipped.
#[verifier::external_body]
fn g4_encode(width: usize, input: &[u8], skip_tail: usize) -> (r: Vec<u8>)
    requires
        width > 0,
    ensures
        r@ == g4_code(width, input@, skip_tail),
        r@.len() >= 3,
{
    let mut encoder = ccitt_t4_t6::g42d::encode::Encoder::new(width, input);
    encoder.skip_tail = skip_tail;
    encoder.encode()
}

/// Padding bits at the end of each packed row: none when the width is a multiple of
/// eight, else what fills the last byte.
pub open spec fn padding_bits(bits_per_row: usize) -> usize {
    if bits_per_row % 8 == 0 {
        0
    } else {
        (8 - bits_per_row % 8) as usize
    }
}

/// The number of padding bits that the encoder skips after each row.
pub fn tail_skip_bits(bits_per_row: usize) -> (r: usize)
    ensures
        r == padding_bits(bits_per_row),
        r < 8,
{
    let rem = bits_per_row % 8;
    if rem == 0 {
        0
    } else {
        8 - rem
    }
}

/// Two-dimensional bi-level coding through the ccitt-t4-t6 encoder, which reads the
/// packed rows directly.
#[derive(Debug, Clone, Copy, PartialEq, Eq, Default)]
pub struct CcittG4 {
    bits_per_row: usize,
}

impl CcittG4 {
    /// Samples per row that this instance encodes.
    pub closed spec fn width(self) -> usize {
        self.bits_per_row
    }

    /// The instance for rows of `samples_per_row` samples.
    pub closed spec fn configured(samples_per_row: usize) -> CcittG4 {
        CcittG4 { bits_per_row: samples_per_row }
    }

    /// The instance for rows of `samples_per_row` samples encodes that many.
    pub proof fn lemma_configured_width(samples_per_row: usize)
        ensures
            CcittG4::configured(samples_per_row).width() == samples_per_row,
    {
    }

    /// An instance for rows of `samples_per_row` samples.
    pub fn with_width(samples_per_row: usize) -> (r: CcittG4)
        ensures
            r == CcittG4::configured(samples_per_row),
            r.width() == samples_per_row,
    {
        CcittG4 { bits_per_row: samples_per_row }
    }

    /// Samples per row that this instance encodes.
    pub fn bits_per_row(&self) -> (r: usize)
        ensures
            r == self.width(),
    {
        self.bits_per_row
    }
}

impl CompressionAlgorithm for CcittG4 {
    /// Rows must hold at least one sample.
    open spec fn can_encode(&self) -> bool {
        self.width() > 0
    }

    open spec fn encoding(&self, bytes: Seq<u8>) -> Seq<u8> {
        g4_code(self.width(), bytes, padding_bits(self.width()))
    }

    fn write_to(&mut self, writer: &mut Vec<u8>, bytes: &[u8]) -> (r: u64) {
        let skip = tail_skip_bits(self.bits_per_row);
        let mut buf = g4_encode(self.bits_per_row, bytes, skip);
        let n = buf.len();
        writer.append(&mut buf);
        n as u64
    }
}

impl Compression for CcittG4 {
    open spec fn method_spec() -> CompressionMethod {
        CompressionMethod::Fax4
    }

    open spec fn algorithm_for(&self, width: usize) -> Compressor {
        Compressor::CcittG4(CcittG4::configured(width))
    }

    fn compression_method() -> (r: CompressionMethod) {
        CompressionMethod::Fax4
    }

    fn get_algorithm(&self, width: usize) -> (r: Compressor) {
        Compressor::CcittG4(CcittG4::with_width(width))
    }
}

} // verus!
