use vstd::prelude::*;
use fax::encoder::Encoder;
use fax::{Color, VecWriter};
use crate::compression::{Compression, CompressionAlgorithm, Compressor};
use crate::pels::{row_samples, unpack_row};
use crate::rows::{row_stride, rows_of, segment_rows};
use crate::tags::CompressionMethod;

verus! {

/// The bit sink of the fax encoder, which collects the coded bytes in memory.
#[verifier::external_type_specification]
#[verifier::external_body]
pub struct ExVecWriter(fax::VecWriter);

/// The two-dimensional line encoder of the fax crate.
#[verifier::external_type_specification]
#[verifier::external_body]
#[verifier::reject_recursive_types(W)]
pub struct ExEncoder<W>(fax::encoder::Encoder<W>);

/// The lines, each with its declared width, that an encoder has been fed so far.
pub uninterp spec fn fax_lines_fed(e: Encoder<VecWriter>) -> Seq<(Seq<Color>, u32)>;

/// The complete coded stream, end-of-block included and padded to a byte, that the
/// encoder produces for the given lines.
pub uninterp spec fn fax_code(lines: Seq<(Seq<Color>, u32)>) -> Seq<u8>;

/// Relies on `fax::encoder::Encoder::new` over a fresh `fax::VecWriter::new()`:
/// an encoder that has been fed no line.
#[verifier::external_body]
fn new_line_encoder() -> (r: Encoder<VecWriter>)
    ensures
        fax_lines_fed(r) == Seq::<(Seq<Color>, u32)>::empty(),
{
    Encoder::new(VecWriter::new())
}

/// Relies on `fax::encoder::Encoder::encode_line`: it codes one more line against the
/// previous one, and cannot fail on a `VecWriter` (its error type is `Infallible`).
/// Run positions are subtracted as `i16`, so the width stays below 32768; no sample
/// lies beyond the width.
#[verifier::external_body]
fn encode_line(e: &mut Encoder<VecWriter>, pels: &Vec<Color>, width: u32)
    requires
        pels@.len() <= width,
        width <= 32767,
    ensures
        fax_lines_fed(*final(e)) == fax_lines_fed(*old(e)).push((pels@, width)),
{
    match e.encode_line(pels.iter().copied(), width) {
        Ok(()) => {},
        Err(never) => match never {},
    }
}

/// Relies on `fax::encoder::Encoder::finish`, which writes the 24-bit end-of-block
/// code, and on `fax::VecWriter::finish`, which pads to a byte and hands the bytes
/// back: the stream of the lines fed, never shorter than three bytes.
#[verifier::external_body]
fn finish_lines(e: Encoder<VecWriter>) -> (r: Vec<u8>)
    ensures
        r@ == fax_code(fax_lines_fed(e)),
        r@.len() >= 3,
{
    match e.finish() {
        Ok(w) => w.finish(),
        Err(never) => match never {},
    }
}

/// A row with every bit complemented (`255 - b`), which turns the container's
/// polarity into the encoder's.
pub open spec fn inverted(row: Seq<u8>) -> Seq<u8> {
    row.map_values(|b: u8| (255 - b) as u8)
}

/// The samples that the encoder receives for one packed row: the complemented bytes
/// unpacked, cut to `bits_per_row` samples.
pub open spec fn line_samples(row: Seq<u8>, bits_per_row: usize) -> Seq<Color> {
    row_samples(inverted(row), bits_per_row as nat)
}

/// The lines that a strip gives the encoder, top to bottom, each with the row width.
pub open spec fn strip_lines(bytes: Seq<u8>, bits_per_row: usize) -> Seq<(Seq<Color>, u32)> {
    rows_of(bytes, row_stride(bits_per_row as nat)).map_values(
        |row: Seq<u8>| (line_samples(row, bits_per_row), bits_per_row as u32),
    )
}

/// Complements every byte of a row.
pub fn invert_row(row: &[u8]) -> (r: Vec<u8>)
    ensures
        r@ == inverted(row@),
{
    let mut r: Vec<u8> = Vec::new();
    let mut i: usize = 0;
    while i < row.len()
        invariant
            0 <= i <= row@.len(),
            r@ == inverted(row@.subrange(0, i as int)),
        decreases row@.len() - i,
    {
        r.push(u8::MAX - row[i]);
        assert(inverted(row@.subrange(0, i + 1)) =~= inverted(row@.subrange(0, i as int)).push(
            (255 - row@[i as int]) as u8,
        ));
        i = i + 1;
    }
    assert(row@.subrange(0, i as int) =~= row@);
    r
}

/// The samples of one packed row as the encoder expects them.
pub fn line_pels(row: &[u8], bits_per_row: usize) -> (r: Vec<Color>)
    ensures
        r@ == line_samples(row@, bits_per_row),
{
    let inverted_row = invert_row(row);
    unpack_row(inverted_row.as_slice(), bits_per_row)
}

/// The widest row, in samples, that the line encoder takes.
pub const MAX_LINE_WIDTH: usize = 32767;

/// Two-dimensional bi-level coding through the fax crate's line encoder, fed one
/// unpacked row at a time.
#[derive(Debug, Clone, Copy, PartialEq, Eq, Default)]
pub struct Fax4 {
    bits_per_row: usize,
}

impl Fax4 {
    /// Samples per row that this instance encodes.
    pub closed spec fn width(self) -> usize {
        self.bits_per_row
    }

    /// The instance for rows of `samples_per_row` samples.
    pub closed spec fn configured(samples_per_row: usize) -> Fax4 {
        Fax4 { bits_per_row: samples_per_row }
    }

    /// The instance for rows of `samples_per_row` samples encodes that many.
    pub proof fn lemma_configured_width(samples_per_row: usize)
        ensures
            Fax4::configured(samples_per_row).width() == samples_per_row,
    {
    }

    /// An instance for rows of `samples_per_row` samples.
    pub fn with_width(samples_per_row: usize) -> (r: Fax4)
        ensures
            r == Fax4::configured(samples_per_row),
            r.width() == samples_per_row,
    {
        Fax4 { bits_per_row: samples_per_row }
    }

    /// Samples per row that this instance encodes.
    pub fn bits_per_row(&self) -> (r: usize)
        ensures
            r == self.width(),
    {
        self.bits_per_row
    }
}

impl CompressionAlgorithm for Fax4 {
    /// Rows must be non-empty and narrow enough for the line encoder.
    open spec fn can_encode(&self) -> bool {
        0 < self.width() <= MAX_LINE_WIDTH
    }

    open spec fn encoding(&self, bytes: Seq<u8>) -> Seq<u8> {
        fax_code(strip_lines(bytes, self.width()))
    }

    fn write_to(&mut self, writer: &mut Vec<u8>, bytes: &[u8]) -> (r: u64) {
        let bits_per_row = self.bits_per_row;
        let rows = segment_rows(bits_per_row, bytes);
        let ghost lines = strip_lines(bytes@, bits_per_row);
        let mut encoder = new_line_encoder();
        let mut i: usize = 0;
        while i < rows.len()
            invariant
                0 < bits_per_row <= MAX_LINE_WIDTH,
                bits_per_row == self.bits_per_row,
                lines == strip_lines(bytes@, bits_per_row),
                rows@.len() == lines.len(),
                forall|k: int|
                    0 <= k < rows@.len() ==> #[trigger] rows@[k]@ == rows_of(
                        bytes@,
                        row_stride(bits_per_row as nat),
                    )[k],
                0 <= i <= rows@.len(),
                fax_lines_fed(encoder) == lines.subrange(0, i as int),
            decreases rows@.len() - i,
        {
            let pels = line_pels(rows[i].as_slice(), bits_per_row);
            encode_line(&mut encoder, &pels, bits_per_row as u32);
            assert(lines.subrange(0, i + 1) =~= lines.subrange(0, i as int).push(lines[i as int]));
            i = i + 1;
        }
        assert(lines.subrange(0, i as int) =~= lines);
        let mut buf = finish_lines(encoder);
        let n = buf.len();
        writer.append(&mut buf);
        n as u64
    }
}

impl Compression for Fax4 {
    open spec fn method_spec() -> CompressionMethod {
        CompressionMethod::Fax4
    }

    open spec fn algorithm_for(&self, width: usize) -> Compressor {
        Compressor::Fax4(Fax4::configured(width))
    }

    fn compression_method() -> (r: CompressionMethod) {
        CompressionMethod::Fax4
    }

    fn get_algorithm(&self, width: usize) -> (r: Compressor) {
        Compressor::Fax4(Fax4::with_width(width))
    }
}

} // verus!
