use vstd::prelude::*;
use fax::Color;

verus! {

/// The two pixel colours of the fax encoder, which the unpacker produces.
#[verifier::external_type_specification]
pub struct ExColor(fax::Color);

/// Whether bit `7 - i` of `v` is set, that is the `i`-th bit counted from the
/// most significant end.
pub open spec fn bit_msb_first(v: u8, i: int) -> bool {
    (v >> ((7 - i) as u8)) & 1u8 == 1u8
}

/// The colour of sample `i` of a byte: a set bit is white, a clear one black.
pub open spec fn pel_of(v: u8, i: int) -> Color {
    if bit_msb_first(v, i) {
        Color::White
    } else {
        Color::Black
    }
}

/// Unpacks one byte into its eight samples, most significant bit first.
pub fn to_pels(v: u8) -> (r: [Color; 8])
    ensures
        forall|i: int| 0 <= i < 8 ==> #[trigger] r@[i] == pel_of(v, i),
{
    assert(((v & 0x80u8) > 0u8) == ((v >> 7u8) & 1u8 == 1u8)) by (bit_vector);
    assert(((v & 0x40u8) > 0u8) == ((v >> 6u8) & 1u8 == 1u8)) by (bit_vector);
    assert(((v & 0x20u8) > 0u8) == ((v >> 5u8) & 1u8 == 1u8)) by (bit_vector);
    assert(((v & 0x10u8) > 0u8) == ((v >> 4u8) & 1u8 == 1u8)) by (bit_vector);
    assert(((v & 0x08u8) > 0u8) == ((v >> 3u8) & 1u8 == 1u8)) by (bit_vector);
    assert(((v & 0x04u8) > 0u8) == ((v >> 2u8) & 1u8 == 1u8)) by (bit_vector);
    assert(((v & 0x02u8) > 0u8) == ((v >> 1u8) & 1u8 == 1u8)) by (bit_vector);
    assert(((v & 0x01u8) > 0u8) == ((v >> 0u8) & 1u8 == 1u8)) by (bit_vector);
    let r = [
        if v & 0b1000_0000 > 0 { Color::White } else { Color::Black },
        if v & 0b0100_0000 > 0 { Color::White } else { Color::Black },
        if v & 0b0010_0000 > 0 { Color::White } else { Color::Black },
        if v & 0b0001_0000 > 0 { Color::White } else { Color::Black },
        if v & 0b0000_1000 > 0 { Color::White } else { Color::Black },
        if v & 0b0000_0100 > 0 { Color::White } else { Color::Black },
        if v & 0b0000_0010 > 0 { Color::White } else { Color::Black },
        if v & 0b0000_0001 > 0 { Color::White } else { Color::Black },
    ];
    assert forall|i: int| 0 <= i < 8 implies #[trigger] r@[i] == pel_of(v, i) by {
        if i == 0 {
        } else if i == 1 {
        } else if i == 2 {
        } else if i == 3 {
        } else if i == 4 {
        } else if i == 5 {
        } else if i == 6 {
        } else {
        }
    }
    r
}

/// The first `count` samples of a packed row, most significant bit of each byte
/// first; fewer when the row holds fewer than `count` bits.
pub open spec fn row_samples(row: Seq<u8>, count: nat) -> Seq<Color> {
    let n = if count <= 8 * row.len() { count } else { 8 * row.len() };
    Seq::new(n, |k: int| pel_of(row[k / 8], k % 8))
}

/// Unpacks a packed row into samples and keeps the first `count` of them, which
/// drops the padding bits of a row whose width is not a multiple of eight.
pub fn unpack_row(row: &[u8], count: usize) -> (r: Vec<Color>)
    ensures
        r@ == row_samples(row@, count as nat),
{
    let mut r: Vec<Color> = Vec::new();
    let mut i: usize = 0;
    while i < row.len() && r.len() < count
        invariant
            0 <= i <= row@.len(),
            r@.len() == 8 * i,
            r@.len() <= count,
            forall|k: int| 0 <= k < r@.len() ==> #[trigger] r@[k] == pel_of(row@[k / 8], k % 8),
        decreases row@.len() - i,
    {
        let pels = to_pels(row[i]);
        let mut j: usize = 0;
        while j < 8 && r.len() < count
            invariant
                0 <= i < row@.len(),
                0 <= j <= 8,
                r@.len() == 8 * i + j,
                r@.len() <= count,
                forall|k: int| 0 <= k < 8 ==> #[trigger] pels@[k] == pel_of(row@[i as int], k),
                forall|k: int| 0 <= k < r@.len() ==> #[trigger] r@[k] == pel_of(row@[k / 8], k % 8),
            decreases 8 - j,
        {
            let ghost k = r@.len() as int;
            r.push(pels[j]);
            assert(k / 8 == i && k % 8 == j);
            j = j + 1;
        }
        if j < 8 {
            assert(r@ == row_samples(row@, count as nat));
            return r;
        }
        i = i + 1;
    }
    assert(r@ == row_samples(row@, count as nat));
    r
}

} // verus!
