use fax::decoder::{decode_g4, pels};
use fax::Color;
use strip_compression::ccittg4::{tail_skip_bits, CcittG4};
use strip_compression::compression::{Compression, CompressionAlgorithm, Compressor, Uncompressed};
use strip_compression::fax4::{invert_row, line_pels, Fax4};
use strip_compression::pels::{to_pels, unpack_row};
use strip_compression::rows::segment_rows;
use strip_compression::tags::CompressionMethod;
use strip_compression::util::{u64_div_ceil, usize_div_ceil};

const TEST_DATA: &[u8] = b"This is a string for checking various compression algorithms.";

fn decode_lines(data: &[u8], width: u32, height: u32) -> Vec<Vec<Color>> {
    let mut lines = Vec::new();
    decode_g4(data.iter().copied(), width, Some(height), |transitions| {
        lines.push(pels(transitions, width).collect::<Vec<Color>>());
    });
    lines
}

#[test]
fn ccittg4_test_fax() {
    let algorithm = CcittG4::with_width(100);
    assert_eq!(algorithm.bits_per_row(), 100);
}

#[test]
fn ccittg4_test_pels() {
    assert_eq!(
        [Color::White, Color::White, Color::White, Color::White, Color::White, Color::White, Color::White, Color::White],
        to_pels(255u8)
    )
}

#[test]
fn fax4_test_fax() {
    let algorithm = Fax4::with_width(100);
    assert_eq!(algorithm.bits_per_row(), 100);
}

#[test]
fn fax4_test_pels() {
    assert_eq!(
        [Color::White, Color::White, Color::White, Color::White, Color::White, Color::White, Color::White, Color::White],
        to_pels(255u8)
    )
}

#[test]
fn unpack_black_byte() {
    assert_eq!([Color::Black; 8], to_pels(0u8));
}

#[test]
fn unpack_is_most_significant_bit_first() {
    let b = Color::Black;
    let w = Color::White;
    assert_eq!([w, b, b, b, b, b, b, w], to_pels(0b1000_0001));
    assert_eq!([b, w, b, w, b, b, w, w], to_pels(0b0101_0011));
}

#[test]
fn unpack_row_truncates_padding() {
    let r = unpack_row(&[0xFF, 0x80], 9);
    assert_eq!(r.len(), 9);
    assert!(r.iter().all(|&c| c == Color::White));
    let short = unpack_row(&[0x0F], 20);
    assert_eq!(short.len(), 8);
    assert_eq!(short[3], Color::Black);
    assert_eq!(short[4], Color::White);
    assert!(unpack_row(&[], 5).is_empty());
}

#[test]
fn div_ceil_values() {
    assert_eq!(usize_div_ceil(16, 8), 2);
    assert_eq!(usize_div_ceil(17, 8), 3);
    assert_eq!(usize_div_ceil(0, 8), 0);
    assert_eq!(usize_div_ceil(usize::MAX, 2), usize::MAX / 2 + 1);
    assert_eq!(u64_div_ceil(100, 8), 13);
    assert_eq!(u64_div_ceil(u64::MAX, u64::MAX), 1);
}

#[test]
fn segment_rows_shape() {
    // width 12: two bytes per row, the last row short
    let rows = segment_rows(12, &[1, 2, 3, 4, 5]);
    assert_eq!(rows, vec![vec![1, 2], vec![3, 4], vec![5]]);
    let exact = segment_rows(8, &[9, 8, 7]);
    assert_eq!(exact, vec![vec![9], vec![8], vec![7]]);
    assert!(segment_rows(100, &[]).is_empty());
    let wide = segment_rows(100, TEST_DATA);
    assert_eq!(wide.len(), 5);
    assert!(wide[..4].iter().all(|r| r.len() == 13));
    assert_eq!(wide[4].len(), TEST_DATA.len() - 4 * 13);
}

#[test]
fn skip_bits_at_byte_boundaries() {
    assert_eq!(tail_skip_bits(8), 0);
    assert_eq!(tail_skip_bits(9), 7);
    assert_eq!(tail_skip_bits(16), 0);
    assert_eq!(tail_skip_bits(1), 7);
    assert_eq!(tail_skip_bits(15), 1);
}

#[test]
fn method_tags_agree_with_variants() {
    assert_eq!(Uncompressed::compression_method(), CompressionMethod::Uncompressed);
    assert_eq!(Fax4::compression_method(), CompressionMethod::Fax4);
    assert_eq!(CcittG4::compression_method(), CompressionMethod::Fax4);
    let f = Fax4::with_width(1).get_algorithm(20);
    assert_eq!(f, Compressor::Fax4(Fax4::with_width(20)));
    assert_eq!(f.method_tag(), Fax4::compression_method());
    let c = CcittG4::with_width(1).get_algorithm(30);
    assert_eq!(c, Compressor::CcittG4(CcittG4::with_width(30)));
    assert_eq!(c.method_tag(), CcittG4::compression_method());
    let u = Uncompressed.get_algorithm(40);
    assert_eq!(u, Compressor::Uncompressed(Uncompressed));
    assert_eq!(u.method_tag(), Uncompressed::compression_method());
    assert_eq!(CompressionMethod::Uncompressed.to_u16(), 1);
    assert_eq!(CompressionMethod::Fax4.to_u16(), 4);
}

#[test]
fn default_compressor_passes_bytes_through() {
    let mut c = Compressor::default();
    assert_eq!(c, Compressor::Uncompressed(Uncompressed));
    let mut sink = vec![7u8];
    let n = c.write_to(&mut sink, TEST_DATA);
    assert_eq!(n as usize, TEST_DATA.len());
    assert_eq!(sink[0], 7);
    assert_eq!(&sink[1..], TEST_DATA);
}

#[test]
fn fax_inverts_then_unpacks() {
    assert_eq!(invert_row(&[0xFF, 0x00, 0x0F]), vec![0x00, 0xFF, 0xF0]);
    let line = line_pels(&[0xFF, 0x00], 16);
    let mut expected = vec![Color::Black; 8];
    expected.extend([Color::White; 8]);
    assert_eq!(line, expected);
    assert_eq!(line_pels(&[0x00, 0x00], 12).len(), 12);
}

#[test]
fn fax_end_to_end_two_bytes() {
    let mut algorithm = Fax4::with_width(16);
    let mut sink = Vec::new();
    let n = algorithm.write_to(&mut sink, &[0xFF, 0x00]);
    assert!(n > 0);
    assert_eq!(n as usize, sink.len());
    let lines = decode_lines(&sink, 16, 1);
    let mut expected = vec![Color::Black; 8];
    expected.extend([Color::White; 8]);
    assert_eq!(lines, vec![expected]);
}

#[test]
fn fax_all_ones_round_trip() {
    // width 12: each row is two bytes, four padding bits at the end
    let width = 12u32;
    let bytes = vec![0xFFu8; 6];
    let mut algorithm = Fax4::with_width(width as usize);
    let mut sink = Vec::new();
    let n = algorithm.write_to(&mut sink, &bytes);
    assert_eq!(n as usize, sink.len());
    let lines = decode_lines(&sink, width, 3);
    assert_eq!(lines.len(), 3);
    for line in lines {
        // a set bit becomes a black sample after the polarity change
        assert_eq!(line, vec![Color::Black; width as usize]);
    }
}

#[test]
fn fax_mixed_rows_round_trip() {
    let width = 10u32;
    let bytes = [0b1100_0000u8, 0b0100_0000, 0b0000_0000, 0b1100_0000];
    let mut algorithm = Compressor::Fax4(Fax4::with_width(width as usize));
    let mut sink = vec![1u8, 2];
    let n = algorithm.write_to(&mut sink, &bytes);
    assert_eq!(n as usize + 2, sink.len());
    let lines = decode_lines(&sink[2..], width, 2);
    let b = Color::Black;
    let w = Color::White;
    assert_eq!(lines[0], vec![b, b, w, w, w, w, w, w, w, b]);
    assert_eq!(lines[1], vec![w, w, w, w, w, w, w, w, b, b]);
}

#[test]
fn ccitt_writes_coded_block() {
    let mut algorithm = CcittG4::with_width(16);
    let mut sink = vec![0xAAu8];
    let n = algorithm.write_to(&mut sink, &[0xFF, 0x00]);
    assert!(n >= 3);
    assert_eq!(n as usize + 1, sink.len());
    assert_eq!(sink[0], 0xAA);
    assert_ne!(&sink[1..], &[0xFF, 0x00][..]);
}

#[test]
fn ccitt_through_dispatcher() {
    let mut direct = CcittG4::with_width(9);
    let mut via = Compressor::CcittG4(CcittG4::with_width(9));
    let data = [0x80u8, 0x00, 0xFF, 0x80];
    let mut a = Vec::new();
    let mut b = Vec::new();
    let na = direct.write_to(&mut a, &data);
    let nb = via.write_to(&mut b, &data);
    assert_eq!(na, nb);
    assert_eq!(a, b);
    assert_eq!(na as usize, a.len());
}

#[test]
fn readiness_follows_width() {
    assert!(Compressor::default().ready());
    assert!(Compressor::Fax4(Fax4::with_width(1)).ready());
    assert!(Compressor::Fax4(Fax4::with_width(32767)).ready());
    assert!(!Compressor::Fax4(Fax4::with_width(32768)).ready());
    assert!(!Compressor::Fax4(Fax4::with_width(0)).ready());
    assert!(Compressor::CcittG4(CcittG4::with_width(40000)).ready());
    assert!(!Compressor::CcittG4(CcittG4::with_width(0)).ready());
}
