use bedrockrs::error::CodecError;
use bedrockrs::reader::ByteReader;
use bedrockrs::varint::{read_ivar, read_uvar, write_ivar, write_uvar, Width};
use bedrockrs::wire::{
    from_twos_complement, read_blob, read_bool, read_int, read_string, read_uint, twos_complement,
    write_blob, write_bool, write_bytes, write_int, write_string, write_uint, ByteOrder, IntSize,
};

fn uvar(v: u64) -> Vec<u8> {
    let mut out: Vec<u8> = Vec::new();
    write_uvar(&mut out, v);
    out
}

fn ivar(v: i64) -> Vec<u8> {
    let mut out: Vec<u8> = Vec::new();
    write_ivar(&mut out, v);
    out
}

#[test]
fn unsigned_varint_exact_bytes() {
    assert_eq!(uvar(0), vec![0x00]);
    assert_eq!(uvar(127), vec![0x7F]);
    assert_eq!(uvar(128), vec![0x80, 0x01]);
    assert_eq!(uvar(143), vec![0x8F, 0x01]);
    assert_eq!(uvar(999), vec![0xE7, 0x07]);
    assert_eq!(uvar(0x2401), vec![0x81, 0x48]);
    assert_eq!(uvar(0xFFFF_FFFF), vec![0xFF, 0xFF, 0xFF, 0xFF, 0x0F]);
}

#[test]
fn unsigned_varint_round_trips_at_width_edges() {
    for (w, max) in [(Width::W16, 0xFFFFu64), (Width::W32, 0xFFFF_FFFF), (Width::W64, u64::MAX)] {
        for v in [0u64, 1, 127, 128, 300, max / 2, max - 1, max] {
            let bytes = uvar(v);
            assert!(bytes.len() <= w.max_encoded_len());
            let mut r = ByteReader::new(&bytes);
            assert_eq!(read_uvar(&mut r, w), Ok(v));
            assert_eq!(r.remaining_len(), 0);
        }
        assert_eq!(w.max_value(), max);
    }
}

#[test]
fn unsigned_varint_overflow_by_width() {
    let bytes = uvar(0x1_0000);
    let mut r = ByteReader::new(&bytes);
    assert_eq!(read_uvar(&mut r, Width::W16), Err(CodecError::VarintOverflow));
    assert_eq!(r.position(), 0);
    let bytes = uvar(0x1_0000_0000);
    let mut r = ByteReader::new(&bytes);
    assert_eq!(read_uvar(&mut r, Width::W32), Err(CodecError::VarintOverflow));
    // Ten bytes whose last group has a bit above the sixty-fourth.
    let bytes: Vec<u8> = vec![0xFF, 0xFF, 0xFF, 0xFF, 0xFF, 0xFF, 0xFF, 0xFF, 0xFF, 0x02];
    let mut r = ByteReader::new(&bytes);
    assert_eq!(read_uvar(&mut r, Width::W64), Err(CodecError::VarintOverflow));
}

#[test]
fn unsigned_varint_overlong_by_width() {
    let mut r = ByteReader::new(&[0x80, 0x80, 0x80, 0x00]);
    assert_eq!(read_uvar(&mut r, Width::W16), Err(CodecError::OverlongVarint));
    let mut r = ByteReader::new(&[0x80, 0x80, 0x80, 0x80, 0x80, 0x00]);
    assert_eq!(read_uvar(&mut r, Width::W32), Err(CodecError::OverlongVarint));
}

#[test]
fn unsigned_varint_truncated() {
    let mut r = ByteReader::new(&[]);
    assert_eq!(read_uvar(&mut r, Width::W32), Err(CodecError::Truncated));
    let mut r = ByteReader::new(&[0x80, 0x80]);
    assert_eq!(read_uvar(&mut r, Width::W32), Err(CodecError::Truncated));
    assert_eq!(r.position(), 0);
}

#[test]
fn unsigned_varint_accepts_padded_forms() {
    let mut r = ByteReader::new(&[0x85, 0x80, 0x00, 0xAA]);
    assert_eq!(read_uvar(&mut r, Width::W32), Ok(5));
    assert_eq!(r.position(), 3);
}

#[test]
fn signed_varint_exact_bytes() {
    assert_eq!(ivar(0), vec![0x00]);
    assert_eq!(ivar(-1), vec![0x01]);
    assert_eq!(ivar(1), vec![0x02]);
    assert_eq!(ivar(-64), vec![0x7F]);
    assert_eq!(ivar(64), vec![0x80, 0x01]);
    assert_eq!(ivar(i32::MAX as i64), vec![0xFE, 0xFF, 0xFF, 0xFF, 0x0F]);
    assert_eq!(ivar(i32::MIN as i64), vec![0xFF, 0xFF, 0xFF, 0xFF, 0x0F]);
}

#[test]
fn signed_varint_round_trips_at_width_edges() {
    for v in [i64::MIN, i64::MIN + 1, -1, 0, 1, i64::MAX - 1, i64::MAX] {
        let bytes = ivar(v);
        let mut r = ByteReader::new(&bytes);
        assert_eq!(read_ivar(&mut r, Width::W64), Ok(v));
    }
    for v in [i32::MIN as i64, -1, 0, 1, i32::MAX as i64] {
        let bytes = ivar(v);
        let mut r = ByteReader::new(&bytes);
        assert_eq!(read_ivar(&mut r, Width::W32), Ok(v));
    }
    for v in [i16::MIN as i64, i16::MAX as i64] {
        let bytes = ivar(v);
        let mut r = ByteReader::new(&bytes);
        assert_eq!(read_ivar(&mut r, Width::W16), Ok(v));
    }
    let bytes = ivar(i32::MAX as i64 + 1);
    let mut r = ByteReader::new(&bytes);
    assert_eq!(read_ivar(&mut r, Width::W32), Err(CodecError::VarintOverflow));
}

#[test]
fn fixed_width_exact_bytes() {
    let mut out: Vec<u8> = Vec::new();
    write_uint(&mut out, 0x0102, IntSize::B2, ByteOrder::LittleEndian);
    write_uint(&mut out, 0x0102, IntSize::B2, ByteOrder::BigEndian);
    write_uint(&mut out, 0x01020304, IntSize::B4, ByteOrder::LittleEndian);
    write_uint(&mut out, 0x01020304, IntSize::B4, ByteOrder::BigEndian);
    write_uint(&mut out, 0xAB, IntSize::B1, ByteOrder::BigEndian);
    assert_eq!(
        out,
        vec![0x02, 0x01, 0x01, 0x02, 0x04, 0x03, 0x02, 0x01, 0x01, 0x02, 0x03, 0x04, 0xAB]
    );
    let mut r = ByteReader::new(&out);
    assert_eq!(read_uint(&mut r, IntSize::B2, ByteOrder::LittleEndian), Ok(0x0102));
    assert_eq!(read_uint(&mut r, IntSize::B2, ByteOrder::BigEndian), Ok(0x0102));
    assert_eq!(read_uint(&mut r, IntSize::B4, ByteOrder::LittleEndian), Ok(0x01020304));
    assert_eq!(read_uint(&mut r, IntSize::B4, ByteOrder::BigEndian), Ok(0x01020304));
    assert_eq!(read_uint(&mut r, IntSize::B1, ByteOrder::LittleEndian), Ok(0xAB));
    assert_eq!(read_uint(&mut r, IntSize::B1, ByteOrder::LittleEndian), Err(CodecError::Truncated));
}

#[test]
fn fixed_width_eight_bytes_round_trip() {
    for order in [ByteOrder::LittleEndian, ByteOrder::BigEndian] {
        for v in [0u64, 1, 0x0102_0304_0506_0708, u64::MAX] {
            let mut out: Vec<u8> = Vec::new();
            write_uint(&mut out, v, IntSize::B8, order);
            assert_eq!(out.len(), IntSize::B8.byte_count());
            let mut r = ByteReader::new(&out);
            assert_eq!(read_uint(&mut r, IntSize::B8, order), Ok(v));
        }
    }
    let mut out: Vec<u8> = Vec::new();
    write_uint(&mut out, 0x0102_0304_0506_0708, IntSize::B8, ByteOrder::LittleEndian);
    assert_eq!(out, vec![8, 7, 6, 5, 4, 3, 2, 1]);
}

#[test]
fn fixed_width_write_keeps_low_bytes() {
    let mut out: Vec<u8> = Vec::new();
    write_uint(&mut out, 0x1234_5678, IntSize::B2, ByteOrder::BigEndian);
    assert_eq!(out, vec![0x56, 0x78]);
}

#[test]
fn fixed_width_short_input_leaves_reader_in_place() {
    let mut r = ByteReader::new(&[1, 2, 3]);
    assert_eq!(read_uint(&mut r, IntSize::B4, ByteOrder::LittleEndian), Err(CodecError::Truncated));
    assert_eq!(r.position(), 0);
}

#[test]
fn signed_fixed_width_is_twos_complement() {
    let mut out: Vec<u8> = Vec::new();
    write_int(&mut out, -1, IntSize::B1, ByteOrder::LittleEndian);
    write_int(&mut out, -2, IntSize::B2, ByteOrder::LittleEndian);
    write_int(&mut out, -2, IntSize::B4, ByteOrder::BigEndian);
    write_int(&mut out, i64::MIN, IntSize::B8, ByteOrder::BigEndian);
    assert_eq!(
        out,
        vec![0xFF, 0xFE, 0xFF, 0xFF, 0xFF, 0xFF, 0xFE, 0x80, 0, 0, 0, 0, 0, 0, 0]
    );
    let mut r = ByteReader::new(&out);
    assert_eq!(read_int(&mut r, IntSize::B1, ByteOrder::LittleEndian), Ok(-1));
    assert_eq!(read_int(&mut r, IntSize::B2, ByteOrder::LittleEndian), Ok(-2));
    assert_eq!(read_int(&mut r, IntSize::B4, ByteOrder::BigEndian), Ok(-2));
    assert_eq!(read_int(&mut r, IntSize::B8, ByteOrder::BigEndian), Ok(i64::MIN));
}

#[test]
fn twos_complement_patterns() {
    assert_eq!(twos_complement(-1, IntSize::B1), 0xFF);
    assert_eq!(twos_complement(-128, IntSize::B1), 0x80);
    assert_eq!(twos_complement(127, IntSize::B1), 0x7F);
    assert_eq!(twos_complement(-1, IntSize::B2), 0xFFFF);
    assert_eq!(twos_complement(i32::MIN as i64, IntSize::B4), 0x8000_0000);
    assert_eq!(twos_complement(-1, IntSize::B8), u64::MAX);
    assert_eq!(twos_complement(i64::MIN, IntSize::B8), 0x8000_0000_0000_0000);
    assert_eq!(twos_complement(-257, IntSize::B1), 0xFF);
    assert_eq!(from_twos_complement(0xFF, IntSize::B1), -1);
    assert_eq!(from_twos_complement(0x80, IntSize::B1), -128);
    assert_eq!(from_twos_complement(0x7F, IntSize::B1), 127);
    assert_eq!(from_twos_complement(0x1FF, IntSize::B1), -1);
    assert_eq!(from_twos_complement(0x8000, IntSize::B2), i16::MIN as i64);
    assert_eq!(from_twos_complement(0xFFFF_FFFF, IntSize::B4), -1);
    assert_eq!(from_twos_complement(u64::MAX, IntSize::B8), -1);
    assert_eq!(from_twos_complement(0x8000_0000_0000_0000, IntSize::B8), i64::MIN);
    assert_eq!(from_twos_complement(0x7FFF_FFFF_FFFF_FFFF, IntSize::B8), i64::MAX);
}

#[test]
fn booleans() {
    let mut out: Vec<u8> = Vec::new();
    write_bool(&mut out, true);
    write_bool(&mut out, false);
    assert_eq!(out, vec![1, 0]);
    let mut r = ByteReader::new(&[1, 0, 2, 0xFF]);
    assert_eq!(read_bool(&mut r), Ok(true));
    assert_eq!(read_bool(&mut r), Ok(false));
    assert_eq!(read_bool(&mut r), Ok(true));
    assert_eq!(read_bool(&mut r), Ok(true));
    assert_eq!(read_bool(&mut r), Err(CodecError::Truncated));
}

#[test]
fn strings() {
    let mut out: Vec<u8> = Vec::new();
    assert_eq!(write_string(&mut out, ""), Ok(()));
    assert_eq!(out, vec![0x00]);
    assert_eq!(write_string(&mut out, "h\u{e9}"), Ok(()));
    assert_eq!(out, vec![0x00, 0x03, b'h', 0xC3, 0xA9]);
    let mut r = ByteReader::new(&out);
    assert_eq!(read_string(&mut r), Ok(String::new()));
    assert_eq!(read_string(&mut r), Ok("h\u{e9}".to_string()));
    assert_eq!(r.remaining_len(), 0);
}

#[test]
fn string_of_two_hundred_bytes_has_two_byte_prefix() {
    let text = "x".repeat(200);
    let mut out: Vec<u8> = Vec::new();
    assert_eq!(write_string(&mut out, &text), Ok(()));
    assert_eq!(&out[..2], &[0xC8, 0x01]);
    assert_eq!(out.len(), 202);
    let mut r = ByteReader::new(&out);
    assert_eq!(read_string(&mut r), Ok(text));
}

#[test]
fn string_errors() {
    let mut r = ByteReader::new(&[0x02, 0xFF, 0xFE]);
    assert_eq!(read_string(&mut r), Err(CodecError::InvalidUtf8));
    let mut r = ByteReader::new(&[0x03, b'a', b'b']);
    assert_eq!(read_string(&mut r), Err(CodecError::Truncated));
    // A length near the limit of the prefix, with nothing behind it.
    let mut r = ByteReader::new(&[0xFF, 0xFF, 0xFF, 0xFF, 0x0F]);
    assert_eq!(read_string(&mut r), Err(CodecError::Truncated));
    let mut r = ByteReader::new(&[0xFF, 0xFF, 0xFF, 0xFF, 0x1F]);
    assert_eq!(read_string(&mut r), Err(CodecError::VarintOverflow));
    // An encoded surrogate is no scalar value.
    let mut r = ByteReader::new(&[0x03, 0xED, 0xA0, 0x80]);
    assert_eq!(read_string(&mut r), Err(CodecError::InvalidUtf8));
}

#[test]
fn blobs() {
    let mut out: Vec<u8> = Vec::new();
    assert_eq!(write_blob(&mut out, &[0xFF, 0x00, 0x80]), Ok(()));
    assert_eq!(out, vec![0x03, 0xFF, 0x00, 0x80]);
    let mut r = ByteReader::new(&out);
    assert_eq!(read_blob(&mut r), Ok(vec![0xFF, 0x00, 0x80]));
    let mut r = ByteReader::new(&[0x02, 0x01]);
    assert_eq!(read_blob(&mut r), Err(CodecError::Truncated));
}

#[test]
fn raw_bytes_are_appended() {
    let mut out: Vec<u8> = vec![9];
    write_bytes(&mut out, &[1, 2, 3]);
    write_bytes(&mut out, &[]);
    assert_eq!(out, vec![9, 1, 2, 3]);
}

#[test]
fn reader_moves_only_on_success() {
    let data: Vec<u8> = vec![1, 2, 3, 4];
    let mut r = ByteReader::new(&data);
    assert_eq!(r.peek(0), Some(1));
    assert_eq!(r.peek(3), Some(4));
    assert_eq!(r.peek(4), None);
    assert_eq!(r.skip(5), Err(CodecError::Truncated));
    assert_eq!(r.position(), 0);
    assert_eq!(r.take(3), Ok(&data[..3]));
    assert_eq!(r.position(), 3);
    assert_eq!(r.remaining_len(), 1);
    let ahead = r.fork();
    assert_eq!(r.skip(1), Ok(()));
    assert_eq!(ahead.position(), 3);
    assert_eq!(r.take(1).is_err(), true);
    assert_eq!(r.take(0), Ok(&data[..0]));
}
