use bedrockrs::error::CodecError;
use bedrockrs::reader::ByteReader;
use bedrockrs::varint::{read_ivar, read_uvar, write_ivar, write_uvar, Width};

#[test]
fn unsigned_varint_of_300_is_two_bytes() {
    let mut out: Vec<u8> = Vec::new();
    write_uvar(&mut out, 300);
    assert_eq!(out, vec![0xAC, 0x02]);
    let mut r = ByteReader::new(&out);
    assert_eq!(read_uvar(&mut r, Width::W32), Ok(300));
    assert_eq!(r.remaining_len(), 0);
}

#[test]
fn ten_byte_varint_decodes_to_u64_max() {
    let bytes: Vec<u8> = vec![0xFF, 0xFF, 0xFF, 0xFF, 0xFF, 0xFF, 0xFF, 0xFF, 0xFF, 0x01];
    let mut r = ByteReader::new(&bytes);
    assert_eq!(read_uvar(&mut r, Width::W64), Ok(u64::MAX));
    let mut out: Vec<u8> = Vec::new();
    write_uvar(&mut out, u64::MAX);
    assert_eq!(out, bytes);
}

#[test]
fn eleven_byte_varint_is_overlong() {
    let bytes: Vec<u8> = vec![0xFF, 0xFF, 0xFF, 0xFF, 0xFF, 0xFF, 0xFF, 0xFF, 0xFF, 0xFF, 0x01];
    let mut r = ByteReader::new(&bytes);
    assert_eq!(read_uvar(&mut r, Width::W64), Err(CodecError::OverlongVarint));
    assert_eq!(r.position(), 0);
}

#[test]
fn zigzag_small_values() {
    let mut out: Vec<u8> = Vec::new();
    write_ivar(&mut out, 0);
    write_ivar(&mut out, -1);
    write_ivar(&mut out, 1);
    write_ivar(&mut out, -2);
    assert_eq!(out, vec![0, 1, 2, 3]);
    let mut r = ByteReader::new(&out);
    assert_eq!(read_ivar(&mut r, Width::W32), Ok(0));
    assert_eq!(read_ivar(&mut r, Width::W32), Ok(-1));
    assert_eq!(read_ivar(&mut r, Width::W32), Ok(1));
    assert_eq!(read_ivar(&mut r, Width::W32), Ok(-2));
}
