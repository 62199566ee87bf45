//! The primitive field codecs: fixed-width integers in either byte order,
//! booleans, length-prefixed strings and length-prefixed byte blobs.
//!
//! Each codec has a spec function that gives the bytes of a value, a spec
//! function that reads a value off the front of a byte sequence, an
//! executable writer and an executable reader. Signed integers travel in
//! two's complement; floating-point fields travel as their IEEE-754 bit
//! patterns, which this crate holds as unsigned integers.

use vstd::prelude::*;
use vstd::arithmetic::div_mod::{lemma_fundamental_div_mod, lemma_fundamental_div_mod_converse};
use vstd::arithmetic::div_mod::lemma_mod_bound;
use vstd::slice::slice_to_vec;
use vstd::utf8::{decode_utf8, encode_utf8, valid_utf8};
use vstd::utf8::{decode_utf8_encode_utf8, encode_utf8_decode_utf8, encode_utf8_valid_utf8};
use crate::error::CodecError;
use crate::reader::ByteReader;
use crate::varint::{lemma_scan_bytes, lemma_strict_scan_is_bytes, lemma_strict_scan_is_lenient};
use crate::varint::{lemma_uvar_len, parse_uvar, read_uvar, uvar_bytes, write_uvar};
use crate::varint::{Parsed, Width};

verus! {

/// The sizes of the fixed-width integers, in bytes.
#[derive(Debug, Clone, Copy, PartialEq, Eq, Structural)]
pub enum IntSize {
    B1,
    B2,
    B4,
    B8,
}

/// The order in which the bytes of a fixed-width integer travel.
#[derive(Debug, Clone, Copy, PartialEq, Eq, Structural)]
pub enum ByteOrder {
    /// Least significant byte first.
    LittleEndian,
    /// Most significant byte first.
    BigEndian,
}

impl IntSize {
    /// Number of bytes of an integer of this size.
    pub open spec fn bytes(self) -> nat {
        match self {
            IntSize::B1 => 1,
            IntSize::B2 => 2,
            IntSize::B4 => 4,
            IntSize::B8 => 8,
        }
    }

    /// Number of values of this size: 256 to the power of its byte count.
    pub open spec fn limit(self) -> nat {
        match self {
            IntSize::B1 => 0x100,
            IntSize::B2 => 0x1_0000,
            IntSize::B4 => 0x1_0000_0000,
            IntSize::B8 => 0x1_0000_0000_0000_0000,
        }
    }

    /// Number of bytes of an integer of this size.
    pub fn byte_count(self) -> (n: usize)
        ensures
            n == self.bytes(),
    {
        match self {
            IntSize::B1 => 1,
            IntSize::B2 => 2,
            IntSize::B4 => 4,
            IntSize::B8 => 8,
        }
    }
}

/// 256 to the power of `n`.
pub open spec fn pow256(n: nat) -> nat
    decreases n,
{
    if n == 0 {
        1
    } else {
        256 * pow256((n - 1) as nat)
    }
}

/// The low `n` bytes of `v`, least significant first.
pub open spec fn le_bytes(v: nat, n: nat) -> Seq<u8>
    decreases n,
{
    if n == 0 {
        Seq::empty()
    } else {
        seq![(v % 256) as u8] + le_bytes(v / 256, (n - 1) as nat)
    }
}

/// The number whose bytes, least significant first, are `b`.
pub open spec fn le_value(b: Seq<u8>) -> nat
    decreases b.len(),
{
    if b.len() == 0 {
        0
    } else {
        b[0] as nat + 256 * le_value(b.skip(1))
    }
}

/// The low `n` bytes of `v`, most significant first.
pub open spec fn be_bytes(v: nat, n: nat) -> Seq<u8>
    decreases n,
{
    if n == 0 {
        Seq::empty()
    } else {
        be_bytes(v / 256, (n - 1) as nat).push((v % 256) as u8)
    }
}

/// The number whose bytes, most significant first, are `b`.
pub open spec fn be_value(b: Seq<u8>) -> nat
    decreases b.len(),
{
    if b.len() == 0 {
        0
    } else {
        256 * be_value(b.drop_last()) + b.last() as nat
    }
}

/// The bytes of the unsigned integer `v` at the given size and order. A value
/// too large for the size loses its high bytes.
#[verifier::opaque]
pub open spec fn uint_bytes(v: nat, size: IntSize, order: ByteOrder) -> Seq<u8> {
    match order {
        ByteOrder::LittleEndian => le_bytes(v, size.bytes()),
        ByteOrder::BigEndian => be_bytes(v, size.bytes()),
    }
}

/// The unsigned integer whose bytes in the given order are `b`.
pub open spec fn uint_value(b: Seq<u8>, order: ByteOrder) -> nat {
    match order {
        ByteOrder::LittleEndian => le_value(b),
        ByteOrder::BigEndian => be_value(b),
    }
}

/// Reads an unsigned integer of the given size and order off the front of `b`.
#[verifier::opaque]
pub open spec fn parse_uint(b: Seq<u8>, size: IntSize, order: ByteOrder) -> Parsed<nat> {
    if b.len() < size.bytes() {
        Err(CodecError::Truncated)
    } else {
        Ok((uint_value(b.take(size.bytes() as int), order), b.skip(size.bytes() as int)))
    }
}

/// The two's complement pattern of `n` at the given size.
pub open spec fn twos(n: int, size: IntSize) -> nat {
    (n % size.limit() as int) as nat
}

/// The signed value of the two's complement pattern `u` at the given size.
pub open spec fn untwos(u: nat, size: IntSize) -> int {
    if 2 * u < size.limit() {
        u as int
    } else {
        u - size.limit()
    }
}

/// The bytes of the signed integer `n` at the given size and order.
pub open spec fn int_bytes(n: int, size: IntSize, order: ByteOrder) -> Seq<u8> {
    uint_bytes(twos(n, size), size, order)
}

/// Reads a signed integer of the given size and order off the front of `b`.
pub open spec fn parse_int(b: Seq<u8>, size: IntSize, order: ByteOrder) -> Parsed<int> {
    match parse_uint(b, size, order) {
        Ok((u, rest)) => Ok((untwos(u, size), rest)),
        Err(e) => Err(e),
    }
}

/// The byte of a boolean: one for true, zero for false.
#[verifier::opaque]
pub open spec fn bool_bytes(v: bool) -> Seq<u8> {
    seq![if v { 1u8 } else { 0u8 }]
}

/// Reads a boolean off the front of `b`: any non-zero byte is true. With
/// `strict`, a byte other than zero and one is refused as out of range.
#[verifier::opaque]
pub open spec fn parse_bool(b: Seq<u8>, strict: bool) -> Parsed<bool> {
    if b.len() == 0 {
        Err(CodecError::Truncated)
    } else if strict && b[0] > 1 {
        Err(CodecError::OutOfRange)
    } else {
        Ok((b[0] != 0, b.skip(1)))
    }
}

/// Largest length that a length prefix can carry.
pub open spec fn max_prefixed_len() -> nat {
    0xffff_ffff
}

/// The bytes of a blob: its length as an unsigned varint, then its bytes.
#[verifier::opaque]
pub open spec fn blob_bytes(data: Seq<u8>) -> Seq<u8> {
    uvar_bytes(data.len()) + data
}

/// Reads a blob off the front of `b`.
#[verifier::opaque]
pub open spec fn parse_blob(b: Seq<u8>, strict: bool) -> Parsed<Seq<u8>> {
    match parse_uvar(b, Width::W32, strict) {
        Ok((n, rest)) => if rest.len() < n {
            Err(CodecError::Truncated)
        } else {
            Ok((rest.take(n as int), rest.skip(n as int)))
        },
        Err(e) => Err(e),
    }
}

/// The bytes of a string: the length of its UTF-8 form as an unsigned
/// varint, then the UTF-8 form.
#[verifier::opaque]
pub open spec fn string_bytes(s: Seq<char>) -> Seq<u8> {
    blob_bytes(encode_utf8(s))
}

/// Reads a string off the front of `b`.
#[verifier::opaque]
pub open spec fn parse_string(b: Seq<u8>, strict: bool) -> Parsed<Seq<char>> {
    match parse_blob(b, strict) {
        Ok((data, rest)) => if valid_utf8(data) {
            Ok((decode_utf8(data), rest))
        } else {
            Err(CodecError::InvalidUtf8)
        },
        Err(e) => Err(e),
    }
}

/// Whether a string is short enough for its length prefix.
pub open spec fn string_fits(s: Seq<char>) -> bool {
    encode_utf8(s).len() <= max_prefixed_len()
}

/// Powers of 256 grow with the exponent.
proof fn lemma_pow256_grows(a: nat, b: nat)
    requires
        a <= b,
    ensures
        pow256(a) <= pow256(b),
    decreases b,
{
    if a < b {
        lemma_pow256_grows(a, (b - 1) as nat);
    }
}

/// The limit of each size is 256 to the power of its byte count.
pub proof fn lemma_limit_is_pow256(size: IntSize)
    ensures
        size.limit() == pow256(size.bytes()),
{
    reveal_with_fuel(pow256, 9);
}

/// `le_bytes(v, n)` has `n` bytes.
pub proof fn lemma_le_bytes_len(v: nat, n: nat)
    ensures
        le_bytes(v, n).len() == n,
    decreases n,
{
    if n > 0 {
        lemma_le_bytes_len(v / 256, (n - 1) as nat);
    }
}

/// `be_bytes(v, n)` has `n` bytes.
pub proof fn lemma_be_bytes_len(v: nat, n: nat)
    ensures
        be_bytes(v, n).len() == n,
    decreases n,
{
    if n > 0 {
        lemma_be_bytes_len(v / 256, (n - 1) as nat);
    }
}

/// The value of `n` little-endian bytes is below 256^n.
pub proof fn lemma_le_value_bound(b: Seq<u8>)
    ensures
        le_value(b) < pow256(b.len()),
    decreases b.len(),
{
    if b.len() > 0 {
        lemma_le_value_bound(b.skip(1));
    }
}

/// The value of `n` big-endian bytes is below 256^n.
pub proof fn lemma_be_value_bound(b: Seq<u8>)
    ensures
        be_value(b) < pow256(b.len()),
    decreases b.len(),
{
    if b.len() > 0 {
        lemma_be_value_bound(b.drop_last());
    }
}

/// Little-endian bytes and values undo each other.
pub proof fn lemma_le_inverse(v: nat, b: Seq<u8>, n: nat)
    ensures
        v < pow256(n) ==> le_value(le_bytes(v, n)) == v,
        b.len() == n ==> le_bytes(le_value(b), n) == b,
    decreases n,
{
    if n > 0 {
        if v < pow256(n) {
            let bytes = le_bytes(v, n);
            assert(bytes.skip(1) =~= le_bytes(v / 256, (n - 1) as nat));
            lemma_le_inverse(v / 256, Seq::empty(), (n - 1) as nat);
        }
        if b.len() == n {
            lemma_le_inverse(0, b.skip(1), (n - 1) as nat);
            let v2 = le_value(b);
            assert(v2 / 256 == le_value(b.skip(1)) && v2 % 256 == b[0]);
            assert(le_bytes(v2, n) =~= b);
        }
    } else if b.len() == n {
        assert(le_bytes(le_value(b), n) =~= b);
    }
}

/// Big-endian bytes and values undo each other.
pub proof fn lemma_be_inverse(v: nat, b: Seq<u8>, n: nat)
    ensures
        v < pow256(n) ==> be_value(be_bytes(v, n)) == v,
        b.len() == n ==> be_bytes(be_value(b), n) == b,
    decreases n,
{
    if n > 0 {
        if v < pow256(n) {
            let bytes = be_bytes(v, n);
            assert(bytes.drop_last() =~= be_bytes(v / 256, (n - 1) as nat));
            lemma_be_inverse(v / 256, Seq::empty(), (n - 1) as nat);
        }
        if b.len() == n {
            lemma_be_inverse(0, b.drop_last(), (n - 1) as nat);
            let v2 = be_value(b);
            assert(v2 / 256 == be_value(b.drop_last()) && v2 % 256 == b.last());
            assert(be_bytes(v2, n) =~= b);
        }
    } else if b.len() == n {
        assert(be_bytes(be_value(b), n) =~= b);
    }
}

/// An unsigned integer of a size has as many bytes as the size says.
pub proof fn lemma_uint_bytes_len(v: nat, size: IntSize, order: ByteOrder)
    ensures
        uint_bytes(v, size, order).len() == size.bytes(),
{
    reveal(uint_bytes);
    lemma_le_bytes_len(v, size.bytes());
    lemma_be_bytes_len(v, size.bytes());
}

/// Reading the bytes of an unsigned integer that fits its size gives the
/// integer back and leaves what followed.
pub proof fn lemma_uint_round_trip(v: nat, size: IntSize, order: ByteOrder, rest: Seq<u8>)
    requires
        v < size.limit(),
    ensures
        parse_uint(uint_bytes(v, size, order) + rest, size, order) == Ok::<
            (nat, Seq<u8>),
            CodecError,
        >((v, rest)),
{
    reveal(uint_bytes);
    reveal(parse_uint);
    let bytes = uint_bytes(v, size, order);
    lemma_uint_bytes_len(v, size, order);
    lemma_limit_is_pow256(size);
    lemma_le_inverse(v, Seq::empty(), size.bytes());
    lemma_be_inverse(v, Seq::empty(), size.bytes());
    assert((bytes + rest).take(size.bytes() as int) =~= bytes);
    assert((bytes + rest).skip(size.bytes() as int) =~= rest);
}

/// Whatever reads as an unsigned integer is the bytes of that integer,
/// followed by the bytes left over, and the integer fits its size.
pub proof fn lemma_uint_parse_is_bytes(b: Seq<u8>, size: IntSize, order: ByteOrder)
    requires
        parse_uint(b, size, order) is Ok,
    ensures
        parse_uint(b, size, order).unwrap().0 < size.limit(),
        b == uint_bytes(parse_uint(b, size, order).unwrap().0, size, order) + parse_uint(
            b,
            size,
            order,
        ).unwrap().1,
{
    reveal(uint_bytes);
    reveal(parse_uint);
    let head = b.take(size.bytes() as int);
    lemma_limit_is_pow256(size);
    lemma_le_value_bound(head);
    lemma_be_value_bound(head);
    lemma_le_inverse(0, head, size.bytes());
    lemma_be_inverse(0, head, size.bytes());
    assert(b =~= head + b.skip(size.bytes() as int));
}

/// The remainder of a number in `[-m, m)` on division by `m`: the number
/// itself where it is not negative, the number plus `m` where it is.
proof fn lemma_mod_near_zero(x: int, m: int)
    requires
        m > 0,
        -m <= x < m,
    ensures
        x % m == if x >= 0 {
            x
        } else {
            x + m
        },
{
    if x >= 0 {
        lemma_fundamental_div_mod_converse(x, m, 0, x);
    } else {
        lemma_fundamental_div_mod_converse(x, m, -1, x + m);
    }
}

/// Two's complement and its inverse undo each other on the values of a size.
pub proof fn lemma_twos(n: int, u: nat, size: IntSize)
    ensures
        twos(n, size) < size.limit(),
        -(size.limit() as int) <= 2 * n < size.limit() ==> untwos(twos(n, size), size) == n,
        u < size.limit() ==> twos(untwos(u, size), size) == u && -(size.limit() as int) <= 2
            * untwos(u, size) < size.limit(),
{
    let m = size.limit() as int;
    lemma_mod_bound(n, m);
    if -m <= 2 * n < m {
        lemma_mod_near_zero(n, m);
    }
    if u < m {
        lemma_mod_near_zero(untwos(u, size), m);
    }
}

/// Reading the bytes of a signed integer that fits its size gives the
/// integer back and leaves what followed.
pub proof fn lemma_int_round_trip(n: int, size: IntSize, order: ByteOrder, rest: Seq<u8>)
    requires
        -(size.limit() as int) <= 2 * n < size.limit(),
    ensures
        parse_int(int_bytes(n, size, order) + rest, size, order) == Ok::<
            (int, Seq<u8>),
            CodecError,
        >((n, rest)),
{
    lemma_twos(n, 0, size);
    lemma_uint_round_trip(twos(n, size), size, order, rest);
}

/// Whatever reads as a signed integer is the bytes of that integer, followed
/// by the bytes left over, and the integer fits its size.
pub proof fn lemma_int_parse_is_bytes(b: Seq<u8>, size: IntSize, order: ByteOrder)
    requires
        parse_int(b, size, order) is Ok,
    ensures
        -(size.limit() as int) <= 2 * parse_int(b, size, order).unwrap().0 < size.limit(),
        b == int_bytes(parse_int(b, size, order).unwrap().0, size, order) + parse_int(
            b,
            size,
            order,
        ).unwrap().1,
{
    lemma_uint_parse_is_bytes(b, size, order);
    lemma_twos(0, parse_uint(b, size, order).unwrap().0, size);
}

/// Reading the byte of a boolean gives the boolean back, in strict mode too.
pub proof fn lemma_bool_round_trip(v: bool, rest: Seq<u8>, strict: bool)
    ensures
        parse_bool(bool_bytes(v) + rest, strict) == Ok::<(bool, Seq<u8>), CodecError>((v, rest)),
{
    reveal(bool_bytes);
    reveal(parse_bool);
    assert((bool_bytes(v) + rest).skip(1) =~= rest);
}

/// Whatever reads as a boolean in strict mode is the byte of that boolean,
/// followed by the bytes left over; the lenient reader agrees.
pub proof fn lemma_bool_strict(b: Seq<u8>)
    requires
        parse_bool(b, true) is Ok,
    ensures
        parse_bool(b, false) == parse_bool(b, true),
        b == bool_bytes(parse_bool(b, true).unwrap().0) + parse_bool(b, true).unwrap().1,
{
    reveal(bool_bytes);
    reveal(parse_bool);
    assert(b =~= bool_bytes(b[0] != 0) + b.skip(1));
}

/// Reading the bytes of a blob that fits its length prefix gives the blob
/// back and leaves what followed, in strict mode too.
pub proof fn lemma_blob_round_trip(data: Seq<u8>, rest: Seq<u8>, strict: bool)
    requires
        data.len() <= max_prefixed_len(),
    ensures
        parse_blob(blob_bytes(data) + rest, strict) == Ok::<(Seq<u8>, Seq<u8>), CodecError>(
            (data, rest),
        ),
{
    reveal(blob_bytes);
    reveal(parse_blob);
    lemma_uvar_len(data.len(), Width::W32);
    lemma_scan_bytes(data.len(), data + rest, Width::W32.max_len(), strict);
    assert(blob_bytes(data) + rest =~= uvar_bytes(data.len()) + (data + rest));
    assert((data + rest).take(data.len() as int) =~= data);
    assert((data + rest).skip(data.len() as int) =~= rest);
}

/// Whatever reads as a blob in strict mode is the bytes of that blob,
/// followed by the bytes left over; the lenient reader agrees.
pub proof fn lemma_blob_strict(b: Seq<u8>)
    requires
        parse_blob(b, true) is Ok,
    ensures
        parse_blob(b, false) == parse_blob(b, true),
        parse_blob(b, true).unwrap().0.len() <= max_prefixed_len(),
        b == blob_bytes(parse_blob(b, true).unwrap().0) + parse_blob(b, true).unwrap().1,
{
    reveal(blob_bytes);
    reveal(parse_blob);
    lemma_strict_scan_is_lenient(b, Width::W32.max_len());
    lemma_strict_scan_is_bytes(b, Width::W32.max_len());
    let (n, after) = parse_uvar(b, Width::W32, true).unwrap();
    let (data, rest) = parse_blob(b, true).unwrap();
    assert(after =~= data + rest);
    assert(b =~= blob_bytes(data) + rest);
}

/// Reading the bytes of a string that fits its length prefix gives the
/// string back and leaves what followed, in strict mode too.
pub proof fn lemma_string_round_trip(s: Seq<char>, rest: Seq<u8>, strict: bool)
    requires
        string_fits(s),
    ensures
        parse_string(string_bytes(s) + rest, strict) == Ok::<(Seq<char>, Seq<u8>), CodecError>(
            (s, rest),
        ),
{
    reveal(string_bytes);
    reveal(parse_string);
    lemma_blob_round_trip(encode_utf8(s), rest, strict);
    encode_utf8_valid_utf8(s);
    encode_utf8_decode_utf8(s);
}

/// Whatever reads as a string in strict mode is the bytes of that string,
/// followed by the bytes left over; the lenient reader agrees.
pub proof fn lemma_string_strict(b: Seq<u8>)
    requires
        parse_string(b, true) is Ok,
    ensures
        parse_string(b, false) == parse_string(b, true),
        string_fits(parse_string(b, true).unwrap().0),
        b == string_bytes(parse_string(b, true).unwrap().0) + parse_string(b, true).unwrap().1,
{
    reveal(string_bytes);
    reveal(parse_string);
    lemma_blob_strict(b);
    decode_utf8_encode_utf8(parse_blob(b, true).unwrap().0);
}

/// Appends `bytes` to `out`.
pub fn write_bytes(out: &mut Vec<u8>, bytes: &[u8])
    ensures
        final(out)@ == old(out)@ + bytes@,
{
    let mut i: usize = 0;
    while i < bytes.len()
        invariant
            i <= bytes@.len(),
            out@ == old(out)@ + bytes@.take(i as int),
        decreases bytes@.len() - i,
    {
        let ghost before = out@;
        out.push(bytes[i]);
        assert(out@ =~= old(out)@ + bytes@.take(i + 1));
        i = i + 1;
    }
    assert(bytes@.take(i as int) =~= bytes@);
}

/// Appends the low `n` bytes of `v`, least significant first.
fn write_le(out: &mut Vec<u8>, v: u64, n: usize)
    ensures
        final(out)@ == old(out)@ + le_bytes(v as nat, n as nat),
{
    let mut x: u64 = v;
    let mut i: usize = 0;
    while i < n
        invariant
            i <= n,
            out@ + le_bytes(x as nat, (n - i) as nat) == old(out)@ + le_bytes(v as nat, n as nat),
        decreases n - i,
    {
        let ghost before = out@;
        out.push((x % 256) as u8);
        assert(out@ + le_bytes((x / 256) as nat, (n - i - 1) as nat) =~= before + le_bytes(
            x as nat,
            (n - i) as nat,
        ));
        x = x / 256;
        i = i + 1;
    }
    assert(out@ + le_bytes(x as nat, 0) =~= out@);
}

/// Appends the low `n` bytes of `v`, most significant first.
fn write_be(out: &mut Vec<u8>, v: u64, n: usize)
    ensures
        final(out)@ == old(out)@ + be_bytes(v as nat, n as nat),
    decreases n,
{
    if n > 0 {
        write_be(out, v / 256, n - 1);
        let ghost before = out@;
        out.push((v % 256) as u8);
        assert(out@ =~= old(out)@ + be_bytes(v as nat, n as nat));
    } else {
        assert(out@ =~= old(out)@ + be_bytes(v as nat, 0));
    }
}

/// Appends the unsigned integer `v` at the given size and order. A value too
/// large for the size loses its high bytes.
pub fn write_uint(out: &mut Vec<u8>, v: u64, size: IntSize, order: ByteOrder)
    ensures
        final(out)@ == old(out)@ + uint_bytes(v as nat, size, order),
{
    proof {
        reveal(uint_bytes);
    }
    match order {
        ByteOrder::LittleEndian => write_le(out, v, size.byte_count()),
        ByteOrder::BigEndian => write_be(out, v, size.byte_count()),
    }
}

/// Reads an unsigned integer of the given size and order. On failure the
/// reader stays where it was.
pub fn read_uint(r: &mut ByteReader, size: IntSize, order: ByteOrder) -> (res: Result<
    u64,
    CodecError,
>)
    ensures
        match parse_uint(old(r).remaining(), size, order) {
            Ok((v, rest)) => res == Ok::<u64, CodecError>(v as u64)
                && v < size.limit()
                && final(r).remaining() == rest,
            Err(e) => res == Err::<u64, CodecError>(e) && *final(r) == *old(r),
        },
{
    proof {
        reveal(parse_uint);
    }
    let n: usize = size.byte_count();
    let bytes = match r.take(n) {
        Ok(bytes) => bytes,
        Err(e) => {
            return Err(e);
        },
    };
    proof {
        lemma_limit_is_pow256(size);
        lemma_le_value_bound(bytes@);
        lemma_be_value_bound(bytes@);
        reveal_with_fuel(pow256, 9);
    }
    let mut acc: u64 = 0;
    match order {
        ByteOrder::LittleEndian => {
            let mut i: usize = n;
            while i > 0
                invariant
                    i <= n <= 8,
                    bytes@.len() == n,
                    acc == le_value(bytes@.skip(i as int)),
                decreases i,
            {
                proof {
                    lemma_le_value_bound(bytes@.skip(i - 1));
                    lemma_pow256_grows((n - i + 1) as nat, 8);
                    reveal_with_fuel(pow256, 9);
                    assert(bytes@.skip(i - 1)[0] == bytes@[i - 1]);
                    assert(bytes@.skip(i - 1).skip(1) =~= bytes@.skip(i as int));
                }
                acc = acc * 256 + bytes[i - 1] as u64;
                i = i - 1;
            }
            assert(bytes@.skip(0) =~= bytes@);
        },
        ByteOrder::BigEndian => {
            let mut i: usize = 0;
            while i < n
                invariant
                    i <= n <= 8,
                    bytes@.len() == n,
                    acc == be_value(bytes@.take(i as int)),
                decreases n - i,
            {
                proof {
                    lemma_be_value_bound(bytes@.take(i + 1));
                    lemma_pow256_grows((i + 1) as nat, 8);
                    reveal_with_fuel(pow256, 9);
                    assert(bytes@.take(i + 1).last() == bytes@[i as int]);
                    assert(bytes@.take(i + 1).drop_last() =~= bytes@.take(i as int));
                }
                acc = acc * 256 + bytes[i] as u64;
                i = i + 1;
            }
            assert(bytes@.take(n as int) =~= bytes@);
        },
    }
    Ok(acc)
}

/// The remainder of `v` on division by `m`, which is never negative.
fn euclid_rem(v: i64, m: u64) -> (r: u64)
    requires
        m > 0,
    ensures
        r == (v as int) % (m as int),
{
    if v >= 0 {
        (v as u64) % m
    } else {
        let k: u64 = (-(v + 1)) as u64;
        let low: u64 = k % m;
        proof {
            let q = -(k as int / m as int) - 1;
            lemma_fundamental_div_mod(k as int, m as int);
            assert(v as int == q * m + (m - 1 - low)) by (nonlinear_arith)
                requires
                    k as int == m * (k as int / m as int) + low,
                    q == -(k as int / m as int) - 1,
                    v as int == -(k as int) - 1,
            ;
            lemma_fundamental_div_mod_converse(v as int, m as int, q, m - 1 - low);
        }
        m - 1 - low
    }
}

/// The two's complement pattern of `v` at the given size.
pub fn twos_complement(v: i64, size: IntSize) -> (u: u64)
    ensures
        u == twos(v as int, size),
{
    match size {
        IntSize::B1 => euclid_rem(v, 0x100),
        IntSize::B2 => euclid_rem(v, 0x1_0000),
        IntSize::B4 => euclid_rem(v, 0x1_0000_0000),
        IntSize::B8 => {
            proof {
                lemma_mod_near_zero(v as int, 0x1_0000_0000_0000_0000);
            }
            if v >= 0 {
                v as u64
            } else {
                0xffff_ffff_ffff_ffff - ((-(v + 1)) as u64)
            }
        },
    }
}

/// The signed value of the two's complement pattern `u` at the given size.
/// Bits of `u` above the size are ignored.
pub fn from_twos_complement(u: u64, size: IntSize) -> (v: i64)
    ensures
        v == untwos((u as nat) % size.limit(), size),
        u < size.limit() ==> v == untwos(u as nat, size),
{
    match size {
        IntSize::B1 => {
            let low: u64 = u % 0x100;
            if low < 0x80 {
                low as i64
            } else {
                low as i64 - 0x100
            }
        },
        IntSize::B2 => {
            let low: u64 = u % 0x1_0000;
            if low < 0x8000 {
                low as i64
            } else {
                low as i64 - 0x1_0000
            }
        },
        IntSize::B4 => {
            let low: u64 = u % 0x1_0000_0000;
            if low < 0x8000_0000 {
                low as i64
            } else {
                low as i64 - 0x1_0000_0000
            }
        },
        IntSize::B8 => {
            if u < 0x8000_0000_0000_0000 {
                u as i64
            } else {
                (u - 0x8000_0000_0000_0000) as i64 - 0x4000_0000_0000_0000
                    - 0x4000_0000_0000_0000
            }
        },
    }
}

/// Appends the signed integer `v` at the given size and order, in two's
/// complement. A value outside the range of the size loses its high bytes.
pub fn write_int(out: &mut Vec<u8>, v: i64, size: IntSize, order: ByteOrder)
    ensures
        final(out)@ == old(out)@ + int_bytes(v as int, size, order),
{
    write_uint(out, twos_complement(v, size), size, order)
}

/// Reads a signed integer of the given size and order. On failure the reader
/// stays where it was.
pub fn read_int(r: &mut ByteReader, size: IntSize, order: ByteOrder) -> (res: Result<
    i64,
    CodecError,
>)
    ensures
        match parse_int(old(r).remaining(), size, order) {
            Ok((v, rest)) => res == Ok::<i64, CodecError>(v as i64) && -(size.limit() as int) <= 2
                * v < size.limit() && final(r).remaining() == rest,
            Err(e) => res == Err::<i64, CodecError>(e) && *final(r) == *old(r),
        },
{
    match read_uint(r, size, order) {
        Ok(u) => {
            proof {
                lemma_twos(0, u as nat, size);
            }
            Ok(from_twos_complement(u, size))
        },
        Err(e) => Err(e),
    }
}

/// Appends the byte of a boolean.
pub fn write_bool(out: &mut Vec<u8>, v: bool)
    ensures
        final(out)@ == old(out)@ + bool_bytes(v),
{
    proof {
        reveal(bool_bytes);
    }
    let ghost before = out@;
    out.push(if v { 1u8 } else { 0u8 });
    assert(out@ =~= before + bool_bytes(v));
}

/// Reads a boolean: any non-zero byte is true. On failure the reader stays
/// where it was.
pub fn read_bool(r: &mut ByteReader) -> (res: Result<bool, CodecError>)
    ensures
        match parse_bool(old(r).remaining(), false) {
            Ok((v, rest)) => res == Ok::<bool, CodecError>(v) && final(r).remaining() == rest,
            Err(e) => res == Err::<bool, CodecError>(e) && *final(r) == *old(r),
        },
{
    proof {
        reveal(parse_bool);
    }
    match r.peek(0) {
        Some(byte) => match r.skip(1) {
            Ok(()) => Ok(byte != 0),
            Err(e) => Err(e),
        },
        None => Err(CodecError::Truncated),
    }
}

/// Appends a blob. A blob too long for its length prefix is refused as out
/// of range, and nothing is appended.
pub fn write_blob(out: &mut Vec<u8>, data: &[u8]) -> (res: Result<(), CodecError>)
    ensures
        data@.len() <= max_prefixed_len() ==> res is Ok && final(out)@ == old(out)@ + blob_bytes(
            data@,
        ),
        data@.len() > max_prefixed_len() ==> res == Err::<(), CodecError>(CodecError::OutOfRange)
            && final(out)@ == old(out)@,
{
    proof {
        reveal(blob_bytes);
    }
    if data.len() > 0xffff_ffff {
        return Err(CodecError::OutOfRange);
    }
    write_uvar(out, data.len() as u64);
    write_bytes(out, data);
    assert(out@ =~= old(out)@ + blob_bytes(data@));
    Ok(())
}

/// Reads a blob. The length prefix counts against the bytes that remain, so
/// nothing is allocated for a length the input cannot back.
pub fn read_blob(r: &mut ByteReader) -> (res: Result<Vec<u8>, CodecError>)
    ensures
        match parse_blob(old(r).remaining(), false) {
            Ok((data, rest)) => res is Ok && res.unwrap()@ == data && data.len()
                <= max_prefixed_len() && final(r).remaining() == rest,
            Err(e) => res == Err::<Vec<u8>, CodecError>(e),
        },
{
    proof {
        reveal(parse_blob);
    }
    let n: u64 = read_uvar(r, Width::W32)?;
    if n > r.remaining_len() as u64 {
        return Err(CodecError::Truncated);
    }
    let bytes = r.take(n as usize)?;
    Ok(slice_to_vec(bytes))
}

/// `String::from_utf8` of the standard library: the string whose UTF-8 form
/// is `bytes`, or nothing if `bytes` is not valid UTF-8.
#[verifier::external_body]
fn string_from_utf8(bytes: Vec<u8>) -> (res: Option<String>)
    ensures
        res is Some <==> valid_utf8(bytes@),
        res is Some ==> encode_utf8(res.unwrap()@) == bytes@,
{
    String::from_utf8(bytes).ok()
}

/// Appends a string. A string whose UTF-8 form is too long for its length
/// prefix is refused as out of range, and nothing is appended.
pub fn write_string(out: &mut Vec<u8>, s: &str) -> (res: Result<(), CodecError>)
    ensures
        string_fits(s@) ==> res is Ok && final(out)@ == old(out)@ + string_bytes(s@),
        !string_fits(s@) ==> res == Err::<(), CodecError>(CodecError::OutOfRange) && final(out)@
            == old(out)@,
{
    proof {
        reveal(string_bytes);
    }
    write_blob(out, s.as_bytes())
}

/// Reads a string and checks that it is valid UTF-8.
pub fn read_string(r: &mut ByteReader) -> (res: Result<String, CodecError>)
    ensures
        match parse_string(old(r).remaining(), false) {
            Ok((s, rest)) => res is Ok
                && res.unwrap()@ == s
                && string_fits(s)
                && final(r).remaining() == rest,
            Err(e) => res == Err::<String, CodecError>(e),
        },
{
    proof {
        reveal(parse_string);
    }
    let data: Vec<u8> = read_blob(r)?;
    let ghost bytes = data@;
    match string_from_utf8(data) {
        Some(s) => {
            proof {
                encode_utf8_decode_utf8(s@);
            }
            Ok(s)
        },
        None => Err(CodecError::InvalidUtf8),
    }
}

} // verus!
