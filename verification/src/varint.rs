//! Variable-length integers: unsigned base-128 groups, least significant
//! first, and the zig-zag mapping that carries signed values on top of them.
//!
//! A varint spends seven bits of value per byte. Every byte but the last has
//! its high bit set. The encoder always emits the shortest form; the decoder
//! accepts any form that fits the width it reads for.

use vstd::prelude::*;
use crate::error::CodecError;
use crate::reader::ByteReader;

verus! {

/// What a spec-level parser yields: the value and the bytes that follow it.
pub type Parsed<T> = Result<(T, Seq<u8>), CodecError>;

/// The integer widths a varint can be read for.
#[derive(Debug, Clone, Copy, PartialEq, Eq, Structural)]
pub enum Width {
    W16,
    W32,
    W64,
}

impl Width {
    /// Number of values of this width: two to the power of its bit count.
    pub open spec fn limit(self) -> nat {
        match self {
            Width::W16 => 0x1_0000,
            Width::W32 => 0x1_0000_0000,
            Width::W64 => 0x1_0000_0000_0000_0000,
        }
    }

    /// Longest encoding of a value of this width, in bytes: the bit count
    /// divided by seven, rounded up.
    pub open spec fn max_len(self) -> nat {
        match self {
            Width::W16 => 3,
            Width::W32 => 5,
            Width::W64 => 10,
        }
    }
}

/// The shortest encoding of `v`.
pub open spec fn uvar_bytes(v: nat) -> Seq<u8>
    decreases v,
{
    if v < 128 {
        seq![v as u8]
    } else {
        seq![(v % 128 + 128) as u8] + uvar_bytes(v / 128)
    }
}

/// Reads one varint off the front of `b`, looking at no more than `fuel`
/// bytes. With `strict`, an encoding longer than the shortest one for its
/// value is refused as overlong.
pub open spec fn uvar_scan(b: Seq<u8>, fuel: nat, strict: bool) -> Parsed<nat>
    decreases fuel,
{
    if fuel == 0 {
        Err(CodecError::OverlongVarint)
    } else if b.len() == 0 {
        Err(CodecError::Truncated)
    } else if b[0] < 128 {
        Ok((b[0] as nat, b.skip(1)))
    } else {
        match uvar_scan(b.skip(1), (fuel - 1) as nat, strict) {
            Ok((high, rest)) => if strict && high == 0 {
                Err(CodecError::OverlongVarint)
            } else {
                Ok(((b[0] - 128 + 128 * high) as nat, rest))
            },
            Err(e) => Err(e),
        }
    }
}

/// Reads an unsigned varint of width `w` off the front of `b`.
pub open spec fn parse_uvar(b: Seq<u8>, w: Width, strict: bool) -> Parsed<nat> {
    match uvar_scan(b, w.max_len(), strict) {
        Ok((v, rest)) => if v < w.limit() {
            Ok((v, rest))
        } else {
            Err(CodecError::VarintOverflow)
        },
        Err(e) => Err(e),
    }
}

/// The zig-zag image of `n`: non-negative values go to the even numbers,
/// negative ones to the odd numbers, small magnitudes first.
pub open spec fn zigzag(n: int) -> nat {
    if n >= 0 {
        (2 * n) as nat
    } else {
        (-2 * n - 1) as nat
    }
}

/// The inverse of [`zigzag`].
pub open spec fn unzigzag(u: nat) -> int {
    if u % 2 == 0 {
        u as int / 2
    } else {
        -(u as int / 2) - 1
    }
}

/// The shortest encoding of the signed value `n`.
pub open spec fn ivar_bytes(n: int) -> Seq<u8> {
    uvar_bytes(zigzag(n))
}

/// Reads a signed varint of width `w` off the front of `b`.
pub open spec fn parse_ivar(b: Seq<u8>, w: Width, strict: bool) -> Parsed<int> {
    match parse_uvar(b, w, strict) {
        Ok((u, rest)) => Ok((unzigzag(u), rest)),
        Err(e) => Err(e),
    }
}

/// 128 to the power of `n`.
pub open spec fn pow128(n: nat) -> nat
    decreases n,
{
    if n == 0 {
        1
    } else {
        128 * pow128((n - 1) as nat)
    }
}

/// A value below 128^k has an encoding of at most `k` bytes.
pub proof fn lemma_uvar_len_bound(v: nat, k: nat)
    requires
        k >= 1,
        v < pow128(k),
    ensures
        1 <= uvar_bytes(v).len() <= k,
    decreases v,
{
    if v >= 128 {
        assert(pow128(1) == 128) by {
            reveal_with_fuel(pow128, 2);
        }
        assert(k >= 2);
        lemma_uvar_len_bound(v / 128, (k - 1) as nat);
    }
}

/// Every value of a width has an encoding no longer than the width allows.
pub proof fn lemma_uvar_len(v: nat, w: Width)
    requires
        v < w.limit(),
    ensures
        1 <= uvar_bytes(v).len() <= w.max_len(),
{
    reveal_with_fuel(pow128, 11);
    lemma_uvar_len_bound(v, w.max_len());
}

/// Scanning the shortest encoding of `v` gives `v` back and leaves what
/// followed it, in strict mode too.
pub proof fn lemma_scan_bytes(v: nat, rest: Seq<u8>, fuel: nat, strict: bool)
    requires
        uvar_bytes(v).len() <= fuel,
    ensures
        uvar_scan(uvar_bytes(v) + rest, fuel, strict) == Ok::<(nat, Seq<u8>), CodecError>(
            (v, rest),
        ),
    decreases v,
{
    let b = uvar_bytes(v) + rest;
    if v < 128 {
        assert(b[0] == v as u8);
        assert(b.skip(1) =~= rest);
    } else {
        let tail = uvar_bytes(v / 128);
        assert(b[0] == (v % 128 + 128) as u8);
        assert(b.skip(1) =~= tail + rest);
        lemma_scan_bytes(v / 128, rest, (fuel - 1) as nat, strict);
    }
}

/// Whatever a strict scan accepts is the shortest encoding of its value,
/// followed by the bytes it left.
pub proof fn lemma_strict_scan_is_bytes(b: Seq<u8>, fuel: nat)
    requires
        uvar_scan(b, fuel, true) is Ok,
    ensures
        b == uvar_bytes(uvar_scan(b, fuel, true).unwrap().0) + uvar_scan(
            b,
            fuel,
            true,
        ).unwrap().1,
    decreases fuel,
{
    let (v, rest) = uvar_scan(b, fuel, true).unwrap();
    if b[0] < 128 {
        assert(b =~= uvar_bytes(v) + rest);
    } else {
        lemma_strict_scan_is_bytes(b.skip(1), (fuel - 1) as nat);
        let (high, rest1) = uvar_scan(b.skip(1), (fuel - 1) as nat, true).unwrap();
        assert(v == (b[0] - 128 + 128 * high) as nat);
        assert(v / 128 == high && v % 128 == b[0] - 128);
        assert(b =~= seq![b[0]] + b.skip(1));
        assert(b =~= uvar_bytes(v) + rest);
    }
}

/// The lenient scan accepts whatever the strict one does, with the same
/// result.
pub proof fn lemma_strict_scan_is_lenient(b: Seq<u8>, fuel: nat)
    requires
        uvar_scan(b, fuel, true) is Ok,
    ensures
        uvar_scan(b, fuel, false) == uvar_scan(b, fuel, true),
    decreases fuel,
{
    if b[0] >= 128 {
        lemma_strict_scan_is_lenient(b.skip(1), (fuel - 1) as nat);
    }
}

/// A run of `fuel` bytes that all ask for another byte is overlong.
pub proof fn lemma_scan_overlong(b: Seq<u8>, fuel: nat, strict: bool)
    requires
        fuel <= b.len(),
        forall|k: int| 0 <= k < fuel ==> b[k] >= 128,
    ensures
        uvar_scan(b, fuel, strict) == Err::<(nat, Seq<u8>), CodecError>(
            CodecError::OverlongVarint,
        ),
    decreases fuel,
{
    if fuel > 0 {
        assert forall|k: int| 0 <= k < fuel - 1 implies b.skip(1)[k] >= 128 by {
            assert(b.skip(1)[k] == b[k + 1]);
        }
        lemma_scan_overlong(b.skip(1), (fuel - 1) as nat, strict);
    }
}

/// Input that ends while every byte so far asked for another is truncated.
pub proof fn lemma_scan_truncated(b: Seq<u8>, fuel: nat, strict: bool)
    requires
        b.len() < fuel,
        forall|k: int| 0 <= k < b.len() ==> b[k] >= 128,
    ensures
        uvar_scan(b, fuel, strict) == Err::<(nat, Seq<u8>), CodecError>(CodecError::Truncated),
    decreases fuel,
{
    if b.len() > 0 {
        assert forall|k: int| 0 <= k < b.len() - 1 implies b.skip(1)[k] >= 128 by {
            assert(b.skip(1)[k] == b[k + 1]);
        }
        lemma_scan_truncated(b.skip(1), (fuel - 1) as nat, strict);
    }
}

/// In the shortest encoding of a value every byte but the last asks for
/// another byte.
pub proof fn lemma_uvar_bytes_shape(v: nat)
    ensures
        forall|k: int| 0 <= k < uvar_bytes(v).len() - 1 ==> #[trigger] uvar_bytes(v)[k] >= 128,
        uvar_bytes(v).last() < 128,
        uvar_bytes(v).len() >= 1,
    decreases v,
{
    if v >= 128 {
        lemma_uvar_bytes_shape(v / 128);
        let tail = uvar_bytes(v / 128);
        let b = uvar_bytes(v);
        assert forall|k: int| 0 <= k < b.len() - 1 implies #[trigger] b[k] >= 128 by {
            if k > 0 {
                assert(b[k] == tail[k - 1]);
            }
        }
        assert(b.last() == tail.last());
    }
}

/// Cutting the encoding of a value short of its end leaves a truncated
/// varint, never a shorter valid one.
pub proof fn lemma_scan_cut(v: nat, k: int, fuel: nat, strict: bool)
    requires
        0 <= k < uvar_bytes(v).len() <= fuel,
    ensures
        uvar_scan(uvar_bytes(v).take(k), fuel, strict) == Err::<(nat, Seq<u8>), CodecError>(
            CodecError::Truncated,
        ),
{
    lemma_uvar_bytes_shape(v);
    lemma_scan_truncated(uvar_bytes(v).take(k), fuel, strict);
}

/// Zig-zag and its inverse undo each other, and zig-zag carries the signed
/// range of each width onto the unsigned one.
pub proof fn lemma_zigzag(n: int, u: nat)
    ensures
        unzigzag(zigzag(n)) == n,
        zigzag(unzigzag(u)) == u,
        -0x8000 <= n < 0x8000 <==> zigzag(n) < Width::W16.limit(),
        -0x8000_0000 <= n < 0x8000_0000 <==> zigzag(n) < Width::W32.limit(),
        -0x8000_0000_0000_0000 <= n < 0x8000_0000_0000_0000 <==> zigzag(n) < Width::W64.limit(),
{
}

/// What a scan leaves is its input without the bytes of the varint, of
/// which there is at least one.
pub proof fn lemma_scan_rest_is_suffix(b: Seq<u8>, fuel: nat, strict: bool)
    requires
        uvar_scan(b, fuel, strict) is Ok,
    ensures
        uvar_scan(b, fuel, strict).unwrap().1.len() < b.len(),
        uvar_scan(b, fuel, strict).unwrap().1 == b.skip(
            b.len() - uvar_scan(b, fuel, strict).unwrap().1.len(),
        ),
    decreases fuel,
{
    if b[0] >= 128 {
        lemma_scan_rest_is_suffix(b.skip(1), (fuel - 1) as nat, strict);
        let rest = uvar_scan(b.skip(1), (fuel - 1) as nat, strict).unwrap().1;
        assert(b.skip(1).skip(b.len() - 1 - rest.len()) =~= b.skip(b.len() - rest.len()));
    }
}

/// A scan looks at no byte behind the varint it reads: input cut anywhere
/// behind the varint scans as the whole input does.
pub proof fn lemma_scan_ignores_what_follows(b: Seq<u8>, m: int, fuel: nat, strict: bool)
    requires
        uvar_scan(b, fuel, false) is Ok,
        b.len() - uvar_scan(b, fuel, false).unwrap().1.len() <= m <= b.len(),
    ensures
        uvar_scan(b.take(m), fuel, strict) == match uvar_scan(b, fuel, strict) {
            Ok((v, rest)) => Ok::<(nat, Seq<u8>), CodecError>(
                (v, b.take(m).skip(b.len() - uvar_scan(b, fuel, false).unwrap().1.len())),
            ),
            Err(e) => Err(e),
        },
    decreases fuel,
{
    let k = b.len() - uvar_scan(b, fuel, false).unwrap().1.len();
    lemma_scan_rest_is_suffix(b, fuel, false);
    if b[0] < 128 {
        assert(b.take(m)[0] == b[0]);
    } else {
        let tail = b.skip(1);
        lemma_scan_rest_is_suffix(tail, (fuel - 1) as nat, false);
        lemma_scan_ignores_what_follows(tail, m - 1, (fuel - 1) as nat, strict);
        assert(b.take(m)[0] == b[0]);
        assert(b.take(m).skip(1) =~= tail.take(m - 1));
        assert(tail.take(m - 1).skip(k - 1) =~= b.take(m).skip(k));
    }
}

/// The zig-zag image of a 16-bit value is its bit formula.
proof fn lemma_zigzag_bits_16(n: i16)
    ensures
        zigzag(n as int) == ((n << 1) ^ (n >> 15)) as u16,
{
    let x: u16 = n as u16;
    if n >= 0 {
        assert(n >= 0 ==> ((n << 1) ^ (n >> 15)) as u16 == (n as u16) << 1) by (bit_vector);
        assert(x == n);
        assert(x < 0x8000u16 ==> x << 1 == 2 * x) by (bit_vector);
    } else {
        assert(n < 0 ==> ((n << 1) ^ (n >> 15)) as u16 == !((n as u16) << 1))
            by (bit_vector);
        assert(n < 0 ==> n as u16 >= 0x8000u16) by (bit_vector);
        assert(n < 0 ==> (0xffffu16 - (n as u16)) as i16 == -1i16 - n) by (bit_vector);
        assert(x >= 0x8000u16 ==> !(x << 1) == 2 * (0xffffu16 - x) + 1) by (bit_vector);
    }
}

/// The zig-zag image of a 32-bit value is its bit formula.
proof fn lemma_zigzag_bits_32(n: i32)
    ensures
        zigzag(n as int) == ((n << 1) ^ (n >> 31)) as u32,
{
    let x: u32 = n as u32;
    if n >= 0 {
        assert(n >= 0 ==> ((n << 1) ^ (n >> 31)) as u32 == (n as u32) << 1) by (bit_vector);
        assert(x == n);
        assert(x < 0x8000_0000u32 ==> x << 1 == 2 * x) by (bit_vector);
    } else {
        assert(n < 0 ==> ((n << 1) ^ (n >> 31)) as u32 == !((n as u32) << 1))
            by (bit_vector);
        assert(n < 0 ==> n as u32 >= 0x8000_0000u32) by (bit_vector);
        assert(n < 0 ==> (0xffff_ffffu32 - (n as u32)) as i32 == -1i32 - n) by (bit_vector);
        assert(x >= 0x8000_0000u32 ==> !(x << 1) == 2 * (0xffff_ffffu32 - x) + 1) by (bit_vector);
    }
}

/// The zig-zag image of a 64-bit value is its bit formula.
proof fn lemma_zigzag_bits_64(n: i64)
    ensures
        zigzag(n as int) == ((n << 1) ^ (n >> 63)) as u64,
{
    let x: u64 = n as u64;
    if n >= 0 {
        assert(n >= 0 ==> ((n << 1) ^ (n >> 63)) as u64 == (n as u64) << 1) by (bit_vector);
        assert(x == n);
        assert(x < 0x8000_0000_0000_0000u64 ==> x << 1 == 2 * x) by (bit_vector);
    } else {
        assert(n < 0 ==> ((n << 1) ^ (n >> 63)) as u64 == !((n as u64) << 1))
            by (bit_vector);
        assert(n < 0 ==> n as u64 >= 0x8000_0000_0000_0000u64) by (bit_vector);
        assert(n < 0 ==> (0xffff_ffff_ffff_ffffu64 - (n as u64)) as i64 == -1i64 - n)
            by (bit_vector);
        assert(x >= 0x8000_0000_0000_0000u64 ==> !(x << 1) == 2 * (0xffff_ffff_ffff_ffffu64 - x)
            + 1) by (bit_vector);
    }
}

/// The zig-zag image is the bit formula `(n << 1) ^ (n >> (W - 1))` with an
/// arithmetic right shift, read as an unsigned number of `W` bits, at each
/// of the three widths.
pub proof fn lemma_zigzag_is_bit_formula(n16: i16, n32: i32, n64: i64)
    ensures
        zigzag(n16 as int) == ((n16 << 1) ^ (n16 >> 15)) as u16,
        zigzag(n32 as int) == ((n32 << 1) ^ (n32 >> 31)) as u32,
        zigzag(n64 as int) == ((n64 << 1) ^ (n64 >> 63)) as u64,
{
    lemma_zigzag_bits_16(n16);
    lemma_zigzag_bits_32(n32);
    lemma_zigzag_bits_64(n64);
}

/// Reading the shortest encoding of an unsigned value of width `w` gives the
/// value back and leaves what followed it, in strict mode too.
pub proof fn lemma_uvar_round_trip(v: nat, w: Width, rest: Seq<u8>, strict: bool)
    requires
        v < w.limit(),
    ensures
        parse_uvar(uvar_bytes(v) + rest, w, strict) == Ok::<(nat, Seq<u8>), CodecError>((v, rest)),
{
    lemma_uvar_len(v, w);
    lemma_scan_bytes(v, rest, w.max_len(), strict);
}

/// Whatever the strict reader accepts is the shortest encoding of a value of
/// width `w`, followed by the bytes left over; the lenient reader agrees.
pub proof fn lemma_uvar_strict(b: Seq<u8>, w: Width)
    requires
        parse_uvar(b, w, true) is Ok,
    ensures
        parse_uvar(b, w, false) == parse_uvar(b, w, true),
        parse_uvar(b, w, true).unwrap().0 < w.limit(),
        b == uvar_bytes(parse_uvar(b, w, true).unwrap().0) + parse_uvar(b, w, true).unwrap().1,
{
    lemma_strict_scan_is_lenient(b, w.max_len());
    lemma_strict_scan_is_bytes(b, w.max_len());
}

/// Reading the shortest encoding of a signed value of width `w` gives the
/// value back and leaves what followed it, in strict mode too.
pub proof fn lemma_ivar_round_trip(n: int, w: Width, rest: Seq<u8>, strict: bool)
    requires
        zigzag(n) < w.limit(),
    ensures
        parse_ivar(ivar_bytes(n) + rest, w, strict) == Ok::<(int, Seq<u8>), CodecError>((n, rest)),
{
    lemma_uvar_round_trip(zigzag(n), w, rest, strict);
    lemma_zigzag(n, 0);
}

/// Whatever the strict reader accepts is the shortest encoding of a signed
/// value of width `w`, followed by the bytes left over; the lenient reader
/// agrees.
pub proof fn lemma_ivar_strict(b: Seq<u8>, w: Width)
    requires
        parse_ivar(b, w, true) is Ok,
    ensures
        parse_ivar(b, w, false) == parse_ivar(b, w, true),
        zigzag(parse_ivar(b, w, true).unwrap().0) < w.limit(),
        b == ivar_bytes(parse_ivar(b, w, true).unwrap().0) + parse_ivar(b, w, true).unwrap().1,
{
    lemma_uvar_strict(b, w);
    lemma_zigzag(0, parse_uvar(b, w, true).unwrap().0);
}

/// An unsigned varint of width `w` cut short of its end reads as truncated,
/// whatever the value.
pub proof fn lemma_uvar_cut(v: nat, w: Width, k: int, strict: bool)
    requires
        v < w.limit(),
        0 <= k < uvar_bytes(v).len(),
    ensures
        parse_uvar(uvar_bytes(v).take(k), w, strict) == Err::<(nat, Seq<u8>), CodecError>(
            CodecError::Truncated,
        ),
{
    lemma_uvar_len(v, w);
    lemma_scan_cut(v, k, w.max_len(), strict);
}

/// Input that opens with as many bytes as the width allows, each asking for
/// one more, reads as overlong.
pub proof fn lemma_uvar_overlong(b: Seq<u8>, w: Width, strict: bool)
    requires
        b.len() >= w.max_len(),
        forall|k: int| 0 <= k < w.max_len() ==> b[k] >= 128,
    ensures
        parse_uvar(b, w, strict) == Err::<(nat, Seq<u8>), CodecError>(CodecError::OverlongVarint),
{
    lemma_scan_overlong(b, w.max_len(), strict);
}

/// Powers of 128 grow with the exponent.
proof fn lemma_pow128_grows(a: nat, b: nat)
    requires
        a <= b,
    ensures
        pow128(a) <= pow128(b),
    decreases b,
{
    if a < b {
        lemma_pow128_grows(a, (b - 1) as nat);
    }
}

impl Width {
    /// Longest encoding of a value of this width, in bytes.
    pub fn max_encoded_len(self) -> (n: usize)
        ensures
            n == self.max_len(),
    {
        match self {
            Width::W16 => 3,
            Width::W32 => 5,
            Width::W64 => 10,
        }
    }

    /// Largest value of this width.
    pub fn max_value(self) -> (m: u64)
        ensures
            m == self.limit() - 1,
    {
        match self {
            Width::W16 => 0xffff,
            Width::W32 => 0xffff_ffff,
            Width::W64 => 0xffff_ffff_ffff_ffff,
        }
    }
}

/// Appends the shortest encoding of `v` to `out`.
pub fn write_uvar(out: &mut Vec<u8>, v: u64)
    ensures
        final(out)@ == old(out)@ + uvar_bytes(v as nat),
{
    let mut x: u64 = v;
    while x >= 128
        invariant
            out@ + uvar_bytes(x as nat) == old(out)@ + uvar_bytes(v as nat),
        decreases x,
    {
        let ghost before = out@;
        let digit: u8 = (x % 128 + 128) as u8;
        out.push(digit);
        assert(out@ + uvar_bytes((x / 128) as nat) =~= before + uvar_bytes(x as nat));
        x = x / 128;
    }
    let ghost before = out@;
    out.push(x as u8);
    assert(out@ =~= before + uvar_bytes(x as nat));
}

/// Appends the shortest encoding of the signed value `n` to `out`.
pub fn write_ivar(out: &mut Vec<u8>, n: i64)
    ensures
        final(out)@ == old(out)@ + ivar_bytes(n as int),
{
    let u: u64 = if n >= 0 {
        (n as u64) * 2
    } else {
        ((-(n + 1)) as u64) * 2 + 1
    };
    write_uvar(out, u);
}

/// Reads an unsigned varint of width `w`. On failure the reader stays where
/// it was.
pub fn read_uvar(r: &mut ByteReader, w: Width) -> (res: Result<u64, CodecError>)
    ensures
        match parse_uvar(old(r).remaining(), w, false) {
            Ok((v, rest)) => res == Ok::<u64, CodecError>(v as u64)
                && v < w.limit()
                && final(r).remaining() == rest,
            Err(e) => res == Err::<u64, CodecError>(e) && *final(r) == *old(r),
        },
        final(r).consumed() + final(r).remaining().len()
            == old(r).consumed() + old(r).remaining().len(),
{
    let max: usize = w.max_encoded_len();
    let ghost b = r.remaining();
    // The last byte of the varint is the first one with a clear high bit.
    let mut last: usize = 0;
    let mut low: u8 = 0;
    loop
        invariant
            last <= max <= 10,
            last <= b.len(),
            forall|k: int| 0 <= k < last ==> b[k] >= 128,
            r.remaining() == b,
            *r == *old(r),
            max == w.max_len(),
        ensures
            last < max,
            last < b.len() && low == b[last as int] && low < 128,
        decreases max - last,
    {
        if last == max {
            proof {
                lemma_scan_overlong(b, max as nat, false);
            }
            return Err(CodecError::OverlongVarint);
        }
        match r.peek(last) {
            None => {
                proof {
                    lemma_scan_truncated(b, max as nat, false);
                }
                return Err(CodecError::Truncated);
            },
            Some(byte) => {
                if byte < 128 {
                    low = byte;
                    break ;
                }
                last = last + 1;
            },
        }
    }
    // Fold the groups together from the most significant one down.
    let mut acc: u128 = low as u128;
    let mut j: usize = last;
    proof {
        reveal_with_fuel(pow128, 2);
        assert(b.skip(last as int)[0] == b[last as int]);
        assert(b.skip(last as int).skip(1) =~= b.skip(last + 1));
    }
    while j > 0
        invariant
            j <= last < max <= 10,
            last < b.len(),
            forall|k: int| 0 <= k < last ==> b[k] >= 128,
            r.remaining() == b,
            *r == *old(r),
            acc < pow128((last - j + 1) as nat),
            uvar_scan(b.skip(j as int), (max - j) as nat, false) == Ok::<
                (nat, Seq<u8>),
                CodecError,
            >((acc as nat, b.skip(last + 1))),
        decreases j,
    {
        // The first pass saw this byte, so it is there.
        let byte: u8 = match r.peek(j - 1) {
            Some(byte) => byte,
            None => 128,
        };
        proof {
            lemma_pow128_grows((last - j + 2) as nat, 10);
            reveal_with_fuel(pow128, 11);
            assert(b.skip(j - 1).skip(1) =~= b.skip(j as int));
            assert(b.skip(j - 1)[0] == b[j - 1]);
        }
        acc = acc * 128 + (byte - 128) as u128;
        j = j - 1;
    }
    assert(b.skip(0) =~= b);
    if acc > w.max_value() as u128 {
        return Err(CodecError::VarintOverflow);
    }
    match r.skip(last + 1) {
        Ok(()) => Ok(acc as u64),
        Err(e) => Err(e),
    }
}

/// Reads a signed varint of width `w`. On failure the reader stays where it
/// was.
pub fn read_ivar(r: &mut ByteReader, w: Width) -> (res: Result<i64, CodecError>)
    ensures
        match parse_ivar(old(r).remaining(), w, false) {
            Ok((n, rest)) => res == Ok::<i64, CodecError>(n as i64) && zigzag(n) < w.limit()
                && final(r).remaining() == rest,
            Err(e) => res == Err::<i64, CodecError>(e) && *final(r) == *old(r),
        },
{
    match read_uvar(r, w) {
        Ok(u) => {
            proof {
                lemma_zigzag(0, u as nat);
            }
            let half: i64 = (u / 2) as i64;
            if u % 2 == 0 {
                Ok(half)
            } else {
                Ok(-half - 1)
            }
        },
        Err(e) => Err(e),
    }
}

} // verus!
