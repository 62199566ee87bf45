//! What holds of frames as a whole: reading undoes writing, writing undoes
//! strict reading, a frame cut short reads as truncated, and a frame under
//! another identifier is read by that identifier alone.

use vstd::prelude::*;
use crate::error::CodecError;
use crate::frame::{content_of, encode_result, frame_fits, frame_of};
use crate::frame::{frame_rest, parse_frame, parse_whole_body};
use crate::gamepacket::{body_bytes, has_shape, is_known_id, lemma_body_round_trip};
use crate::gamepacket::{lemma_body_strict, lemma_body_without_shape, parse_body, GamePacket};
use crate::gamepacket::PacketView;
use crate::header::{header_id, header_value, lemma_header_fields};
use crate::varint::{lemma_scan_ignores_what_follows, lemma_scan_rest_is_suffix, lemma_uvar_cut};
use crate::varint::{lemma_uvar_round_trip, lemma_uvar_strict, parse_uvar};
use crate::varint::{uvar_bytes, Width};

verus! {

/// A frame that can be written reads as its header fields say: the sender
/// and target come back as they went in, the body is read by the shape of
/// the identifier and by nothing else, and the bytes after the frame are
/// left. This holds of every identifier of ten bits, assigned or not. The
/// length at the front of the frame is the exact number of bytes of header
/// and body.
pub proof fn lemma_frame_reads_by_identifier(
    id: u16,
    sender: u8,
    target: u8,
    body: Seq<u8>,
    rest: Seq<u8>,
    strict: bool,
)
    requires
        frame_fits(id, sender, target, body),
    ensures
        parse_frame(frame_of(id, sender, target, body) + rest, strict) == match parse_whole_body(
            id,
            body,
            strict,
        ) {
            Ok(v) => Ok((v, sender, target)),
            Err(e) => Err(e),
        },
        frame_rest(frame_of(id, sender, target, body) + rest) == rest,
        parse_uvar(frame_of(id, sender, target, body) + rest, Width::W32, strict) == Ok::<
            (nat, Seq<u8>),
            CodecError,
        >(
            (
                content_of(id, sender, target, body).len(),
                content_of(id, sender, target, body) + rest,
            ),
        ),
{
    let content = content_of(id, sender, target, body);
    let h = header_value(id, sender, target);
    lemma_header_fields(id, sender, target, 0);
    lemma_uvar_round_trip(content.len(), Width::W32, content + rest, strict);
    lemma_uvar_round_trip(content.len(), Width::W32, content + rest, false);
    assert(frame_of(id, sender, target, body) + rest =~= uvar_bytes(content.len()) + (content
        + rest));
    assert((content + rest).take(content.len() as int) =~= content);
    assert((content + rest).skip(content.len() as int) =~= rest);
    lemma_uvar_round_trip(h, Width::W32, body, strict);
}

/// Reading undoes writing: the frame of a packet reads as that packet with
/// the sender and target it was written with, field for field, whatever
/// follows the frame; and what follows the frame is left unread.
pub proof fn lemma_decode_inverts_encode(
    p: GamePacket,
    sender: u8,
    target: u8,
    rest: Seq<u8>,
    strict: bool,
)
    requires
        encode_result(p@, sender, target) is Ok,
    ensures
        parse_frame(encode_result(p@, sender, target).unwrap() + rest, strict) == Ok::<
            (PacketView, u8, u8),
            CodecError,
        >((p@, sender, target)),
        frame_rest(encode_result(p@, sender, target).unwrap() + rest) == rest,
{
    let body = body_bytes(p.body());
    p.lemma_id();
    lemma_frame_reads_by_identifier(p.id(), sender, target, body, rest, strict);
    lemma_body_round_trip(p.id(), p.body(), Seq::empty(), strict);
    assert(body + Seq::<u8>::empty() =~= body);
}

/// Writing undoes strict reading: input that reads as a frame when every
/// varint must have its shortest form and every boolean byte must be zero
/// or one is the frame of the packet read, followed by the bytes the reader
/// left. The lenient reader reads the same packet from it.
pub proof fn lemma_encode_inverts_strict_decode(b: Seq<u8>)
    requires
        parse_frame(b, true) is Ok,
    ensures
        parse_frame(b, false) == parse_frame(b, true),
        ({
            let (v, sender, target) = parse_frame(b, true).unwrap();
            encode_result(v, sender, target) == Ok::<Seq<u8>, CodecError>(
                b.take(b.len() - frame_rest(b).len()),
            )
        }),
        ({
            let (v, sender, target) = parse_frame(b, true).unwrap();
            b == encode_result(v, sender, target).unwrap() + frame_rest(b)
        }),
{
    lemma_uvar_strict(b, Width::W32);
    let (len, after) = parse_uvar(b, Width::W32, true).unwrap();
    let content = after.take(len as int);
    lemma_uvar_strict(content, Width::W32);
    let (h, body) = parse_uvar(content, Width::W32, true).unwrap();
    lemma_header_fields(0, 0, 0, h);
    lemma_body_strict(header_id(h), body);
    let (v, sender, target) = parse_frame(b, true).unwrap();
    let (bv, tail) = parse_body(header_id(h), body, true).unwrap();
    assert(body =~= body_bytes(bv));
    assert(content =~= content_of(v.id, sender, target, body_bytes(bv)));
    assert(after =~= content + frame_rest(b));
    let frame = frame_of(v.id, sender, target, body_bytes(bv));
    assert(b =~= frame + frame_rest(b));
    assert(b.take(b.len() - frame_rest(b).len()) =~= frame);
}

/// What follows a frame has no say in how the frame reads: input that opens
/// with a whole frame reads as that frame alone does. So no shape reads past
/// its frame, whatever lengths the body claims.
pub proof fn lemma_frame_is_self_contained(b: Seq<u8>, strict: bool)
    requires
        frame_rest(b).len() < b.len(),
    ensures
        parse_frame(b.take(b.len() - frame_rest(b).len()), strict) == parse_frame(b, strict),
{
    let fuel = Width::W32.max_len();
    let (len, after) = parse_uvar(b, Width::W32, false).unwrap();
    let n = b.len() - frame_rest(b).len();
    lemma_scan_rest_is_suffix(b, fuel, false);
    let k = b.len() - after.len();
    assert(after.skip(len as int).len() == after.len() - len);
    lemma_scan_ignores_what_follows(b, n, fuel, strict);
    lemma_scan_ignores_what_follows(b, n, fuel, false);
    if parse_uvar(b, Width::W32, strict) is Ok {
        if strict {
            lemma_uvar_strict(b, Width::W32);
        }
        let cut = b.take(n).skip(k);
        assert(cut =~= after.take(len as int));
        assert(cut.take(len as int) =~= cut);
    }
}

/// A frame cut short reads as truncated: whatever packet was written, and
/// wherever before its end the frame is cut, the reader reports truncated
/// input, never another error and never a packet.
pub proof fn lemma_cut_frame_is_truncated(
    p: GamePacket,
    sender: u8,
    target: u8,
    k: int,
    strict: bool,
)
    requires
        encode_result(p@, sender, target) is Ok,
        0 <= k < encode_result(p@, sender, target).unwrap().len(),
    ensures
        parse_frame(encode_result(p@, sender, target).unwrap().take(k), strict) == Err::<
            (PacketView, u8, u8),
            CodecError,
        >(CodecError::Truncated),
{
    let frame = encode_result(p@, sender, target).unwrap();
    let content = content_of(p.id(), sender, target, body_bytes(p.body()));
    let prefix = uvar_bytes(content.len());
    if k < prefix.len() {
        lemma_uvar_cut(content.len(), Width::W32, k, strict);
        assert(frame.take(k) =~= prefix.take(k));
    } else {
        let part = content.take(k - prefix.len());
        lemma_uvar_round_trip(content.len(), Width::W32, part, strict);
        assert(frame.take(k) =~= prefix + part);
    }
}

/// A frame under another identifier is read by that identifier alone. Take
/// the frame of a packet and put another identifier of ten bits into its
/// header, one that differs in a single bit, say, leaving the sub-client
/// fields and the body as they are. Where the other identifier has no
/// shape, the frame reads as an unknown or an unimplemented packet with
/// that identifier. Where it has a shape and the body happens to be a body
/// of that shape, the frame reads as a packet with the other identifier.
pub proof fn lemma_frame_under_other_identifier(
    p: GamePacket,
    sender: u8,
    target: u8,
    other: u16,
    strict: bool,
)
    requires
        encode_result(p@, sender, target) is Ok,
        other < 1024,
        other != p.id(),
        frame_fits(other, sender, target, body_bytes(p.body())),
        has_shape(other) ==> parse_whole_body(other, body_bytes(p.body()), strict) is Ok,
    ensures
        ({
            let r = parse_frame(frame_of(other, sender, target, body_bytes(p.body())), strict);
            if !is_known_id(other) {
                r == Err::<(PacketView, u8, u8), CodecError>(CodecError::UnknownPacketId(other))
            } else if !has_shape(other) {
                r == Err::<(PacketView, u8, u8), CodecError>(
                    CodecError::UnimplementedPacket(other),
                )
            } else {
                r is Ok && r.unwrap().0.id == other && r.unwrap().0 != p@ && r.unwrap().1 == sender
                    && r.unwrap().2 == target
            }
        }),
{
    let body = body_bytes(p.body());
    lemma_frame_reads_by_identifier(other, sender, target, body, Seq::empty(), strict);
    if !has_shape(other) {
        lemma_body_without_shape(other, body, strict);
    }
    assert(frame_of(other, sender, target, body) + Seq::<u8>::empty() =~= frame_of(
        other,
        sender,
        target,
        body,
    ));
}

/// Flipping one of the ten bits of an identifier gives another identifier
/// of ten bits.
pub proof fn lemma_bit_flip_is_other_identifier(id: u16, bit: u16)
    requires
        id < 1024,
        bit < 10,
    ensures
        id ^ (1u16 << bit) < 1024,
        id ^ (1u16 << bit) != id,
{
    assert(id < 1024 && bit < 10 ==> id ^ (1u16 << bit) < 1024 && id ^ (1u16 << bit) != id)
        by (bit_vector);
}

} // verus!
