//! The frame: one self-delimited packet on the wire. A frame is the length
//! of what follows as an unsigned varint, then the header as an unsigned
//! varint, then the body of the packet.

use vstd::prelude::*;
use crate::error::CodecError;
use crate::gamepacket::{body_result, parse_body, PacketView};
use crate::header::{header_fields_fit, header_id, header_sender, header_target};
use crate::header::{header_value, HEADER_LIMIT};
use crate::varint::{parse_uvar, uvar_bytes, Width};
use crate::wire::max_prefixed_len;

verus! {

/// What a frame holds after its length: the header, then the body.
pub open spec fn content_of(id: u16, sender: u8, target: u8, body: Seq<u8>) -> Seq<u8> {
    uvar_bytes(header_value(id, sender, target)) + body
}

/// The frame with the given header fields and body: the length of header and
/// body, the header, the body.
pub open spec fn frame_of(id: u16, sender: u8, target: u8, body: Seq<u8>) -> Seq<u8> {
    uvar_bytes(content_of(id, sender, target, body).len()) + content_of(id, sender, target, body)
}

/// Whether a frame with the given header fields and body can be written:
/// the fields fit the header, and header and body together fit the length
/// prefix.
pub open spec fn frame_fits(id: u16, sender: u8, target: u8, body: Seq<u8>) -> bool {
    header_fields_fit(id, sender, target) && content_of(id, sender, target, body).len()
        <= max_prefixed_len()
}

/// What a frame of the packet `v` holds after its length.
pub open spec fn frame_content(v: PacketView, sender: u8, target: u8) -> Seq<u8> {
    content_of(v.id, sender, target, body_result(v).unwrap())
}

/// What writing a packet as a frame gives: the bytes of the frame, or why
/// the packet cannot be written.
///
/// A sender or target above three, or an identifier above ten bits, is out
/// of range; a packet without a shape is unimplemented; a body that does
/// not fit its length prefixes, or a frame too long for its own, is out of
/// range.
pub open spec fn encode_result(v: PacketView, sender: u8, target: u8) -> Result<
    Seq<u8>,
    CodecError,
> {
    if !header_fields_fit(v.id, sender, target) {
        Err(CodecError::OutOfRange)
    } else {
        match body_result(v) {
            Err(e) => Err(e),
            Ok(body) => if frame_fits(v.id, sender, target, body) {
                Ok(frame_of(v.id, sender, target, body))
            } else {
                Err(CodecError::OutOfRange)
            },
        }
    }
}

/// What the body of packet `id` reads as when it has to use up `body`: the
/// result of the shape of `id`, with bytes left over counted as trailing.
pub open spec fn parse_whole_body(id: u16, body: Seq<u8>, strict: bool) -> Result<
    PacketView,
    CodecError,
> {
    match parse_body(id, body, strict) {
        Err(e) => Err(e),
        Ok((v, tail)) => if tail.len() != 0 {
            Err(CodecError::TrailingBytes)
        } else {
            Ok(PacketView { id, body: v })
        },
    }
}

/// Reads what a frame holds after its length: the header, then the body of
/// the packet the header names, which has to use up the frame. A header of
/// more than fourteen bits is out of range.
pub open spec fn parse_content(content: Seq<u8>, strict: bool) -> Result<
    (PacketView, u8, u8),
    CodecError,
> {
    match parse_uvar(content, Width::W32, strict) {
        Err(e) => Err(e),
        Ok((h, after)) => if h >= HEADER_LIMIT {
            Err(CodecError::OutOfRange)
        } else {
            match parse_whole_body(header_id(h), after, strict) {
                Err(e) => Err(e),
                Ok(v) => Ok((v, header_sender(h), header_target(h))),
            }
        },
    }
}

/// Reads the first frame of `b`: the packet it holds, and the sub-client
/// sender and target of its header. Input that ends before the frame does
/// is truncated; nothing of the frame is read past its length.
pub open spec fn parse_frame(b: Seq<u8>, strict: bool) -> Result<(PacketView, u8, u8), CodecError> {
    match parse_uvar(b, Width::W32, strict) {
        Err(e) => Err(e),
        Ok((len, after)) => if after.len() < len {
            Err(CodecError::Truncated)
        } else {
            parse_content(after.take(len as int), strict)
        },
    }
}

/// The bytes of `b` after its first frame, where `b` holds a whole frame,
/// that is a length and as many bytes after it as the length says; all of
/// `b` where it does not.
pub open spec fn frame_rest(b: Seq<u8>) -> Seq<u8> {
    match parse_uvar(b, Width::W32, false) {
        Err(e) => b,
        Ok((len, after)) => if after.len() < len {
            b
        } else {
            after.skip(len as int)
        },
    }
}

} // verus!
