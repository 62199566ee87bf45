//! The toast-request packet: the server shows a toast notification.

use vstd::prelude::*;
use crate::error::CodecError;
use crate::reader::ByteReader;
use crate::varint::Parsed;
use crate::wire::{
    lemma_string_round_trip, lemma_string_strict, parse_string, read_string, string_bytes,
    string_fits, write_string,
};

verus! {

/// Shows a toast notification on the client.
#[derive(Debug, Clone, PartialEq, Eq)]
pub struct ToastRequestPacket {
    /// The heading of the toast.
    pub title: String,
    /// The body of the toast.
    pub content: String,
}

/// The content of a [`ToastRequestPacket`], as mathematical values.
pub struct ToastRequestPacketView {
    pub title: Seq<char>,
    pub content: Seq<char>,
}

impl View for ToastRequestPacket {
    type V = ToastRequestPacketView;

    open spec fn view(&self) -> ToastRequestPacketView {
        ToastRequestPacketView {
            title: self.title@,
            content: self.content@,
        }
    }
}

impl ToastRequestPacketView {
    /// Whether every length in the record fits its length prefix, so that
    /// the record can be written.
    pub open spec fn fits(self) -> bool {
        string_fits(self.title)
            && string_fits(self.content)
    }

    /// The bytes of the record: those of its fields, in order.
    pub open spec fn wire_bytes(self) -> Seq<u8> {
        string_bytes(self.title)
            + string_bytes(self.content)
    }

    /// Reads the record off the front of `b`, field by field. The first
    /// field that fails gives the error.
    #[verifier::opaque]
    pub open spec fn parse(b: Seq<u8>, strict: bool) -> Parsed<ToastRequestPacketView> {
        match parse_string(b, strict) {
            Err(e) => Err(e),
            Ok((title, b1)) => match parse_string(b1, strict) {
                Err(e) => Err(e),
                Ok((content, b2)) => Ok((ToastRequestPacketView { title, content }, b2)),
            },
        }
    }

    /// Reading the bytes of a record that fits gives the record back and
    /// leaves what followed, in strict mode too.
    pub proof fn lemma_round_trip(self, rest: Seq<u8>, strict: bool)
        requires
            self.fits(),
        ensures
            ToastRequestPacketView::parse(self.wire_bytes() + rest, strict) == Ok::<
                (ToastRequestPacketView, Seq<u8>),
                CodecError,
            >((self, rest)),
    {
        reveal(ToastRequestPacketView::parse);
        let r2 = rest;
        let r1 = string_bytes(self.content) + r2;
        let r0 = string_bytes(self.title) + r1;
        lemma_string_round_trip(self.title, r1, strict);
        lemma_string_round_trip(self.content, r2, strict);
        assert(self.wire_bytes() + rest =~= r0);
    }

    /// Whatever reads as a record in strict mode is the bytes of that record,
    /// followed by the bytes left over; the lenient reader agrees.
    pub proof fn lemma_strict(b: Seq<u8>)
        requires
            ToastRequestPacketView::parse(b, true) is Ok,
        ensures
            ToastRequestPacketView::parse(b, false) == ToastRequestPacketView::parse(b, true),
            ({
                let (v, rest) = ToastRequestPacketView::parse(b, true).unwrap();
                v.fits() && b == v.wire_bytes() + rest
            }),
    {
        reveal(ToastRequestPacketView::parse);
        let strict = true;
        lemma_string_strict(b);
        let b1 = parse_string(b, strict).unwrap().1;
        lemma_string_strict(b1);
        let b2 = parse_string(b1, strict).unwrap().1;
        assert(b =~= ToastRequestPacketView::parse(b, true).unwrap().0.wire_bytes() + b2);
    }
}

impl ToastRequestPacket {
    /// Whether every length in the record fits its length prefix.
    pub fn fits_wire(&self) -> (ok: bool)
        ensures
            ok == self@.fits(),
    {
        self.title.as_str().as_bytes().len() <= 0xffff_ffff
            && self.content.as_str().as_bytes().len() <= 0xffff_ffff
    }

    /// Appends the record to `stream`. A record that does not fit is refused
    /// as out of range, and nothing is appended.
    pub fn proto_serialize(&self, stream: &mut Vec<u8>) -> (res: Result<(), CodecError>)
        ensures
            self@.fits() ==> res is Ok && final(stream)@ == old(stream)@ + self@.wire_bytes(),
            !self@.fits() ==> res == Err::<(), CodecError>(CodecError::OutOfRange) && final(stream)@
                == old(stream)@,
    {
        if !self.fits_wire() {
            return Err(CodecError::OutOfRange);
        }
        write_string(stream, self.title.as_str())?;
        write_string(stream, self.content.as_str())?;
        assert(stream@ =~= old(stream)@ + self@.wire_bytes());
        Ok(())
    }

    /// Reads a record from `stream`, field by field. What is read fits, and
    /// so can be written again.
    pub fn proto_deserialize(stream: &mut ByteReader) -> (res: Result<
        ToastRequestPacket,
        CodecError,
    >)
        ensures
            match ToastRequestPacketView::parse(old(stream).remaining(), false) {
                Ok((v, rest)) => res is Ok
                    && res.unwrap()@ == v
                    && v.fits()
                    && final(stream).remaining() == rest,
                Err(e) => res == Err::<ToastRequestPacket, CodecError>(e),
            },
    {
        proof {
            reveal(ToastRequestPacketView::parse);
        }
        let title: String = read_string(stream)?;
        let content: String = read_string(stream)?;
        Ok(ToastRequestPacket { title, content })
    }
}

} // verus!
