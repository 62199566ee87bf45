//! The disconnect packet: the server ends the session, with or without a
//! message for the disconnect screen.

use vstd::prelude::*;
use crate::error::CodecError;
use crate::reader::ByteReader;
use crate::varint::Parsed;
use crate::wire::{bool_bytes, lemma_bool_round_trip, lemma_bool_strict, parse_bool};
use crate::wire::{lemma_string_round_trip, lemma_string_strict, parse_string, read_bool};
use crate::wire::{read_string, string_bytes, string_fits, write_bool};
use crate::wire::write_string;

verus! {

/// Ends the session. On the wire a boolean comes first that says whether the
/// disconnect screen is hidden; the message follows only when it is not.
#[derive(Debug, Clone, PartialEq, Eq)]
pub struct DisconnectPacket {
    /// The text for the disconnect screen, or nothing to hide the screen.
    pub message: Option<String>,
}

/// The content of a [`DisconnectPacket`], as mathematical values.
pub struct DisconnectPacketView {
    pub message: Option<Seq<char>>,
}

impl View for DisconnectPacket {
    type V = DisconnectPacketView;

    open spec fn view(&self) -> DisconnectPacketView {
        DisconnectPacketView {
            message: match self.message {
                Some(text) => Some(text@),
                None => None,
            },
        }
    }
}

impl DisconnectPacketView {
    /// Whether the disconnect screen is hidden: so it is when there is no
    /// message.
    pub open spec fn hide_screen(self) -> bool {
        self.message is None
    }

    /// Whether the message, if any, fits its length prefix, so that the
    /// record can be written.
    pub open spec fn fits(self) -> bool {
        match self.message {
            Some(text) => string_fits(text),
            None => true,
        }
    }

    /// The bytes of the record: the hide-screen flag, then the message if
    /// the flag is clear.
    pub open spec fn wire_bytes(self) -> Seq<u8> {
        match self.message {
            Some(text) => bool_bytes(false) + string_bytes(text),
            None => bool_bytes(true),
        }
    }

    /// Reads the record off the front of `b`: the flag, then the message if
    /// the flag is clear.
    #[verifier::opaque]
    pub open spec fn parse(b: Seq<u8>, strict: bool) -> Parsed<DisconnectPacketView> {
        match parse_bool(b, strict) {
            Err(e) => Err(e),
            Ok((hide, b1)) => if hide {
                Ok((DisconnectPacketView { message: None }, b1))
            } else {
                match parse_string(b1, strict) {
                    Err(e) => Err(e),
                    Ok((text, b2)) => Ok((DisconnectPacketView { message: Some(text) }, b2)),
                }
            },
        }
    }

    /// Reading the bytes of a record that fits gives the record back and
    /// leaves what followed, in strict mode too.
    pub proof fn lemma_round_trip(self, rest: Seq<u8>, strict: bool)
        requires
            self.fits(),
        ensures
            DisconnectPacketView::parse(self.wire_bytes() + rest, strict) == Ok::<
                (DisconnectPacketView, Seq<u8>),
                CodecError,
            >((self, rest)),
    {
        reveal(DisconnectPacketView::parse);
        match self.message {
            Some(text) => {
                let r1 = string_bytes(text) + rest;
                lemma_bool_round_trip(false, r1, strict);
                lemma_string_round_trip(text, rest, strict);
                assert(self.wire_bytes() + rest =~= bool_bytes(false) + r1);
            },
            None => {
                lemma_bool_round_trip(true, rest, strict);
            },
        }
    }

    /// Whatever reads as a record in strict mode is the bytes of that record,
    /// followed by the bytes left over; the lenient reader agrees.
    pub proof fn lemma_strict(b: Seq<u8>)
        requires
            DisconnectPacketView::parse(b, true) is Ok,
        ensures
            DisconnectPacketView::parse(b, false) == DisconnectPacketView::parse(b, true),
            DisconnectPacketView::parse(b, true).unwrap().0.fits(),
            b == DisconnectPacketView::parse(b, true).unwrap().0.wire_bytes()
                + DisconnectPacketView::parse(b, true).unwrap().1,
    {
        reveal(DisconnectPacketView::parse);
        lemma_bool_strict(b);
        let (hide, b1) = parse_bool(b, true).unwrap();
        if !hide {
            lemma_string_strict(b1);
            let (text, b2) = parse_string(b1, true).unwrap();
            assert(b =~= bool_bytes(false) + string_bytes(text) + b2);
        }
    }
}

impl DisconnectPacket {
    /// Whether the disconnect screen is hidden.
    pub fn hide_screen(&self) -> (hide: bool)
        ensures
            hide == self@.hide_screen(),
    {
        self.message.is_none()
    }

    /// Whether the message, if any, fits its length prefix.
    pub fn fits_wire(&self) -> (ok: bool)
        ensures
            ok == self@.fits(),
    {
        match &self.message {
            Some(text) => text.as_str().as_bytes().len() <= 0xffff_ffff,
            None => true,
        }
    }

    /// Appends the record to `stream`. A record that does not fit is refused
    /// as out of range, and nothing is appended.
    pub fn proto_serialize(&self, stream: &mut Vec<u8>) -> (res: Result<(), CodecError>)
        ensures
            self@.fits() ==> res is Ok && final(stream)@ == old(stream)@ + self@.wire_bytes(),
            !self@.fits() ==> res == Err::<(), CodecError>(CodecError::OutOfRange) && final(stream)@
                == old(stream)@,
    {
        if !self.fits_wire() {
            return Err(CodecError::OutOfRange);
        }
        match &self.message {
            Some(text) => {
                write_bool(stream, false);
                write_string(stream, text.as_str())?;
            },
            None => {
                write_bool(stream, true);
            },
        }
        assert(stream@ =~= old(stream)@ + self@.wire_bytes());
        Ok(())
    }

    /// Reads a record from `stream`. What is read can be written again.
    pub fn proto_deserialize(stream: &mut ByteReader) -> (res: Result<DisconnectPacket, CodecError>)
        ensures
            match DisconnectPacketView::parse(old(stream).remaining(), false) {
                Ok((v, rest)) => res is Ok
                    && res.unwrap()@ == v
                    && v.fits()
                    && final(stream).remaining() == rest,
                Err(e) => res == Err::<DisconnectPacket, CodecError>(e),
            },
    {
        proof {
            reveal(DisconnectPacketView::parse);
        }
        let hide: bool = read_bool(stream)?;
        if hide {
            Ok(DisconnectPacket { message: None })
        } else {
            let text: String = read_string(stream)?;
            Ok(DisconnectPacket { message: Some(text) })
        }
    }
}

} // verus!
