//! The modal-form-response packet: the client answers a form, or says why
//! it did not.

use vstd::prelude::*;
use crate::error::CodecError;
use crate::reader::ByteReader;
use crate::varint::{lemma_uvar_round_trip, lemma_uvar_strict, parse_uvar, read_uvar};
use crate::varint::{uvar_bytes, write_uvar, Parsed, Width};
use crate::wire::{bool_bytes, lemma_bool_round_trip, lemma_bool_strict, parse_bool};
use crate::wire::{lemma_string_round_trip, lemma_string_strict, parse_string, read_bool};
use crate::wire::{lemma_uint_parse_is_bytes, lemma_uint_round_trip, parse_uint, uint_bytes};
use crate::wire::{read_string, string_bytes, string_fits, write_bool};
use crate::wire::{read_uint, write_string, write_uint, ByteOrder};
use crate::wire::IntSize;

verus! {

/// Why a form went unanswered. On the wire a reason is one byte, counted
/// from zero in the order below.
#[derive(Debug, Clone, Copy, PartialEq, Eq)]
pub enum ModalFormCancelReason {
    /// The player closed the form.
    UserClosed,
    /// The player was busy and never saw the form.
    UserBusy,
}

impl ModalFormCancelReason {
    /// The byte that stands for the reason on the wire.
    pub open spec fn code(self) -> u8 {
        match self {
            ModalFormCancelReason::UserClosed => 0,
            ModalFormCancelReason::UserBusy => 1,
        }
    }

    /// The reason that `code` stands for, if any.
    pub open spec fn of_code(code: u8) -> Option<ModalFormCancelReason> {
        if code == 0 {
            Some(ModalFormCancelReason::UserClosed)
        } else if code == 1 {
            Some(ModalFormCancelReason::UserBusy)
        } else {
            None
        }
    }

    /// The byte that stands for the reason on the wire.
    pub fn to_code(self) -> (code: u8)
        ensures
            code == self.code(),
    {
        match self {
            ModalFormCancelReason::UserClosed => 0,
            ModalFormCancelReason::UserBusy => 1,
        }
    }

    /// The reason that `code` stands for, if any.
    pub fn from_code(code: u8) -> (reason: Option<ModalFormCancelReason>)
        ensures
            reason == ModalFormCancelReason::of_code(code),
    {
        match code {
            0 => Some(ModalFormCancelReason::UserClosed),
            1 => Some(ModalFormCancelReason::UserBusy),
            _ => None,
        }
    }
}

/// The bytes of an optional string: a boolean that says whether the string
/// is there, then the string if it is.
pub open spec fn optional_string_bytes(v: Option<Seq<char>>) -> Seq<u8> {
    match v {
        Some(text) => bool_bytes(true) + string_bytes(text),
        None => bool_bytes(false),
    }
}

/// Reads an optional string off the front of `b`.
pub open spec fn parse_optional_string(b: Seq<u8>, strict: bool) -> Parsed<Option<Seq<char>>> {
    match parse_bool(b, strict) {
        Err(e) => Err(e),
        Ok((present, b1)) => if present {
            match parse_string(b1, strict) {
                Err(e) => Err(e),
                Ok((text, b2)) => Ok((Some(text), b2)),
            }
        } else {
            Ok((None, b1))
        },
    }
}

/// The bytes of an optional cancel reason: a boolean that says whether the
/// reason is there, then its byte if it is.
pub open spec fn optional_reason_bytes(v: Option<ModalFormCancelReason>) -> Seq<u8> {
    match v {
        Some(reason) => bool_bytes(true) + uint_bytes(
            reason.code() as nat,
            IntSize::B1,
            ByteOrder::LittleEndian,
        ),
        None => bool_bytes(false),
    }
}

/// Reads an optional cancel reason off the front of `b`. A byte that stands
/// for no reason is out of range.
pub open spec fn parse_optional_reason(b: Seq<u8>, strict: bool) -> Parsed<
    Option<ModalFormCancelReason>,
> {
    match parse_bool(b, strict) {
        Err(e) => Err(e),
        Ok((present, b1)) => if present {
            match parse_uint(b1, IntSize::B1, ByteOrder::LittleEndian) {
                Err(e) => Err(e),
                Ok((code, b2)) => match ModalFormCancelReason::of_code(code as u8) {
                    Some(reason) => Ok((Some(reason), b2)),
                    None => Err(CodecError::OutOfRange),
                },
            }
        } else {
            Ok((None, b1))
        },
    }
}

/// Reading the bytes of an optional string that fits gives it back and
/// leaves what followed, in strict mode too.
pub proof fn lemma_optional_string_round_trip(v: Option<Seq<char>>, rest: Seq<u8>, strict: bool)
    requires
        v matches Some(text) ==> string_fits(text),
    ensures
        parse_optional_string(optional_string_bytes(v) + rest, strict) == Ok::<
            (Option<Seq<char>>, Seq<u8>),
            CodecError,
        >((v, rest)),
{
    match v {
        Some(text) => {
            let r1 = string_bytes(text) + rest;
            lemma_bool_round_trip(true, r1, strict);
            lemma_string_round_trip(text, rest, strict);
            assert(optional_string_bytes(v) + rest =~= bool_bytes(true) + r1);
        },
        None => {
            lemma_bool_round_trip(false, rest, strict);
        },
    }
}

/// Whatever reads as an optional string in strict mode is the bytes of that
/// optional string, followed by the bytes left over; the string fits, and
/// the lenient reader agrees.
pub proof fn lemma_optional_string_strict(b: Seq<u8>)
    requires
        parse_optional_string(b, true) is Ok,
    ensures
        parse_optional_string(b, false) == parse_optional_string(b, true),
        parse_optional_string(b, true).unwrap().0 matches Some(text) ==> string_fits(text),
        b == optional_string_bytes(parse_optional_string(b, true).unwrap().0)
            + parse_optional_string(b, true).unwrap().1,
{
    lemma_bool_strict(b);
    let (present, b1) = parse_bool(b, true).unwrap();
    if present {
        lemma_string_strict(b1);
        let (text, b2) = parse_string(b1, true).unwrap();
        assert(b =~= bool_bytes(true) + string_bytes(text) + b2);
    }
}

/// Reading the bytes of an optional cancel reason gives it back and leaves
/// what followed, in strict mode too.
pub proof fn lemma_optional_reason_round_trip(
    v: Option<ModalFormCancelReason>,
    rest: Seq<u8>,
    strict: bool,
)
    ensures
        parse_optional_reason(optional_reason_bytes(v) + rest, strict) == Ok::<
            (Option<ModalFormCancelReason>, Seq<u8>),
            CodecError,
        >((v, rest)),
{
    match v {
        Some(reason) => {
            let code = uint_bytes(reason.code() as nat, IntSize::B1, ByteOrder::LittleEndian);
            let r1 = code + rest;
            lemma_bool_round_trip(true, r1, strict);
            lemma_uint_round_trip(reason.code() as nat, IntSize::B1, ByteOrder::LittleEndian, rest);
            assert(optional_reason_bytes(v) + rest =~= bool_bytes(true) + r1);
        },
        None => {
            lemma_bool_round_trip(false, rest, strict);
        },
    }
}

/// Whatever reads as an optional cancel reason in strict mode is the bytes
/// of that optional reason, followed by the bytes left over; the lenient
/// reader agrees.
pub proof fn lemma_optional_reason_strict(b: Seq<u8>)
    requires
        parse_optional_reason(b, true) is Ok,
    ensures
        parse_optional_reason(b, false) == parse_optional_reason(b, true),
        b == optional_reason_bytes(parse_optional_reason(b, true).unwrap().0)
            + parse_optional_reason(b, true).unwrap().1,
{
    lemma_bool_strict(b);
    let (present, b1) = parse_bool(b, true).unwrap();
    if present {
        lemma_uint_parse_is_bytes(b1, IntSize::B1, ByteOrder::LittleEndian);
        let (code, b2) = parse_uint(b1, IntSize::B1, ByteOrder::LittleEndian).unwrap();
        assert(b =~= bool_bytes(true) + uint_bytes(code, IntSize::B1, ByteOrder::LittleEndian)
            + b2);
    }
}

/// Answers a form. On the wire: the number of the form, the answer if there
/// is one, and the reason for the lack of one if there is one; each of the
/// two behind a boolean that says whether it is there.
#[derive(Debug, Clone, PartialEq, Eq)]
pub struct ModalFormResponsePacket {
    /// The number of the form that is answered.
    pub form_id: u32,
    /// The answer, as JSON text, if the player gave one.
    pub form_response: Option<String>,
    /// Why the form went unanswered, if it did.
    pub cancel_reason: Option<ModalFormCancelReason>,
}

/// The content of a [`ModalFormResponsePacket`], as mathematical values.
pub struct ModalFormResponsePacketView {
    pub form_id: u32,
    pub form_response: Option<Seq<char>>,
    pub cancel_reason: Option<ModalFormCancelReason>,
}

impl View for ModalFormResponsePacket {
    type V = ModalFormResponsePacketView;

    open spec fn view(&self) -> ModalFormResponsePacketView {
        ModalFormResponsePacketView {
            form_id: self.form_id,
            form_response: match self.form_response {
                Some(text) => Some(text@),
                None => None,
            },
            cancel_reason: self.cancel_reason,
        }
    }
}

impl ModalFormResponsePacketView {
    /// Whether the answer, if any, fits its length prefix, so that the
    /// record can be written.
    pub open spec fn fits(self) -> bool {
        self.form_response matches Some(text) ==> string_fits(text)
    }

    /// The bytes of the record: those of its fields, in order.
    pub open spec fn wire_bytes(self) -> Seq<u8> {
        uvar_bytes(self.form_id as nat) + optional_string_bytes(self.form_response)
            + optional_reason_bytes(self.cancel_reason)
    }

    /// Reads the record off the front of `b`, field by field. The first
    /// field that fails gives the error.
    #[verifier::opaque]
    pub open spec fn parse(b: Seq<u8>, strict: bool) -> Parsed<ModalFormResponsePacketView> {
        match parse_uvar(b, Width::W32, strict) {
            Err(e) => Err(e),
            Ok((form_id, b1)) => match parse_optional_string(b1, strict) {
                Err(e) => Err(e),
                Ok((form_response, b2)) => match parse_optional_reason(b2, strict) {
                    Err(e) => Err(e),
                    Ok((cancel_reason, b3)) => Ok(
                        (
                            ModalFormResponsePacketView {
                                form_id: form_id as u32,
                                form_response,
                                cancel_reason,
                            },
                            b3,
                        ),
                    ),
                },
            },
        }
    }

    /// Reading the bytes of a record that fits gives the record back and
    /// leaves what followed, in strict mode too.
    pub proof fn lemma_round_trip(self, rest: Seq<u8>, strict: bool)
        requires
            self.fits(),
        ensures
            ModalFormResponsePacketView::parse(self.wire_bytes() + rest, strict) == Ok::<
                (ModalFormResponsePacketView, Seq<u8>),
                CodecError,
            >((self, rest)),
    {
        reveal(ModalFormResponsePacketView::parse);
        let r2 = optional_reason_bytes(self.cancel_reason) + rest;
        let r1 = optional_string_bytes(self.form_response) + r2;
        lemma_uvar_round_trip(self.form_id as nat, Width::W32, r1, strict);
        lemma_optional_string_round_trip(self.form_response, r2, strict);
        lemma_optional_reason_round_trip(self.cancel_reason, rest, strict);
        assert(self.wire_bytes() + rest =~= uvar_bytes(self.form_id as nat) + r1);
    }

    /// Whatever reads as a record in strict mode is the bytes of that record,
    /// followed by the bytes left over; the lenient reader agrees.
    pub proof fn lemma_strict(b: Seq<u8>)
        requires
            ModalFormResponsePacketView::parse(b, true) is Ok,
        ensures
            ModalFormResponsePacketView::parse(b, false) == ModalFormResponsePacketView::parse(
                b,
                true,
            ),
            ModalFormResponsePacketView::parse(b, true).unwrap().0.fits(),
            b == ModalFormResponsePacketView::parse(b, true).unwrap().0.wire_bytes()
                + ModalFormResponsePacketView::parse(b, true).unwrap().1,
    {
        reveal(ModalFormResponsePacketView::parse);
        lemma_uvar_strict(b, Width::W32);
        let b1 = parse_uvar(b, Width::W32, true).unwrap().1;
        lemma_optional_string_strict(b1);
        let b2 = parse_optional_string(b1, true).unwrap().1;
        lemma_optional_reason_strict(b2);
        let (v, b3) = ModalFormResponsePacketView::parse(b, true).unwrap();
        assert(b =~= v.wire_bytes() + b3);
    }
}

impl ModalFormResponsePacket {
    /// Whether the answer, if any, fits its length prefix.
    pub fn fits_wire(&self) -> (ok: bool)
        ensures
            ok == self@.fits(),
    {
        match &self.form_response {
            Some(text) => text.as_str().as_bytes().len() <= 0xffff_ffff,
            None => true,
        }
    }

    /// Appends the record to `stream`. A record that does not fit is refused
    /// as out of range, and nothing is appended.
    pub fn proto_serialize(&self, stream: &mut Vec<u8>) -> (res: Result<(), CodecError>)
        ensures
            self@.fits() ==> res is Ok && final(stream)@ == old(stream)@ + self@.wire_bytes(),
            !self@.fits() ==> res == Err::<(), CodecError>(CodecError::OutOfRange) && final(stream)@
                == old(stream)@,
    {
        if !self.fits_wire() {
            return Err(CodecError::OutOfRange);
        }
        write_uvar(stream, self.form_id as u64);
        match &self.form_response {
            Some(text) => {
                write_bool(stream, true);
                write_string(stream, text.as_str())?;
            },
            None => {
                write_bool(stream, false);
            },
        }
        match self.cancel_reason {
            Some(reason) => {
                write_bool(stream, true);
                write_uint(stream, reason.to_code() as u64, IntSize::B1, ByteOrder::LittleEndian);
            },
            None => {
                write_bool(stream, false);
            },
        }
        assert(stream@ =~= old(stream)@ + self@.wire_bytes());
        Ok(())
    }

    /// Reads a record from `stream`, field by field. What is read fits, and
    /// so can be written again.
    pub fn proto_deserialize(stream: &mut ByteReader) -> (res: Result<
        ModalFormResponsePacket,
        CodecError,
    >)
        ensures
            match ModalFormResponsePacketView::parse(old(stream).remaining(), false) {
                Ok((v, rest)) => res is Ok
                    && res.unwrap()@ == v
                    && v.fits()
                    && final(stream).remaining() == rest,
                Err(e) => res == Err::<ModalFormResponsePacket, CodecError>(e),
            },
    {
        proof {
            reveal(ModalFormResponsePacketView::parse);
        }
        let form_id: u32 = read_uvar(stream, Width::W32)? as u32;
        let form_response: Option<String> = if read_bool(stream)? {
            Some(read_string(stream)?)
        } else {
            None
        };
        let cancel_reason: Option<ModalFormCancelReason> = if read_bool(stream)? {
            let code: u8 = read_uint(stream, IntSize::B1, ByteOrder::LittleEndian)? as u8;
            match ModalFormCancelReason::from_code(code) {
                Some(reason) => Some(reason),
                None => {
                    return Err(CodecError::OutOfRange);
                },
            }
        } else {
            None
        };
        Ok(ModalFormResponsePacket { form_id, form_response, cancel_reason })
    }
}

} // verus!
