//! The modal-form-request packet: the server shows a form.

use vstd::prelude::*;
use crate::error::CodecError;
use crate::reader::ByteReader;
use crate::varint::{
    lemma_uvar_round_trip, lemma_uvar_strict, parse_uvar, Parsed, read_uvar, uvar_bytes, Width,
    write_uvar,
};
use crate::wire::{
    lemma_string_round_trip, lemma_string_strict, parse_string, read_string, string_bytes,
    string_fits, write_string,
};

verus! {

/// Shows a form on the client.
#[derive(Debug, Clone, PartialEq, Eq)]
pub struct ModalFormRequestPacket {
    /// The number by which the response names the form.
    pub form_id: u32,
    /// The form, as JSON text.
    pub form_json: String,
}

/// The content of a [`ModalFormRequestPacket`], as mathematical values.
pub struct ModalFormRequestPacketView {
    pub form_id: u32,
    pub form_json: Seq<char>,
}

impl View for ModalFormRequestPacket {
    type V = ModalFormRequestPacketView;

    open spec fn view(&self) -> ModalFormRequestPacketView {
        ModalFormRequestPacketView {
            form_id: self.form_id,
            form_json: self.form_json@,
        }
    }
}

impl ModalFormRequestPacketView {
    /// Whether every length in the record fits its length prefix, so that
    /// the record can be written.
    pub open spec fn fits(self) -> bool {
        string_fits(self.form_json)
    }

    /// The bytes of the record: those of its fields, in order.
    pub open spec fn wire_bytes(self) -> Seq<u8> {
        uvar_bytes(self.form_id as nat)
            + string_bytes(self.form_json)
    }

    /// Reads the record off the front of `b`, field by field. The first
    /// field that fails gives the error.
    #[verifier::opaque]
    pub open spec fn parse(b: Seq<u8>, strict: bool) -> Parsed<ModalFormRequestPacketView> {
        match parse_uvar(b, Width::W32, strict) {
            Err(e) => Err(e),
            Ok((form_id, b1)) => match parse_string(b1, strict) {
                Err(e) => Err(e),
                Ok((form_json, b2)) => Ok(
                    (
                        ModalFormRequestPacketView {
                            form_id: form_id as u32,
                            form_json,
                        },
                        b2,
                    ),
                ),
            },
        }
    }

    /// Reading the bytes of a record that fits gives the record back and
    /// leaves what followed, in strict mode too.
    pub proof fn lemma_round_trip(self, rest: Seq<u8>, strict: bool)
        requires
            self.fits(),
        ensures
            ModalFormRequestPacketView::parse(self.wire_bytes() + rest, strict) == Ok::<
                (ModalFormRequestPacketView, Seq<u8>),
                CodecError,
            >((self, rest)),
    {
        reveal(ModalFormRequestPacketView::parse);
        let r2 = rest;
        let r1 = string_bytes(self.form_json) + r2;
        let r0 = uvar_bytes(self.form_id as nat) + r1;
        lemma_uvar_round_trip(self.form_id as nat, Width::W32, r1, strict);
        lemma_string_round_trip(self.form_json, r2, strict);
        assert(self.wire_bytes() + rest =~= r0);
    }

    /// Whatever reads as a record in strict mode is the bytes of that record,
    /// followed by the bytes left over; the lenient reader agrees.
    pub proof fn lemma_strict(b: Seq<u8>)
        requires
            ModalFormRequestPacketView::parse(b, true) is Ok,
        ensures
            ModalFormRequestPacketView::parse(b, false)
                == ModalFormRequestPacketView::parse(b, true),
            ({
                let (v, rest) = ModalFormRequestPacketView::parse(b, true).unwrap();
                v.fits() && b == v.wire_bytes() + rest
            }),
    {
        reveal(ModalFormRequestPacketView::parse);
        let strict = true;
        lemma_uvar_strict(b, Width::W32);
        let b1 = parse_uvar(b, Width::W32, strict).unwrap().1;
        lemma_string_strict(b1);
        let b2 = parse_string(b1, strict).unwrap().1;
        assert(b =~= ModalFormRequestPacketView::parse(b, true).unwrap().0.wire_bytes() + b2);
    }
}

impl ModalFormRequestPacket {
    /// Whether every length in the record fits its length prefix.
    pub fn fits_wire(&self) -> (ok: bool)
        ensures
            ok == self@.fits(),
    {
        self.form_json.as_str().as_bytes().len() <= 0xffff_ffff
    }

    /// Appends the record to `stream`. A record that does not fit is refused
    /// as out of range, and nothing is appended.
    pub fn proto_serialize(&self, stream: &mut Vec<u8>) -> (res: Result<(), CodecError>)
        ensures
            self@.fits() ==> res is Ok && final(stream)@ == old(stream)@ + self@.wire_bytes(),
            !self@.fits() ==> res == Err::<(), CodecError>(CodecError::OutOfRange) && final(stream)@
                == old(stream)@,
    {
        if !self.fits_wire() {
            return Err(CodecError::OutOfRange);
        }
        write_uvar(stream, self.form_id as u64);
        write_string(stream, self.form_json.as_str())?;
        assert(stream@ =~= old(stream)@ + self@.wire_bytes());
        Ok(())
    }

    /// Reads a record from `stream`, field by field. What is read fits, and
    /// so can be written again.
    pub fn proto_deserialize(stream: &mut ByteReader) -> (res: Result<
        ModalFormRequestPacket,
        CodecError,
    >)
        ensures
            match ModalFormRequestPacketView::parse(old(stream).remaining(), false) {
                Ok((v, rest)) => res is Ok
                    && res.unwrap()@ == v
                    && v.fits()
                    && final(stream).remaining() == rest,
                Err(e) => res == Err::<ModalFormRequestPacket, CodecError>(e),
            },
    {
        proof {
            reveal(ModalFormRequestPacketView::parse);
        }
        let form_id: u32 = read_uvar(stream, Width::W32)? as u32;
        let form_json: String = read_string(stream)?;
        Ok(ModalFormRequestPacket { form_id, form_json })
    }
}

} // verus!
