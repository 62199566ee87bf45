//! The login packet: the first packet of a session that carries data.

use vstd::prelude::*;
use crate::error::CodecError;
use crate::reader::ByteReader;
use crate::varint::Parsed;
use crate::wire::{
    blob_bytes, ByteOrder, int_bytes, IntSize, lemma_blob_round_trip, lemma_blob_strict,
    lemma_int_parse_is_bytes, lemma_int_round_trip, max_prefixed_len, parse_blob, parse_int,
    read_blob, read_int, write_blob, write_int,
};

verus! {

/// Opens a session. The connection request is the signed identity and client
/// data of the player; this codec carries it as the bytes it arrived in and
/// leaves their reading to the session layer.
#[derive(Debug, Clone, PartialEq, Eq)]
pub struct LoginPacket {
    /// The protocol version the client speaks.
    pub client_network_version: i32,
    /// The connection request, as the bytes it arrived in.
    pub connection_request: Vec<u8>,
}

/// The content of a [`LoginPacket`], as mathematical values.
pub struct LoginPacketView {
    pub client_network_version: i32,
    pub connection_request: Seq<u8>,
}

impl View for LoginPacket {
    type V = LoginPacketView;

    open spec fn view(&self) -> LoginPacketView {
        LoginPacketView {
            client_network_version: self.client_network_version,
            connection_request: self.connection_request@,
        }
    }
}

impl LoginPacketView {
    /// Whether every length in the record fits its length prefix, so that
    /// the record can be written.
    pub open spec fn fits(self) -> bool {
        self.connection_request.len() <= max_prefixed_len()
    }

    /// The bytes of the record: those of its fields, in order.
    pub open spec fn wire_bytes(self) -> Seq<u8> {
        int_bytes(self.client_network_version as int, IntSize::B4, ByteOrder::BigEndian)
            + blob_bytes(self.connection_request)
    }

    /// Reads the record off the front of `b`, field by field. The first
    /// field that fails gives the error.
    #[verifier::opaque]
    pub open spec fn parse(b: Seq<u8>, strict: bool) -> Parsed<LoginPacketView> {
        match parse_int(b, IntSize::B4, ByteOrder::BigEndian) {
            Err(e) => Err(e),
            Ok((client_network_version, b1)) => match parse_blob(b1, strict) {
                Err(e) => Err(e),
                Ok((connection_request, b2)) => Ok(
                    (
                        LoginPacketView {
                            client_network_version: client_network_version as i32,
                            connection_request,
                        },
                        b2,
                    ),
                ),
            },
        }
    }

    /// Reading the bytes of a record that fits gives the record back and
    /// leaves what followed, in strict mode too.
    pub proof fn lemma_round_trip(self, rest: Seq<u8>, strict: bool)
        requires
            self.fits(),
        ensures
            LoginPacketView::parse(self.wire_bytes() + rest, strict) == Ok::<
                (LoginPacketView, Seq<u8>),
                CodecError,
            >((self, rest)),
    {
        reveal(LoginPacketView::parse);
        let r2 = rest;
        let r1 = blob_bytes(self.connection_request) + r2;
        let r0 = int_bytes(self.client_network_version as int, IntSize::B4, ByteOrder::BigEndian)
            + r1;
        lemma_int_round_trip(
            self.client_network_version as int,
            IntSize::B4,
            ByteOrder::BigEndian,
            r1,
        );
        lemma_blob_round_trip(self.connection_request, r2, strict);
        assert(self.wire_bytes() + rest =~= r0);
    }

    /// Whatever reads as a record in strict mode is the bytes of that record,
    /// followed by the bytes left over; the lenient reader agrees.
    pub proof fn lemma_strict(b: Seq<u8>)
        requires
            LoginPacketView::parse(b, true) is Ok,
        ensures
            LoginPacketView::parse(b, false) == LoginPacketView::parse(b, true),
            ({
                let (v, rest) = LoginPacketView::parse(b, true).unwrap();
                v.fits() && b == v.wire_bytes() + rest
            }),
    {
        reveal(LoginPacketView::parse);
        let strict = true;
        lemma_int_parse_is_bytes(b, IntSize::B4, ByteOrder::BigEndian);
        let b1 = parse_int(b, IntSize::B4, ByteOrder::BigEndian).unwrap().1;
        lemma_blob_strict(b1);
        let b2 = parse_blob(b1, strict).unwrap().1;
        assert(b =~= LoginPacketView::parse(b, true).unwrap().0.wire_bytes() + b2);
    }
}

impl LoginPacket {
    /// Whether every length in the record fits its length prefix.
    pub fn fits_wire(&self) -> (ok: bool)
        ensures
            ok == self@.fits(),
    {
        self.connection_request.len() <= 0xffff_ffff
    }

    /// Appends the record to `stream`. A record that does not fit is refused
    /// as out of range, and nothing is appended.
    pub fn proto_serialize(&self, stream: &mut Vec<u8>) -> (res: Result<(), CodecError>)
        ensures
            self@.fits() ==> res is Ok && final(stream)@ == old(stream)@ + self@.wire_bytes(),
            !self@.fits() ==> res == Err::<(), CodecError>(CodecError::OutOfRange) && final(stream)@
                == old(stream)@,
    {
        if !self.fits_wire() {
            return Err(CodecError::OutOfRange);
        }
        write_int(stream, self.client_network_version as i64, IntSize::B4, ByteOrder::BigEndian);
        write_blob(stream, self.connection_request.as_slice())?;
        assert(stream@ =~= old(stream)@ + self@.wire_bytes());
        Ok(())
    }

    /// Reads a record from `stream`, field by field. What is read fits, and
    /// so can be written again.
    pub fn proto_deserialize(stream: &mut ByteReader) -> (res: Result<LoginPacket, CodecError>)
        ensures
            match LoginPacketView::parse(old(stream).remaining(), false) {
                Ok((v, rest)) => res is Ok
                    && res.unwrap()@ == v
                    && v.fits()
                    && final(stream).remaining() == rest,
                Err(e) => res == Err::<LoginPacket, CodecError>(e),
            },
    {
        proof {
            reveal(LoginPacketView::parse);
        }
        let client_network_version: i32 = read_int(
            stream,
            IntSize::B4,
            ByteOrder::BigEndian,
        )? as i32;
        let connection_request: Vec<u8> = read_blob(stream)?;
        Ok(LoginPacket { client_network_version, connection_request })
    }
}

} // verus!
