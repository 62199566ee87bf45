//! The request-network-settings packet: the client asks for the network settings.

use vstd::prelude::*;
use crate::error::CodecError;
use crate::reader::ByteReader;
use crate::varint::Parsed;
use crate::wire::{
    ByteOrder, int_bytes, IntSize, lemma_int_parse_is_bytes, lemma_int_round_trip, parse_int,
    read_int, write_int,
};

verus! {

/// Asks the server for its network settings.
#[derive(Debug, Clone, Copy, PartialEq, Eq)]
pub struct NetworkSettingsRequestPacket {
    /// The protocol version the client speaks.
    pub client_network_version: i32,
}

impl NetworkSettingsRequestPacket {
    /// The bytes of the record: those of its fields, in order.
    pub open spec fn wire_bytes(self) -> Seq<u8> {
        int_bytes(self.client_network_version as int, IntSize::B4, ByteOrder::BigEndian)
    }

    /// Reads the record off the front of `b`, field by field. The first
    /// field that fails gives the error.
    #[verifier::opaque]
    pub open spec fn parse(b: Seq<u8>, strict: bool) -> Parsed<NetworkSettingsRequestPacket> {
        match parse_int(b, IntSize::B4, ByteOrder::BigEndian) {
            Err(e) => Err(e),
            Ok((client_network_version, b1)) => Ok(
                (
                    NetworkSettingsRequestPacket {
                        client_network_version: client_network_version as i32,
                    },
                    b1,
                ),
            ),
        }
    }

    /// Reading the bytes of a record gives the record back and leaves what
    /// followed, in strict mode too.
    pub proof fn lemma_round_trip(self, rest: Seq<u8>, strict: bool)
        ensures
            NetworkSettingsRequestPacket::parse(self.wire_bytes() + rest, strict) == Ok::<
                (NetworkSettingsRequestPacket, Seq<u8>),
                CodecError,
            >((self, rest)),
    {
        reveal(NetworkSettingsRequestPacket::parse);
        let r1 = rest;
        let r0 = int_bytes(self.client_network_version as int, IntSize::B4, ByteOrder::BigEndian)
            + r1;
        lemma_int_round_trip(
            self.client_network_version as int,
            IntSize::B4,
            ByteOrder::BigEndian,
            r1,
        );
        assert(self.wire_bytes() + rest =~= r0);
    }

    /// Whatever reads as a record in strict mode is the bytes of that record,
    /// followed by the bytes left over; the lenient reader agrees.
    pub proof fn lemma_strict(b: Seq<u8>)
        requires
            NetworkSettingsRequestPacket::parse(b, true) is Ok,
        ensures
            NetworkSettingsRequestPacket::parse(b, false)
                == NetworkSettingsRequestPacket::parse(b, true),
            ({
                let (v, rest) = NetworkSettingsRequestPacket::parse(b, true).unwrap();
                b == v.wire_bytes() + rest
            }),
    {
        reveal(NetworkSettingsRequestPacket::parse);
        let strict = true;
        lemma_int_parse_is_bytes(b, IntSize::B4, ByteOrder::BigEndian);
        let b1 = parse_int(b, IntSize::B4, ByteOrder::BigEndian).unwrap().1;
        assert(b =~= NetworkSettingsRequestPacket::parse(b, true).unwrap().0.wire_bytes() + b1);
    }
}

impl NetworkSettingsRequestPacket {
    /// Appends the record to `stream`.
    pub fn proto_serialize(&self, stream: &mut Vec<u8>)
        ensures
            final(stream)@ == old(stream)@ + self.wire_bytes(),
    {
        write_int(stream, self.client_network_version as i64, IntSize::B4, ByteOrder::BigEndian);
        assert(stream@ =~= old(stream)@ + self.wire_bytes());
    }

    /// Reads a record from `stream`, field by field.
    pub fn proto_deserialize(stream: &mut ByteReader) -> (res: Result<
        NetworkSettingsRequestPacket,
        CodecError,
    >)
        ensures
            match NetworkSettingsRequestPacket::parse(old(stream).remaining(), false) {
                Ok((v, rest)) => res is Ok && res.unwrap() == v && final(stream).remaining()
                    == rest,
                Err(e) => res == Err::<NetworkSettingsRequestPacket, CodecError>(e),
            },
    {
        proof {
            reveal(NetworkSettingsRequestPacket::parse);
        }
        let client_network_version: i32 = read_int(
            stream,
            IntSize::B4,
            ByteOrder::BigEndian,
        )? as i32;
        Ok(NetworkSettingsRequestPacket { client_network_version })
    }
}

} // verus!
