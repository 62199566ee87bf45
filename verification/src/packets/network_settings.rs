//! The network-settings packet: the server fixes compression and throttling for the session.

use vstd::prelude::*;
use crate::error::CodecError;
use crate::reader::ByteReader;
use crate::types::Float32;
use crate::varint::Parsed;
use crate::wire::{
    bool_bytes, ByteOrder, IntSize, lemma_bool_round_trip, lemma_bool_strict,
    lemma_uint_parse_is_bytes, lemma_uint_round_trip, parse_bool, parse_uint, read_bool, read_uint,
    uint_bytes, write_bool, write_uint,
};

verus! {

/// Fixes how the rest of the session is compressed and throttled.
#[derive(Debug, Clone, Copy, PartialEq, Eq)]
pub struct NetworkSettingsPacket {
    /// The size in bytes from which a batch is compressed.
    pub compression_threshold: u16,
    /// The number of the compression algorithm.
    pub compression_algorithm: u8,
    /// Whether the client throttles its packets.
    pub client_throttle_enabled: bool,
    /// The player count from which the client throttles.
    pub client_throttle_threshold: u8,
    /// The factor by which the client throttles.
    pub client_throttle_scalar: Float32,
}

impl NetworkSettingsPacket {
    /// The bytes of the record: those of its fields, in order.
    pub open spec fn wire_bytes(self) -> Seq<u8> {
        uint_bytes(self.compression_threshold as nat, IntSize::B2, ByteOrder::LittleEndian)
            + uint_bytes(self.compression_algorithm as nat, IntSize::B1, ByteOrder::LittleEndian)
            + bool_bytes(self.client_throttle_enabled)
            + uint_bytes(
                self.client_throttle_threshold as nat,
                IntSize::B1,
                ByteOrder::LittleEndian,
            )
            + self.client_throttle_scalar.wire_bytes()
    }

    /// Reads the record off the front of `b`, field by field. The first
    /// field that fails gives the error.
    #[verifier::opaque]
    pub open spec fn parse(b: Seq<u8>, strict: bool) -> Parsed<NetworkSettingsPacket> {
        match parse_uint(b, IntSize::B2, ByteOrder::LittleEndian) {
            Err(e) => Err(e),
            Ok((compression_threshold, b1)) => match parse_uint(
                b1,
                IntSize::B1,
                ByteOrder::LittleEndian,
            ) {
                Err(e) => Err(e),
                Ok((compression_algorithm, b2)) => match parse_bool(b2, strict) {
                    Err(e) => Err(e),
                    Ok((client_throttle_enabled, b3)) => match parse_uint(
                        b3,
                        IntSize::B1,
                        ByteOrder::LittleEndian,
                    ) {
                        Err(e) => Err(e),
                        Ok((client_throttle_threshold, b4)) => match Float32::parse(b4, strict) {
                            Err(e) => Err(e),
                            Ok((client_throttle_scalar, b5)) => Ok(
                                (
                                    NetworkSettingsPacket {
                                        compression_threshold: compression_threshold as u16,
                                        compression_algorithm: compression_algorithm as u8,
                                        client_throttle_enabled,
                                        client_throttle_threshold: client_throttle_threshold as u8,
                                        client_throttle_scalar,
                                    },
                                    b5,
                                ),
                            ),
                        },
                    },
                },
            },
        }
    }

    /// Reading the bytes of a record gives the record back and leaves what
    /// followed, in strict mode too.
    pub proof fn lemma_round_trip(self, rest: Seq<u8>, strict: bool)
        ensures
            NetworkSettingsPacket::parse(self.wire_bytes() + rest, strict) == Ok::<
                (NetworkSettingsPacket, Seq<u8>),
                CodecError,
            >((self, rest)),
    {
        reveal(NetworkSettingsPacket::parse);
        let r5 = rest;
        let r4 = self.client_throttle_scalar.wire_bytes() + r5;
        let r3 = uint_bytes(
            self.client_throttle_threshold as nat,
            IntSize::B1,
            ByteOrder::LittleEndian,
        )
            + r4;
        let r2 = bool_bytes(self.client_throttle_enabled) + r3;
        let r1 = uint_bytes(self.compression_algorithm as nat, IntSize::B1, ByteOrder::LittleEndian)
            + r2;
        let r0 = uint_bytes(self.compression_threshold as nat, IntSize::B2, ByteOrder::LittleEndian)
            + r1;
        lemma_uint_round_trip(
            self.compression_threshold as nat,
            IntSize::B2,
            ByteOrder::LittleEndian,
            r1,
        );
        lemma_uint_round_trip(
            self.compression_algorithm as nat,
            IntSize::B1,
            ByteOrder::LittleEndian,
            r2,
        );
        lemma_bool_round_trip(self.client_throttle_enabled, r3, strict);
        lemma_uint_round_trip(
            self.client_throttle_threshold as nat,
            IntSize::B1,
            ByteOrder::LittleEndian,
            r4,
        );
        self.client_throttle_scalar.lemma_round_trip(r5, strict);
        assert(self.wire_bytes() + rest =~= r0);
    }

    /// Whatever reads as a record in strict mode is the bytes of that record,
    /// followed by the bytes left over; the lenient reader agrees.
    pub proof fn lemma_strict(b: Seq<u8>)
        requires
            NetworkSettingsPacket::parse(b, true) is Ok,
        ensures
            NetworkSettingsPacket::parse(b, false) == NetworkSettingsPacket::parse(b, true),
            ({
                let (v, rest) = NetworkSettingsPacket::parse(b, true).unwrap();
                b == v.wire_bytes() + rest
            }),
    {
        reveal(NetworkSettingsPacket::parse);
        let strict = true;
        lemma_uint_parse_is_bytes(b, IntSize::B2, ByteOrder::LittleEndian);
        let b1 = parse_uint(b, IntSize::B2, ByteOrder::LittleEndian).unwrap().1;
        lemma_uint_parse_is_bytes(b1, IntSize::B1, ByteOrder::LittleEndian);
        let b2 = parse_uint(b1, IntSize::B1, ByteOrder::LittleEndian).unwrap().1;
        lemma_bool_strict(b2);
        let b3 = parse_bool(b2, strict).unwrap().1;
        lemma_uint_parse_is_bytes(b3, IntSize::B1, ByteOrder::LittleEndian);
        let b4 = parse_uint(b3, IntSize::B1, ByteOrder::LittleEndian).unwrap().1;
        Float32::lemma_strict(b4);
        let b5 = Float32::parse(b4, strict).unwrap().1;
        assert(b =~= NetworkSettingsPacket::parse(b, true).unwrap().0.wire_bytes() + b5);
    }
}

impl NetworkSettingsPacket {
    /// Appends the record to `stream`.
    pub fn proto_serialize(&self, stream: &mut Vec<u8>)
        ensures
            final(stream)@ == old(stream)@ + self.wire_bytes(),
    {
        write_uint(stream, self.compression_threshold as u64, IntSize::B2, ByteOrder::LittleEndian);
        write_uint(stream, self.compression_algorithm as u64, IntSize::B1, ByteOrder::LittleEndian);
        write_bool(stream, self.client_throttle_enabled);
        write_uint(
            stream,
            self.client_throttle_threshold as u64,
            IntSize::B1,
            ByteOrder::LittleEndian,
        );
        self.client_throttle_scalar.proto_serialize(stream);
        assert(stream@ =~= old(stream)@ + self.wire_bytes());
    }

    /// Reads a record from `stream`, field by field.
    pub fn proto_deserialize(stream: &mut ByteReader) -> (res: Result<
        NetworkSettingsPacket,
        CodecError,
    >)
        ensures
            match NetworkSettingsPacket::parse(old(stream).remaining(), false) {
                Ok((v, rest)) => res is Ok && res.unwrap() == v && final(stream).remaining()
                    == rest,
                Err(e) => res == Err::<NetworkSettingsPacket, CodecError>(e),
            },
    {
        proof {
            reveal(NetworkSettingsPacket::parse);
        }
        let compression_threshold: u16 = read_uint(
            stream,
            IntSize::B2,
            ByteOrder::LittleEndian,
        )? as u16;
        let compression_algorithm: u8 = read_uint(
            stream,
            IntSize::B1,
            ByteOrder::LittleEndian,
        )? as u8;
        let client_throttle_enabled: bool = read_bool(stream)?;
        let client_throttle_threshold: u8 = read_uint(
            stream,
            IntSize::B1,
            ByteOrder::LittleEndian,
        )? as u8;
        let client_throttle_scalar: Float32 = Float32::proto_deserialize(stream)?;
        Ok(
            NetworkSettingsPacket {
                compression_threshold,
                compression_algorithm,
                client_throttle_enabled,
                client_throttle_threshold,
                client_throttle_scalar,
            },
        )
    }
}

} // verus!
