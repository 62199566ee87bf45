//! The value types that packets share: actor identifiers, block positions,
//! vectors and container descriptors, each with its wire codec.

use vstd::prelude::*;
use crate::error::CodecError;
use crate::reader::ByteReader;
use crate::varint::{
    ivar_bytes, lemma_ivar_round_trip, lemma_ivar_strict, lemma_uvar_round_trip, lemma_uvar_strict,
    lemma_zigzag, parse_ivar, parse_uvar, Parsed, read_ivar, read_uvar, uvar_bytes, Width,
    write_ivar, write_uvar,
};
use crate::wire::{
    ByteOrder, int_bytes, IntSize, lemma_int_parse_is_bytes, lemma_int_round_trip,
    lemma_uint_parse_is_bytes, lemma_uint_round_trip, parse_int, parse_uint, read_int, read_uint,
    uint_bytes, write_int, write_uint,
};

pub mod gamerule;
pub mod pack_info_resource;
pub mod resource_packs_stack_pack;

verus! {

/// An IEEE-754 single-precision number, held as its 32 bits. The bits travel
/// least significant byte first.
#[derive(Debug, Clone, Copy, PartialEq, Eq)]
pub struct Float32 {
    /// The sign, exponent and fraction bits.
    pub bits: u32,
}

impl Float32 {
    /// The bytes of the record: those of its fields, in order.
    pub open spec fn wire_bytes(self) -> Seq<u8> {
        uint_bytes(self.bits as nat, IntSize::B4, ByteOrder::LittleEndian)
    }

    /// Reads the record off the front of `b`, field by field. The first
    /// field that fails gives the error.
    #[verifier::opaque]
    pub open spec fn parse(b: Seq<u8>, strict: bool) -> Parsed<Float32> {
        match parse_uint(b, IntSize::B4, ByteOrder::LittleEndian) {
            Err(e) => Err(e),
            Ok((bits, b1)) => Ok((Float32 { bits: bits as u32 }, b1)),
        }
    }

    /// Reading the bytes of a record gives the record back and leaves what
    /// followed, in strict mode too.
    pub proof fn lemma_round_trip(self, rest: Seq<u8>, strict: bool)
        ensures
            Float32::parse(self.wire_bytes() + rest, strict) == Ok::<
                (Float32, Seq<u8>),
                CodecError,
            >((self, rest)),
    {
        reveal(Float32::parse);
        let r1 = rest;
        let r0 = uint_bytes(self.bits as nat, IntSize::B4, ByteOrder::LittleEndian) + r1;
        lemma_uint_round_trip(self.bits as nat, IntSize::B4, ByteOrder::LittleEndian, r1);
        assert(self.wire_bytes() + rest =~= r0);
    }

    /// Whatever reads as a record in strict mode is the bytes of that record,
    /// followed by the bytes left over; the lenient reader agrees.
    pub proof fn lemma_strict(b: Seq<u8>)
        requires
            Float32::parse(b, true) is Ok,
        ensures
            Float32::parse(b, false) == Float32::parse(b, true),
            ({
                let (v, rest) = Float32::parse(b, true).unwrap();
                b == v.wire_bytes() + rest
            }),
    {
        reveal(Float32::parse);
        let strict = true;
        lemma_uint_parse_is_bytes(b, IntSize::B4, ByteOrder::LittleEndian);
        let b1 = parse_uint(b, IntSize::B4, ByteOrder::LittleEndian).unwrap().1;
        assert(b =~= Float32::parse(b, true).unwrap().0.wire_bytes() + b1);
    }
}

impl Float32 {
    /// Appends the record to `stream`.
    pub fn proto_serialize(&self, stream: &mut Vec<u8>)
        ensures
            final(stream)@ == old(stream)@ + self.wire_bytes(),
    {
        write_uint(stream, self.bits as u64, IntSize::B4, ByteOrder::LittleEndian);
        assert(stream@ =~= old(stream)@ + self.wire_bytes());
    }

    /// Reads a record from `stream`, field by field.
    pub fn proto_deserialize(stream: &mut ByteReader) -> (res: Result<Float32, CodecError>)
        ensures
            match Float32::parse(old(stream).remaining(), false) {
                Ok((v, rest)) => res is Ok && res.unwrap() == v && final(stream).remaining()
                    == rest,
                Err(e) => res == Err::<Float32, CodecError>(e),
            },
    {
        proof {
            reveal(Float32::parse);
        }
        let bits: u32 = read_uint(stream, IntSize::B4, ByteOrder::LittleEndian)? as u32;
        Ok(Float32 { bits })
    }
}

/// A point or direction in space: three single-precision numbers.
#[derive(Debug, Clone, Copy, PartialEq, Eq)]
pub struct Vec3 {
    /// The first coordinate.
    pub x: Float32,
    /// The second coordinate.
    pub y: Float32,
    /// The third coordinate.
    pub z: Float32,
}

impl Vec3 {
    /// The bytes of the record: those of its fields, in order.
    pub open spec fn wire_bytes(self) -> Seq<u8> {
        self.x.wire_bytes()
            + self.y.wire_bytes()
            + self.z.wire_bytes()
    }

    /// Reads the record off the front of `b`, field by field. The first
    /// field that fails gives the error.
    #[verifier::opaque]
    pub open spec fn parse(b: Seq<u8>, strict: bool) -> Parsed<Vec3> {
        match Float32::parse(b, strict) {
            Err(e) => Err(e),
            Ok((x, b1)) => match Float32::parse(b1, strict) {
                Err(e) => Err(e),
                Ok((y, b2)) => match Float32::parse(b2, strict) {
                    Err(e) => Err(e),
                    Ok((z, b3)) => Ok((Vec3 { x, y, z }, b3)),
                },
            },
        }
    }

    /// Reading the bytes of a record gives the record back and leaves what
    /// followed, in strict mode too.
    pub proof fn lemma_round_trip(self, rest: Seq<u8>, strict: bool)
        ensures
            Vec3::parse(self.wire_bytes() + rest, strict) == Ok::<
                (Vec3, Seq<u8>),
                CodecError,
            >((self, rest)),
    {
        reveal(Vec3::parse);
        let r3 = rest;
        let r2 = self.z.wire_bytes() + r3;
        let r1 = self.y.wire_bytes() + r2;
        let r0 = self.x.wire_bytes() + r1;
        self.x.lemma_round_trip(r1, strict);
        self.y.lemma_round_trip(r2, strict);
        self.z.lemma_round_trip(r3, strict);
        assert(self.wire_bytes() + rest =~= r0);
    }

    /// Whatever reads as a record in strict mode is the bytes of that record,
    /// followed by the bytes left over; the lenient reader agrees.
    pub proof fn lemma_strict(b: Seq<u8>)
        requires
            Vec3::parse(b, true) is Ok,
        ensures
            Vec3::parse(b, false) == Vec3::parse(b, true),
            ({
                let (v, rest) = Vec3::parse(b, true).unwrap();
                b == v.wire_bytes() + rest
            }),
    {
        reveal(Vec3::parse);
        let strict = true;
        Float32::lemma_strict(b);
        let b1 = Float32::parse(b, strict).unwrap().1;
        Float32::lemma_strict(b1);
        let b2 = Float32::parse(b1, strict).unwrap().1;
        Float32::lemma_strict(b2);
        let b3 = Float32::parse(b2, strict).unwrap().1;
        assert(b =~= Vec3::parse(b, true).unwrap().0.wire_bytes() + b3);
    }
}

impl Vec3 {
    /// Appends the record to `stream`.
    pub fn proto_serialize(&self, stream: &mut Vec<u8>)
        ensures
            final(stream)@ == old(stream)@ + self.wire_bytes(),
    {
        self.x.proto_serialize(stream);
        self.y.proto_serialize(stream);
        self.z.proto_serialize(stream);
        assert(stream@ =~= old(stream)@ + self.wire_bytes());
    }

    /// Reads a record from `stream`, field by field.
    pub fn proto_deserialize(stream: &mut ByteReader) -> (res: Result<Vec3, CodecError>)
        ensures
            match Vec3::parse(old(stream).remaining(), false) {
                Ok((v, rest)) => res is Ok && res.unwrap() == v && final(stream).remaining()
                    == rest,
                Err(e) => res == Err::<Vec3, CodecError>(e),
            },
    {
        proof {
            reveal(Vec3::parse);
        }
        let x: Float32 = Float32::proto_deserialize(stream)?;
        let y: Float32 = Float32::proto_deserialize(stream)?;
        let z: Float32 = Float32::proto_deserialize(stream)?;
        Ok(Vec3 { x, y, z })
    }
}

/// The identifier an actor keeps for the life of the world. It travels as a
/// signed 64-bit zig-zag varint.
#[derive(Debug, Clone, Copy, PartialEq, Eq)]
pub struct ActorUniqueID(pub i64);

impl ActorUniqueID {
    /// The bytes of the record: those of its fields, in order.
    pub open spec fn wire_bytes(self) -> Seq<u8> {
        ivar_bytes(self.0 as int)
    }

    /// Reads the record off the front of `b`, field by field. The first
    /// field that fails gives the error.
    #[verifier::opaque]
    pub open spec fn parse(b: Seq<u8>, strict: bool) -> Parsed<ActorUniqueID> {
        match parse_ivar(b, Width::W64, strict) {
            Err(e) => Err(e),
            Ok((value, b1)) => Ok((ActorUniqueID(value as i64), b1)),
        }
    }

    /// Reading the bytes of a record gives the record back and leaves what
    /// followed, in strict mode too.
    pub proof fn lemma_round_trip(self, rest: Seq<u8>, strict: bool)
        ensures
            ActorUniqueID::parse(self.wire_bytes() + rest, strict) == Ok::<
                (ActorUniqueID, Seq<u8>),
                CodecError,
            >((self, rest)),
    {
        reveal(ActorUniqueID::parse);
        let r1 = rest;
        let r0 = ivar_bytes(self.0 as int) + r1;
        lemma_zigzag(self.0 as int, 0);
        lemma_ivar_round_trip(self.0 as int, Width::W64, r1, strict);
        assert(self.wire_bytes() + rest =~= r0);
    }

    /// Whatever reads as a record in strict mode is the bytes of that record,
    /// followed by the bytes left over; the lenient reader agrees.
    pub proof fn lemma_strict(b: Seq<u8>)
        requires
            ActorUniqueID::parse(b, true) is Ok,
        ensures
            ActorUniqueID::parse(b, false) == ActorUniqueID::parse(b, true),
            ({
                let (v, rest) = ActorUniqueID::parse(b, true).unwrap();
                b == v.wire_bytes() + rest
            }),
    {
        reveal(ActorUniqueID::parse);
        let strict = true;
        lemma_ivar_strict(b, Width::W64);
        lemma_zigzag(parse_ivar(b, Width::W64, true).unwrap().0, 0);
        let b1 = parse_ivar(b, Width::W64, strict).unwrap().1;
        assert(b =~= ActorUniqueID::parse(b, true).unwrap().0.wire_bytes() + b1);
    }
}

impl ActorUniqueID {
    /// Appends the record to `stream`.
    pub fn proto_serialize(&self, stream: &mut Vec<u8>)
        ensures
            final(stream)@ == old(stream)@ + self.wire_bytes(),
    {
        write_ivar(stream, self.0 as i64);
        assert(stream@ =~= old(stream)@ + self.wire_bytes());
    }

    /// Reads a record from `stream`, field by field.
    pub fn proto_deserialize(stream: &mut ByteReader) -> (res: Result<ActorUniqueID, CodecError>)
        ensures
            match ActorUniqueID::parse(old(stream).remaining(), false) {
                Ok((v, rest)) => res is Ok && res.unwrap() == v && final(stream).remaining()
                    == rest,
                Err(e) => res == Err::<ActorUniqueID, CodecError>(e),
            },
    {
        proof {
            reveal(ActorUniqueID::parse);
        }
        let id: i64 = read_ivar(stream, Width::W64)? as i64;
        Ok(ActorUniqueID(id))
    }
}

/// The identifier an actor has within one session. It travels as an unsigned
/// 64-bit varint.
#[derive(Debug, Clone, Copy, PartialEq, Eq)]
pub struct ActorRuntimeID(pub u64);

impl ActorRuntimeID {
    /// The bytes of the record: those of its fields, in order.
    pub open spec fn wire_bytes(self) -> Seq<u8> {
        uvar_bytes(self.0 as nat)
    }

    /// Reads the record off the front of `b`, field by field. The first
    /// field that fails gives the error.
    #[verifier::opaque]
    pub open spec fn parse(b: Seq<u8>, strict: bool) -> Parsed<ActorRuntimeID> {
        match parse_uvar(b, Width::W64, strict) {
            Err(e) => Err(e),
            Ok((value, b1)) => Ok((ActorRuntimeID(value as u64), b1)),
        }
    }

    /// Reading the bytes of a record gives the record back and leaves what
    /// followed, in strict mode too.
    pub proof fn lemma_round_trip(self, rest: Seq<u8>, strict: bool)
        ensures
            ActorRuntimeID::parse(self.wire_bytes() + rest, strict) == Ok::<
                (ActorRuntimeID, Seq<u8>),
                CodecError,
            >((self, rest)),
    {
        reveal(ActorRuntimeID::parse);
        let r1 = rest;
        let r0 = uvar_bytes(self.0 as nat) + r1;
        lemma_uvar_round_trip(self.0 as nat, Width::W64, r1, strict);
        assert(self.wire_bytes() + rest =~= r0);
    }

    /// Whatever reads as a record in strict mode is the bytes of that record,
    /// followed by the bytes left over; the lenient reader agrees.
    pub proof fn lemma_strict(b: Seq<u8>)
        requires
            ActorRuntimeID::parse(b, true) is Ok,
        ensures
            ActorRuntimeID::parse(b, false) == ActorRuntimeID::parse(b, true),
            ({
                let (v, rest) = ActorRuntimeID::parse(b, true).unwrap();
                b == v.wire_bytes() + rest
            }),
    {
        reveal(ActorRuntimeID::parse);
        let strict = true;
        lemma_uvar_strict(b, Width::W64);
        let b1 = parse_uvar(b, Width::W64, strict).unwrap().1;
        assert(b =~= ActorRuntimeID::parse(b, true).unwrap().0.wire_bytes() + b1);
    }
}

impl ActorRuntimeID {
    /// Appends the record to `stream`.
    pub fn proto_serialize(&self, stream: &mut Vec<u8>)
        ensures
            final(stream)@ == old(stream)@ + self.wire_bytes(),
    {
        write_uvar(stream, self.0 as u64);
        assert(stream@ =~= old(stream)@ + self.wire_bytes());
    }

    /// Reads a record from `stream`, field by field.
    pub fn proto_deserialize(stream: &mut ByteReader) -> (res: Result<ActorRuntimeID, CodecError>)
        ensures
            match ActorRuntimeID::parse(old(stream).remaining(), false) {
                Ok((v, rest)) => res is Ok && res.unwrap() == v && final(stream).remaining()
                    == rest,
                Err(e) => res == Err::<ActorRuntimeID, CodecError>(e),
            },
    {
        proof {
            reveal(ActorRuntimeID::parse);
        }
        let id: u64 = read_uvar(stream, Width::W64)? as u64;
        Ok(ActorRuntimeID(id))
    }
}

/// The position of a block: signed zig-zag varints for the horizontal
/// coordinates, an unsigned varint for the height.
#[derive(Debug, Clone, Copy, PartialEq, Eq)]
pub struct NetworkBlockPos {
    /// The east-west coordinate.
    pub x: i32,
    /// The height.
    pub y: u32,
    /// The north-south coordinate.
    pub z: i32,
}

impl NetworkBlockPos {
    /// The bytes of the record: those of its fields, in order.
    pub open spec fn wire_bytes(self) -> Seq<u8> {
        ivar_bytes(self.x as int)
            + uvar_bytes(self.y as nat)
            + ivar_bytes(self.z as int)
    }

    /// Reads the record off the front of `b`, field by field. The first
    /// field that fails gives the error.
    #[verifier::opaque]
    pub open spec fn parse(b: Seq<u8>, strict: bool) -> Parsed<NetworkBlockPos> {
        match parse_ivar(b, Width::W32, strict) {
            Err(e) => Err(e),
            Ok((x, b1)) => match parse_uvar(b1, Width::W32, strict) {
                Err(e) => Err(e),
                Ok((y, b2)) => match parse_ivar(b2, Width::W32, strict) {
                    Err(e) => Err(e),
                    Ok((z, b3)) => Ok(
                        (
                            NetworkBlockPos {
                                x: x as i32,
                                y: y as u32,
                                z: z as i32,
                            },
                            b3,
                        ),
                    ),
                },
            },
        }
    }

    /// Reading the bytes of a record gives the record back and leaves what
    /// followed, in strict mode too.
    pub proof fn lemma_round_trip(self, rest: Seq<u8>, strict: bool)
        ensures
            NetworkBlockPos::parse(self.wire_bytes() + rest, strict) == Ok::<
                (NetworkBlockPos, Seq<u8>),
                CodecError,
            >((self, rest)),
    {
        reveal(NetworkBlockPos::parse);
        let r3 = rest;
        let r2 = ivar_bytes(self.z as int) + r3;
        let r1 = uvar_bytes(self.y as nat) + r2;
        let r0 = ivar_bytes(self.x as int) + r1;
        lemma_zigzag(self.x as int, 0);
        lemma_ivar_round_trip(self.x as int, Width::W32, r1, strict);
        lemma_uvar_round_trip(self.y as nat, Width::W32, r2, strict);
        lemma_zigzag(self.z as int, 0);
        lemma_ivar_round_trip(self.z as int, Width::W32, r3, strict);
        assert(self.wire_bytes() + rest =~= r0);
    }

    /// Whatever reads as a record in strict mode is the bytes of that record,
    /// followed by the bytes left over; the lenient reader agrees.
    pub proof fn lemma_strict(b: Seq<u8>)
        requires
            NetworkBlockPos::parse(b, true) is Ok,
        ensures
            NetworkBlockPos::parse(b, false) == NetworkBlockPos::parse(b, true),
            ({
                let (v, rest) = NetworkBlockPos::parse(b, true).unwrap();
                b == v.wire_bytes() + rest
            }),
    {
        reveal(NetworkBlockPos::parse);
        let strict = true;
        lemma_ivar_strict(b, Width::W32);
        lemma_zigzag(parse_ivar(b, Width::W32, true).unwrap().0, 0);
        let b1 = parse_ivar(b, Width::W32, strict).unwrap().1;
        lemma_uvar_strict(b1, Width::W32);
        let b2 = parse_uvar(b1, Width::W32, strict).unwrap().1;
        lemma_ivar_strict(b2, Width::W32);
        lemma_zigzag(parse_ivar(b2, Width::W32, true).unwrap().0, 0);
        let b3 = parse_ivar(b2, Width::W32, strict).unwrap().1;
        assert(b =~= NetworkBlockPos::parse(b, true).unwrap().0.wire_bytes() + b3);
    }
}

impl NetworkBlockPos {
    /// Appends the record to `stream`.
    pub fn proto_serialize(&self, stream: &mut Vec<u8>)
        ensures
            final(stream)@ == old(stream)@ + self.wire_bytes(),
    {
        write_ivar(stream, self.x as i64);
        write_uvar(stream, self.y as u64);
        write_ivar(stream, self.z as i64);
        assert(stream@ =~= old(stream)@ + self.wire_bytes());
    }

    /// Reads a record from `stream`, field by field.
    pub fn proto_deserialize(stream: &mut ByteReader) -> (res: Result<NetworkBlockPos, CodecError>)
        ensures
            match NetworkBlockPos::parse(old(stream).remaining(), false) {
                Ok((v, rest)) => res is Ok && res.unwrap() == v && final(stream).remaining()
                    == rest,
                Err(e) => res == Err::<NetworkBlockPos, CodecError>(e),
            },
    {
        proof {
            reveal(NetworkBlockPos::parse);
        }
        let x: i32 = read_ivar(stream, Width::W32)? as i32;
        let y: u32 = read_uvar(stream, Width::W32)? as u32;
        let z: i32 = read_ivar(stream, Width::W32)? as i32;
        Ok(NetworkBlockPos { x, y, z })
    }
}

/// The slot group of a container window, as its signed byte on the wire.
#[derive(Debug, Clone, Copy, PartialEq, Eq)]
pub struct ContainerID(pub i8);

impl ContainerID {
    /// The bytes of the record: those of its fields, in order.
    pub open spec fn wire_bytes(self) -> Seq<u8> {
        int_bytes(self.0 as int, IntSize::B1, ByteOrder::LittleEndian)
    }

    /// Reads the record off the front of `b`, field by field. The first
    /// field that fails gives the error.
    #[verifier::opaque]
    pub open spec fn parse(b: Seq<u8>, strict: bool) -> Parsed<ContainerID> {
        match parse_int(b, IntSize::B1, ByteOrder::LittleEndian) {
            Err(e) => Err(e),
            Ok((value, b1)) => Ok((ContainerID(value as i8), b1)),
        }
    }

    /// Reading the bytes of a record gives the record back and leaves what
    /// followed, in strict mode too.
    pub proof fn lemma_round_trip(self, rest: Seq<u8>, strict: bool)
        ensures
            ContainerID::parse(self.wire_bytes() + rest, strict) == Ok::<
                (ContainerID, Seq<u8>),
                CodecError,
            >((self, rest)),
    {
        reveal(ContainerID::parse);
        let r1 = rest;
        let r0 = int_bytes(self.0 as int, IntSize::B1, ByteOrder::LittleEndian) + r1;
        lemma_int_round_trip(self.0 as int, IntSize::B1, ByteOrder::LittleEndian, r1);
        assert(self.wire_bytes() + rest =~= r0);
    }

    /// Whatever reads as a record in strict mode is the bytes of that record,
    /// followed by the bytes left over; the lenient reader agrees.
    pub proof fn lemma_strict(b: Seq<u8>)
        requires
            ContainerID::parse(b, true) is Ok,
        ensures
            ContainerID::parse(b, false) == ContainerID::parse(b, true),
            ({
                let (v, rest) = ContainerID::parse(b, true).unwrap();
                b == v.wire_bytes() + rest
            }),
    {
        reveal(ContainerID::parse);
        let strict = true;
        lemma_int_parse_is_bytes(b, IntSize::B1, ByteOrder::LittleEndian);
        let b1 = parse_int(b, IntSize::B1, ByteOrder::LittleEndian).unwrap().1;
        assert(b =~= ContainerID::parse(b, true).unwrap().0.wire_bytes() + b1);
    }
}

impl ContainerID {
    /// Appends the record to `stream`.
    pub fn proto_serialize(&self, stream: &mut Vec<u8>)
        ensures
            final(stream)@ == old(stream)@ + self.wire_bytes(),
    {
        write_int(stream, self.0 as i64, IntSize::B1, ByteOrder::LittleEndian);
        assert(stream@ =~= old(stream)@ + self.wire_bytes());
    }

    /// Reads a record from `stream`, field by field.
    pub fn proto_deserialize(stream: &mut ByteReader) -> (res: Result<ContainerID, CodecError>)
        ensures
            match ContainerID::parse(old(stream).remaining(), false) {
                Ok((v, rest)) => res is Ok && res.unwrap() == v && final(stream).remaining()
                    == rest,
                Err(e) => res == Err::<ContainerID, CodecError>(e),
            },
    {
        proof {
            reveal(ContainerID::parse);
        }
        let id: i8 = read_int(stream, IntSize::B1, ByteOrder::LittleEndian)? as i8;
        Ok(ContainerID(id))
    }
}

/// The kind of a container window, as its signed byte on the wire.
#[derive(Debug, Clone, Copy, PartialEq, Eq)]
pub struct ContainerType(pub i8);

impl ContainerType {
    /// The bytes of the record: those of its fields, in order.
    pub open spec fn wire_bytes(self) -> Seq<u8> {
        int_bytes(self.0 as int, IntSize::B1, ByteOrder::LittleEndian)
    }

    /// Reads the record off the front of `b`, field by field. The first
    /// field that fails gives the error.
    #[verifier::opaque]
    pub open spec fn parse(b: Seq<u8>, strict: bool) -> Parsed<ContainerType> {
        match parse_int(b, IntSize::B1, ByteOrder::LittleEndian) {
            Err(e) => Err(e),
            Ok((value, b1)) => Ok((ContainerType(value as i8), b1)),
        }
    }

    /// Reading the bytes of a record gives the record back and leaves what
    /// followed, in strict mode too.
    pub proof fn lemma_round_trip(self, rest: Seq<u8>, strict: bool)
        ensures
            ContainerType::parse(self.wire_bytes() + rest, strict) == Ok::<
                (ContainerType, Seq<u8>),
                CodecError,
            >((self, rest)),
    {
        reveal(ContainerType::parse);
        let r1 = rest;
        let r0 = int_bytes(self.0 as int, IntSize::B1, ByteOrder::LittleEndian) + r1;
        lemma_int_round_trip(self.0 as int, IntSize::B1, ByteOrder::LittleEndian, r1);
        assert(self.wire_bytes() + rest =~= r0);
    }

    /// Whatever reads as a record in strict mode is the bytes of that record,
    /// followed by the bytes left over; the lenient reader agrees.
    pub proof fn lemma_strict(b: Seq<u8>)
        requires
            ContainerType::parse(b, true) is Ok,
        ensures
            ContainerType::parse(b, false) == ContainerType::parse(b, true),
            ({
                let (v, rest) = ContainerType::parse(b, true).unwrap();
                b == v.wire_bytes() + rest
            }),
    {
        reveal(ContainerType::parse);
        let strict = true;
        lemma_int_parse_is_bytes(b, IntSize::B1, ByteOrder::LittleEndian);
        let b1 = parse_int(b, IntSize::B1, ByteOrder::LittleEndian).unwrap().1;
        assert(b =~= ContainerType::parse(b, true).unwrap().0.wire_bytes() + b1);
    }
}

impl ContainerType {
    /// Appends the record to `stream`.
    pub fn proto_serialize(&self, stream: &mut Vec<u8>)
        ensures
            final(stream)@ == old(stream)@ + self.wire_bytes(),
    {
        write_int(stream, self.0 as i64, IntSize::B1, ByteOrder::LittleEndian);
        assert(stream@ =~= old(stream)@ + self.wire_bytes());
    }

    /// Reads a record from `stream`, field by field.
    pub fn proto_deserialize(stream: &mut ByteReader) -> (res: Result<ContainerType, CodecError>)
        ensures
            match ContainerType::parse(old(stream).remaining(), false) {
                Ok((v, rest)) => res is Ok && res.unwrap() == v && final(stream).remaining()
                    == rest,
                Err(e) => res == Err::<ContainerType, CodecError>(e),
            },
    {
        proof {
            reveal(ContainerType::parse);
        }
        let id: i8 = read_int(stream, IntSize::B1, ByteOrder::LittleEndian)? as i8;
        Ok(ContainerType(id))
    }
}

} // verus!
