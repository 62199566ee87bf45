//! The add-painting packet: a painting appears on a wall.

use vstd::prelude::*;
use crate::error::CodecError;
use crate::reader::ByteReader;
use crate::types::{ActorRuntimeID, ActorUniqueID, Vec3};
use crate::varint::{
    ivar_bytes, lemma_ivar_round_trip, lemma_ivar_strict, lemma_zigzag, parse_ivar, Parsed,
    read_ivar, Width, write_ivar,
};
use crate::wire::{
    lemma_string_round_trip, lemma_string_strict, parse_string, read_string, string_bytes,
    string_fits, write_string,
};

verus! {

/// Puts a painting into the world the client sees.
#[derive(Debug, Clone, PartialEq, Eq)]
pub struct AddPaintingPacket {
    /// The lasting identifier of the painting.
    pub target_actor_id: ActorUniqueID,
    /// The identifier of the painting in this session.
    pub target_runtime_id: ActorRuntimeID,
    /// Where the painting hangs.
    pub position: Vec3,
    /// The way the painting faces.
    pub direction: i32,
    /// The name of the picture.
    pub motif: String,
}

/// The content of a [`AddPaintingPacket`], as mathematical values.
pub struct AddPaintingPacketView {
    pub target_actor_id: ActorUniqueID,
    pub target_runtime_id: ActorRuntimeID,
    pub position: Vec3,
    pub direction: i32,
    pub motif: Seq<char>,
}

impl View for AddPaintingPacket {
    type V = AddPaintingPacketView;

    open spec fn view(&self) -> AddPaintingPacketView {
        AddPaintingPacketView {
            target_actor_id: self.target_actor_id,
            target_runtime_id: self.target_runtime_id,
            position: self.position,
            direction: self.direction,
            motif: self.motif@,
        }
    }
}

impl AddPaintingPacketView {
    /// Whether every length in the record fits its length prefix, so that
    /// the record can be written.
    pub open spec fn fits(self) -> bool {
        string_fits(self.motif)
    }

    /// The bytes of the record: those of its fields, in order.
    pub open spec fn wire_bytes(self) -> Seq<u8> {
        self.target_actor_id.wire_bytes()
            + self.target_runtime_id.wire_bytes()
            + self.position.wire_bytes()
            + ivar_bytes(self.direction as int)
            + string_bytes(self.motif)
    }

    /// Reads the record off the front of `b`, field by field. The first
    /// field that fails gives the error.
    #[verifier::opaque]
    pub open spec fn parse(b: Seq<u8>, strict: bool) -> Parsed<AddPaintingPacketView> {
        match ActorUniqueID::parse(b, strict) {
            Err(e) => Err(e),
            Ok((target_actor_id, b1)) => match ActorRuntimeID::parse(b1, strict) {
                Err(e) => Err(e),
                Ok((target_runtime_id, b2)) => match Vec3::parse(b2, strict) {
                    Err(e) => Err(e),
                    Ok((position, b3)) => match parse_ivar(b3, Width::W32, strict) {
                        Err(e) => Err(e),
                        Ok((direction, b4)) => match parse_string(b4, strict) {
                            Err(e) => Err(e),
                            Ok((motif, b5)) => Ok(
                                (
                                    AddPaintingPacketView {
                                        target_actor_id,
                                        target_runtime_id,
                                        position,
                                        direction: direction as i32,
                                        motif,
                                    },
                                    b5,
                                ),
                            ),
                        },
                    },
                },
            },
        }
    }

    /// Reading the bytes of a record that fits gives the record back and
    /// leaves what followed, in strict mode too.
    pub proof fn lemma_round_trip(self, rest: Seq<u8>, strict: bool)
        requires
            self.fits(),
        ensures
            AddPaintingPacketView::parse(self.wire_bytes() + rest, strict) == Ok::<
                (AddPaintingPacketView, Seq<u8>),
                CodecError,
            >((self, rest)),
    {
        reveal(AddPaintingPacketView::parse);
        let r5 = rest;
        let r4 = string_bytes(self.motif) + r5;
        let r3 = ivar_bytes(self.direction as int) + r4;
        let r2 = self.position.wire_bytes() + r3;
        let r1 = self.target_runtime_id.wire_bytes() + r2;
        let r0 = self.target_actor_id.wire_bytes() + r1;
        self.target_actor_id.lemma_round_trip(r1, strict);
        self.target_runtime_id.lemma_round_trip(r2, strict);
        self.position.lemma_round_trip(r3, strict);
        lemma_zigzag(self.direction as int, 0);
        lemma_ivar_round_trip(self.direction as int, Width::W32, r4, strict);
        lemma_string_round_trip(self.motif, r5, strict);
        assert(self.wire_bytes() + rest =~= r0);
    }

    /// Whatever reads as a record in strict mode is the bytes of that record,
    /// followed by the bytes left over; the lenient reader agrees.
    pub proof fn lemma_strict(b: Seq<u8>)
        requires
            AddPaintingPacketView::parse(b, true) is Ok,
        ensures
            AddPaintingPacketView::parse(b, false) == AddPaintingPacketView::parse(b, true),
            ({
                let (v, rest) = AddPaintingPacketView::parse(b, true).unwrap();
                v.fits() && b == v.wire_bytes() + rest
            }),
    {
        reveal(AddPaintingPacketView::parse);
        let strict = true;
        ActorUniqueID::lemma_strict(b);
        let b1 = ActorUniqueID::parse(b, strict).unwrap().1;
        ActorRuntimeID::lemma_strict(b1);
        let b2 = ActorRuntimeID::parse(b1, strict).unwrap().1;
        Vec3::lemma_strict(b2);
        let b3 = Vec3::parse(b2, strict).unwrap().1;
        lemma_ivar_strict(b3, Width::W32);
        lemma_zigzag(parse_ivar(b3, Width::W32, true).unwrap().0, 0);
        let b4 = parse_ivar(b3, Width::W32, strict).unwrap().1;
        lemma_string_strict(b4);
        let b5 = parse_string(b4, strict).unwrap().1;
        assert(b =~= AddPaintingPacketView::parse(b, true).unwrap().0.wire_bytes() + b5);
    }
}

impl AddPaintingPacket {
    /// Whether every length in the record fits its length prefix.
    pub fn fits_wire(&self) -> (ok: bool)
        ensures
            ok == self@.fits(),
    {
        self.motif.as_str().as_bytes().len() <= 0xffff_ffff
    }

    /// Appends the record to `stream`. A record that does not fit is refused
    /// as out of range, and nothing is appended.
    pub fn proto_serialize(&self, stream: &mut Vec<u8>) -> (res: Result<(), CodecError>)
        ensures
            self@.fits() ==> res is Ok && final(stream)@ == old(stream)@ + self@.wire_bytes(),
            !self@.fits() ==> res == Err::<(), CodecError>(CodecError::OutOfRange) && final(stream)@
                == old(stream)@,
    {
        if !self.fits_wire() {
            return Err(CodecError::OutOfRange);
        }
        self.target_actor_id.proto_serialize(stream);
        self.target_runtime_id.proto_serialize(stream);
        self.position.proto_serialize(stream);
        write_ivar(stream, self.direction as i64);
        write_string(stream, self.motif.as_str())?;
        assert(stream@ =~= old(stream)@ + self@.wire_bytes());
        Ok(())
    }

    /// Reads a record from `stream`, field by field. What is read fits, and
    /// so can be written again.
    pub fn proto_deserialize(stream: &mut ByteReader) -> (res: Result<
        AddPaintingPacket,
        CodecError,
    >)
        ensures
            match AddPaintingPacketView::parse(old(stream).remaining(), false) {
                Ok((v, rest)) => res is Ok
                    && res.unwrap()@ == v
                    && v.fits()
                    && final(stream).remaining() == rest,
                Err(e) => res == Err::<AddPaintingPacket, CodecError>(e),
            },
    {
        proof {
            reveal(AddPaintingPacketView::parse);
        }
        let target_actor_id: ActorUniqueID = ActorUniqueID::proto_deserialize(stream)?;
        let target_runtime_id: ActorRuntimeID = ActorRuntimeID::proto_deserialize(stream)?;
        let position: Vec3 = Vec3::proto_deserialize(stream)?;
        let direction: i32 = read_ivar(stream, Width::W32)? as i32;
        let motif: String = read_string(stream)?;
        Ok(AddPaintingPacket { target_actor_id, target_runtime_id, position, direction, motif })
    }
}

} // verus!
