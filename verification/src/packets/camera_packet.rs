//! The camera packet: the view of a player is tied to a camera actor.

use vstd::prelude::*;
use crate::error::CodecError;
use crate::reader::ByteReader;
use crate::types::ActorUniqueID;
use crate::varint::Parsed;

verus! {

/// Ties the view of a player to a camera actor.
#[derive(Debug, Clone, Copy, PartialEq, Eq)]
pub struct CameraPacket {
    /// The camera actor.
    pub camera_id: ActorUniqueID,
    /// The player whose view is tied.
    pub target_player_id: ActorUniqueID,
}

impl CameraPacket {
    /// The bytes of the record: those of its fields, in order.
    pub open spec fn wire_bytes(self) -> Seq<u8> {
        self.camera_id.wire_bytes()
            + self.target_player_id.wire_bytes()
    }

    /// Reads the record off the front of `b`, field by field. The first
    /// field that fails gives the error.
    #[verifier::opaque]
    pub open spec fn parse(b: Seq<u8>, strict: bool) -> Parsed<CameraPacket> {
        match ActorUniqueID::parse(b, strict) {
            Err(e) => Err(e),
            Ok((camera_id, b1)) => match ActorUniqueID::parse(b1, strict) {
                Err(e) => Err(e),
                Ok((target_player_id, b2)) => Ok(
                    (CameraPacket { camera_id, target_player_id }, b2),
                ),
            },
        }
    }

    /// Reading the bytes of a record gives the record back and leaves what
    /// followed, in strict mode too.
    pub proof fn lemma_round_trip(self, rest: Seq<u8>, strict: bool)
        ensures
            CameraPacket::parse(self.wire_bytes() + rest, strict) == Ok::<
                (CameraPacket, Seq<u8>),
                CodecError,
            >((self, rest)),
    {
        reveal(CameraPacket::parse);
        let r2 = rest;
        let r1 = self.target_player_id.wire_bytes() + r2;
        let r0 = self.camera_id.wire_bytes() + r1;
        self.camera_id.lemma_round_trip(r1, strict);
        self.target_player_id.lemma_round_trip(r2, strict);
        assert(self.wire_bytes() + rest =~= r0);
    }

    /// Whatever reads as a record in strict mode is the bytes of that record,
    /// followed by the bytes left over; the lenient reader agrees.
    pub proof fn lemma_strict(b: Seq<u8>)
        requires
            CameraPacket::parse(b, true) is Ok,
        ensures
            CameraPacket::parse(b, false) == CameraPacket::parse(b, true),
            ({
                let (v, rest) = CameraPacket::parse(b, true).unwrap();
                b == v.wire_bytes() + rest
            }),
    {
        reveal(CameraPacket::parse);
        let strict = true;
        ActorUniqueID::lemma_strict(b);
        let b1 = ActorUniqueID::parse(b, strict).unwrap().1;
        ActorUniqueID::lemma_strict(b1);
        let b2 = ActorUniqueID::parse(b1, strict).unwrap().1;
        assert(b =~= CameraPacket::parse(b, true).unwrap().0.wire_bytes() + b2);
    }
}

impl CameraPacket {
    /// Appends the record to `stream`.
    pub fn proto_serialize(&self, stream: &mut Vec<u8>)
        ensures
            final(stream)@ == old(stream)@ + self.wire_bytes(),
    {
        self.camera_id.proto_serialize(stream);
        self.target_player_id.proto_serialize(stream);
        assert(stream@ =~= old(stream)@ + self.wire_bytes());
    }

    /// Reads a record from `stream`, field by field.
    pub fn proto_deserialize(stream: &mut ByteReader) -> (res: Result<CameraPacket, CodecError>)
        ensures
            match CameraPacket::parse(old(stream).remaining(), false) {
                Ok((v, rest)) => res is Ok && res.unwrap() == v && final(stream).remaining()
                    == rest,
                Err(e) => res == Err::<CameraPacket, CodecError>(e),
            },
    {
        proof {
            reveal(CameraPacket::parse);
        }
        let camera_id: ActorUniqueID = ActorUniqueID::proto_deserialize(stream)?;
        let target_player_id: ActorUniqueID = ActorUniqueID::proto_deserialize(stream)?;
        Ok(CameraPacket { camera_id, target_player_id })
    }
}

} // verus!
