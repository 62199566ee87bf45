//! The container-open packet: a container window opens on the client.

use vstd::prelude::*;
use crate::error::CodecError;
use crate::reader::ByteReader;
use crate::types::{ActorUniqueID, ContainerID, ContainerType, NetworkBlockPos};
use crate::varint::Parsed;

verus! {

/// Opens a container window on the client.
#[derive(Debug, Clone, Copy, PartialEq, Eq)]
pub struct ContainerOpenPacket {
    /// The slot group of the window.
    pub container_id: ContainerID,
    /// The kind of container.
    pub container_type: ContainerType,
    /// The block that holds the container.
    pub position: NetworkBlockPos,
    /// The actor that holds the container, if an actor does.
    pub target_actor_id: ActorUniqueID,
}

impl ContainerOpenPacket {
    /// The bytes of the record: those of its fields, in order.
    pub open spec fn wire_bytes(self) -> Seq<u8> {
        self.container_id.wire_bytes()
            + self.container_type.wire_bytes()
            + self.position.wire_bytes()
            + self.target_actor_id.wire_bytes()
    }

    /// Reads the record off the front of `b`, field by field. The first
    /// field that fails gives the error.
    #[verifier::opaque]
    pub open spec fn parse(b: Seq<u8>, strict: bool) -> Parsed<ContainerOpenPacket> {
        match ContainerID::parse(b, strict) {
            Err(e) => Err(e),
            Ok((container_id, b1)) => match ContainerType::parse(b1, strict) {
                Err(e) => Err(e),
                Ok((container_type, b2)) => match NetworkBlockPos::parse(b2, strict) {
                    Err(e) => Err(e),
                    Ok((position, b3)) => match ActorUniqueID::parse(b3, strict) {
                        Err(e) => Err(e),
                        Ok((target_actor_id, b4)) => Ok(
                            (
                                ContainerOpenPacket {
                                    container_id,
                                    container_type,
                                    position,
                                    target_actor_id,
                                },
                                b4,
                            ),
                        ),
                    },
                },
            },
        }
    }

    /// Reading the bytes of a record gives the record back and leaves what
    /// followed, in strict mode too.
    pub proof fn lemma_round_trip(self, rest: Seq<u8>, strict: bool)
        ensures
            ContainerOpenPacket::parse(self.wire_bytes() + rest, strict) == Ok::<
                (ContainerOpenPacket, Seq<u8>),
                CodecError,
            >((self, rest)),
    {
        reveal(ContainerOpenPacket::parse);
        let r4 = rest;
        let r3 = self.target_actor_id.wire_bytes() + r4;
        let r2 = self.position.wire_bytes() + r3;
        let r1 = self.container_type.wire_bytes() + r2;
        let r0 = self.container_id.wire_bytes() + r1;
        self.container_id.lemma_round_trip(r1, strict);
        self.container_type.lemma_round_trip(r2, strict);
        self.position.lemma_round_trip(r3, strict);
        self.target_actor_id.lemma_round_trip(r4, strict);
        assert(self.wire_bytes() + rest =~= r0);
    }

    /// Whatever reads as a record in strict mode is the bytes of that record,
    /// followed by the bytes left over; the lenient reader agrees.
    pub proof fn lemma_strict(b: Seq<u8>)
        requires
            ContainerOpenPacket::parse(b, true) is Ok,
        ensures
            ContainerOpenPacket::parse(b, false) == ContainerOpenPacket::parse(b, true),
            ({
                let (v, rest) = ContainerOpenPacket::parse(b, true).unwrap();
                b == v.wire_bytes() + rest
            }),
    {
        reveal(ContainerOpenPacket::parse);
        let strict = true;
        ContainerID::lemma_strict(b);
        let b1 = ContainerID::parse(b, strict).unwrap().1;
        ContainerType::lemma_strict(b1);
        let b2 = ContainerType::parse(b1, strict).unwrap().1;
        NetworkBlockPos::lemma_strict(b2);
        let b3 = NetworkBlockPos::parse(b2, strict).unwrap().1;
        ActorUniqueID::lemma_strict(b3);
        let b4 = ActorUniqueID::parse(b3, strict).unwrap().1;
        assert(b =~= ContainerOpenPacket::parse(b, true).unwrap().0.wire_bytes() + b4);
    }
}

impl ContainerOpenPacket {
    /// Appends the record to `stream`.
    pub fn proto_serialize(&self, stream: &mut Vec<u8>)
        ensures
            final(stream)@ == old(stream)@ + self.wire_bytes(),
    {
        self.container_id.proto_serialize(stream);
        self.container_type.proto_serialize(stream);
        self.position.proto_serialize(stream);
        self.target_actor_id.proto_serialize(stream);
        assert(stream@ =~= old(stream)@ + self.wire_bytes());
    }

    /// Reads a record from `stream`, field by field.
    pub fn proto_deserialize(stream: &mut ByteReader) -> (res: Result<
        ContainerOpenPacket,
        CodecError,
    >)
        ensures
            match ContainerOpenPacket::parse(old(stream).remaining(), false) {
                Ok((v, rest)) => res is Ok && res.unwrap() == v && final(stream).remaining()
                    == rest,
                Err(e) => res == Err::<ContainerOpenPacket, CodecError>(e),
            },
    {
        proof {
            reveal(ContainerOpenPacket::parse);
        }
        let container_id: ContainerID = ContainerID::proto_deserialize(stream)?;
        let container_type: ContainerType = ContainerType::proto_deserialize(stream)?;
        let position: NetworkBlockPos = NetworkBlockPos::proto_deserialize(stream)?;
        let target_actor_id: ActorUniqueID = ActorUniqueID::proto_deserialize(stream)?;
        Ok(ContainerOpenPacket { container_id, container_type, position, target_actor_id })
    }
}

} // verus!
