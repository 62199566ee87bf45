//! The remove-entity packet: an actor leaves the world the client sees.

use vstd::prelude::*;
use crate::error::CodecError;
use crate::reader::ByteReader;
use crate::types::ActorUniqueID;
use crate::varint::Parsed;

verus! {

/// Removes an actor from the world the client sees.
#[derive(Debug, Clone, Copy, PartialEq, Eq)]
pub struct RemoveEntityPacket {
    /// The actor to remove.
    pub actor_unique_id: ActorUniqueID,
}

impl RemoveEntityPacket {
    /// The bytes of the record: those of its fields, in order.
    pub open spec fn wire_bytes(self) -> Seq<u8> {
        self.actor_unique_id.wire_bytes()
    }

    /// Reads the record off the front of `b`, field by field. The first
    /// field that fails gives the error.
    #[verifier::opaque]
    pub open spec fn parse(b: Seq<u8>, strict: bool) -> Parsed<RemoveEntityPacket> {
        match ActorUniqueID::parse(b, strict) {
            Err(e) => Err(e),
            Ok((actor_unique_id, b1)) => Ok((RemoveEntityPacket { actor_unique_id }, b1)),
        }
    }

    /// Reading the bytes of a record gives the record back and leaves what
    /// followed, in strict mode too.
    pub proof fn lemma_round_trip(self, rest: Seq<u8>, strict: bool)
        ensures
            RemoveEntityPacket::parse(self.wire_bytes() + rest, strict) == Ok::<
                (RemoveEntityPacket, Seq<u8>),
                CodecError,
            >((self, rest)),
    {
        reveal(RemoveEntityPacket::parse);
        let r1 = rest;
        let r0 = self.actor_unique_id.wire_bytes() + r1;
        self.actor_unique_id.lemma_round_trip(r1, strict);
        assert(self.wire_bytes() + rest =~= r0);
    }

    /// Whatever reads as a record in strict mode is the bytes of that record,
    /// followed by the bytes left over; the lenient reader agrees.
    pub proof fn lemma_strict(b: Seq<u8>)
        requires
            RemoveEntityPacket::parse(b, true) is Ok,
        ensures
            RemoveEntityPacket::parse(b, false) == RemoveEntityPacket::parse(b, true),
            ({
                let (v, rest) = RemoveEntityPacket::parse(b, true).unwrap();
                b == v.wire_bytes() + rest
            }),
    {
        reveal(RemoveEntityPacket::parse);
        let strict = true;
        ActorUniqueID::lemma_strict(b);
        let b1 = ActorUniqueID::parse(b, strict).unwrap().1;
        assert(b =~= RemoveEntityPacket::parse(b, true).unwrap().0.wire_bytes() + b1);
    }
}

impl RemoveEntityPacket {
    /// Appends the record to `stream`.
    pub fn proto_serialize(&self, stream: &mut Vec<u8>)
        ensures
            final(stream)@ == old(stream)@ + self.wire_bytes(),
    {
        self.actor_unique_id.proto_serialize(stream);
        assert(stream@ =~= old(stream)@ + self.wire_bytes());
    }

    /// Reads a record from `stream`, field by field.
    pub fn proto_deserialize(stream: &mut ByteReader) -> (res: Result<
        RemoveEntityPacket,
        CodecError,
    >)
        ensures
            match RemoveEntityPacket::parse(old(stream).remaining(), false) {
                Ok((v, rest)) => res is Ok && res.unwrap() == v && final(stream).remaining()
                    == rest,
                Err(e) => res == Err::<RemoveEntityPacket, CodecError>(e),
            },
    {
        proof {
            reveal(RemoveEntityPacket::parse);
        }
        let actor_unique_id: ActorUniqueID = ActorUniqueID::proto_deserialize(stream)?;
        Ok(RemoveEntityPacket { actor_unique_id })
    }
}

} // verus!
