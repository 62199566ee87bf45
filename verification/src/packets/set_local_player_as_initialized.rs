//! The set-local-player-as-initialized packet: the client has finished loading.

use vstd::prelude::*;
use crate::error::CodecError;
use crate::reader::ByteReader;
use crate::types::ActorRuntimeID;
use crate::varint::Parsed;

verus! {

/// Tells the server that the player has finished loading.
#[derive(Debug, Clone, Copy, PartialEq, Eq)]
pub struct SetLocalPlayerAsInitializedPacket {
    /// The player, by its identifier in this session.
    pub target_actor_id: ActorRuntimeID,
}

impl SetLocalPlayerAsInitializedPacket {
    /// The bytes of the record: those of its fields, in order.
    pub open spec fn wire_bytes(self) -> Seq<u8> {
        self.target_actor_id.wire_bytes()
    }

    /// Reads the record off the front of `b`, field by field. The first
    /// field that fails gives the error.
    #[verifier::opaque]
    pub open spec fn parse(b: Seq<u8>, strict: bool) -> Parsed<SetLocalPlayerAsInitializedPacket> {
        match ActorRuntimeID::parse(b, strict) {
            Err(e) => Err(e),
            Ok((target_actor_id, b1)) => Ok(
                (SetLocalPlayerAsInitializedPacket { target_actor_id }, b1),
            ),
        }
    }

    /// Reading the bytes of a record gives the record back and leaves what
    /// followed, in strict mode too.
    pub proof fn lemma_round_trip(self, rest: Seq<u8>, strict: bool)
        ensures
            SetLocalPlayerAsInitializedPacket::parse(self.wire_bytes() + rest, strict) == Ok::<
                (SetLocalPlayerAsInitializedPacket, Seq<u8>),
                CodecError,
            >((self, rest)),
    {
        reveal(SetLocalPlayerAsInitializedPacket::parse);
        let r1 = rest;
        let r0 = self.target_actor_id.wire_bytes() + r1;
        self.target_actor_id.lemma_round_trip(r1, strict);
        assert(self.wire_bytes() + rest =~= r0);
    }

    /// Whatever reads as a record in strict mode is the bytes of that record,
    /// followed by the bytes left over; the lenient reader agrees.
    pub proof fn lemma_strict(b: Seq<u8>)
        requires
            SetLocalPlayerAsInitializedPacket::parse(b, true) is Ok,
        ensures
            SetLocalPlayerAsInitializedPacket::parse(b, false)
                == SetLocalPlayerAsInitializedPacket::parse(b, true),
            ({
                let (v, rest) = SetLocalPlayerAsInitializedPacket::parse(b, true).unwrap();
                b == v.wire_bytes() + rest
            }),
    {
        reveal(SetLocalPlayerAsInitializedPacket::parse);
        let strict = true;
        ActorRuntimeID::lemma_strict(b);
        let b1 = ActorRuntimeID::parse(b, strict).unwrap().1;
        assert(
            b =~= SetLocalPlayerAsInitializedPacket::parse(b, true).unwrap().0.wire_bytes() + b1
        );
    }
}

impl SetLocalPlayerAsInitializedPacket {
    /// Appends the record to `stream`.
    pub fn proto_serialize(&self, stream: &mut Vec<u8>)
        ensures
            final(stream)@ == old(stream)@ + self.wire_bytes(),
    {
        self.target_actor_id.proto_serialize(stream);
        assert(stream@ =~= old(stream)@ + self.wire_bytes());
    }

    /// Reads a record from `stream`, field by field.
    pub fn proto_deserialize(stream: &mut ByteReader) -> (res: Result<
        SetLocalPlayerAsInitializedPacket,
        CodecError,
    >)
        ensures
            match SetLocalPlayerAsInitializedPacket::parse(old(stream).remaining(), false) {
                Ok((v, rest)) => res is Ok && res.unwrap() == v && final(stream).remaining()
                    == rest,
                Err(e) => res == Err::<SetLocalPlayerAsInitializedPacket, CodecError>(e),
            },
    {
        proof {
            reveal(SetLocalPlayerAsInitializedPacket::parse);
        }
        let target_actor_id: ActorRuntimeID = ActorRuntimeID::proto_deserialize(stream)?;
        Ok(SetLocalPlayerAsInitializedPacket { target_actor_id })
    }
}

} // verus!
