//! The client-cache-status packet: the client says whether it keeps a blob cache.

use vstd::prelude::*;
use crate::error::CodecError;
use crate::reader::ByteReader;
use crate::varint::Parsed;
use crate::wire::{
    bool_bytes, lemma_bool_round_trip, lemma_bool_strict, parse_bool, read_bool, write_bool,
};

verus! {

/// Tells the server whether the client keeps a blob cache.
#[derive(Debug, Clone, Copy, PartialEq, Eq)]
pub struct ClientCacheStatusPacket {
    /// Whether the cache is kept.
    pub cache_supported: bool,
}

impl ClientCacheStatusPacket {
    /// The bytes of the record: those of its fields, in order.
    pub open spec fn wire_bytes(self) -> Seq<u8> {
        bool_bytes(self.cache_supported)
    }

    /// Reads the record off the front of `b`, field by field. The first
    /// field that fails gives the error.
    #[verifier::opaque]
    pub open spec fn parse(b: Seq<u8>, strict: bool) -> Parsed<ClientCacheStatusPacket> {
        match parse_bool(b, strict) {
            Err(e) => Err(e),
            Ok((cache_supported, b1)) => Ok((ClientCacheStatusPacket { cache_supported }, b1)),
        }
    }

    /// Reading the bytes of a record gives the record back and leaves what
    /// followed, in strict mode too.
    pub proof fn lemma_round_trip(self, rest: Seq<u8>, strict: bool)
        ensures
            ClientCacheStatusPacket::parse(self.wire_bytes() + rest, strict) == Ok::<
                (ClientCacheStatusPacket, Seq<u8>),
                CodecError,
            >((self, rest)),
    {
        reveal(ClientCacheStatusPacket::parse);
        let r1 = rest;
        let r0 = bool_bytes(self.cache_supported) + r1;
        lemma_bool_round_trip(self.cache_supported, r1, strict);
        assert(self.wire_bytes() + rest =~= r0);
    }

    /// Whatever reads as a record in strict mode is the bytes of that record,
    /// followed by the bytes left over; the lenient reader agrees.
    pub proof fn lemma_strict(b: Seq<u8>)
        requires
            ClientCacheStatusPacket::parse(b, true) is Ok,
        ensures
            ClientCacheStatusPacket::parse(b, false) == ClientCacheStatusPacket::parse(b, true),
            ({
                let (v, rest) = ClientCacheStatusPacket::parse(b, true).unwrap();
                b == v.wire_bytes() + rest
            }),
    {
        reveal(ClientCacheStatusPacket::parse);
        let strict = true;
        lemma_bool_strict(b);
        let b1 = parse_bool(b, strict).unwrap().1;
        assert(b =~= ClientCacheStatusPacket::parse(b, true).unwrap().0.wire_bytes() + b1);
    }
}

impl ClientCacheStatusPacket {
    /// Appends the record to `stream`.
    pub fn proto_serialize(&self, stream: &mut Vec<u8>)
        ensures
            final(stream)@ == old(stream)@ + self.wire_bytes(),
    {
        write_bool(stream, self.cache_supported);
        assert(stream@ =~= old(stream)@ + self.wire_bytes());
    }

    /// Reads a record from `stream`, field by field.
    pub fn proto_deserialize(stream: &mut ByteReader) -> (res: Result<
        ClientCacheStatusPacket,
        CodecError,
    >)
        ensures
            match ClientCacheStatusPacket::parse(old(stream).remaining(), false) {
                Ok((v, rest)) => res is Ok && res.unwrap() == v && final(stream).remaining()
                    == rest,
                Err(e) => res == Err::<ClientCacheStatusPacket, CodecError>(e),
            },
    {
        proof {
            reveal(ClientCacheStatusPacket::parse);
        }
        let cache_supported: bool = read_bool(stream)?;
        Ok(ClientCacheStatusPacket { cache_supported })
    }
}

} // verus!
