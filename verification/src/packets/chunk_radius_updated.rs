//! The chunk-radius-updated packet: the server settles the view distance.

use vstd::prelude::*;
use crate::error::CodecError;
use crate::reader::ByteReader;
use crate::varint::{
    ivar_bytes, lemma_ivar_round_trip, lemma_ivar_strict, lemma_zigzag, parse_ivar, Parsed,
    read_ivar, Width, write_ivar,
};

verus! {

/// Tells the client the view distance the server settled on.
#[derive(Debug, Clone, Copy, PartialEq, Eq)]
pub struct ChunkRadiusUpdatedPacket {
    /// The view distance, in chunks.
    pub chunk_radius: i32,
}

impl ChunkRadiusUpdatedPacket {
    /// The bytes of the record: those of its fields, in order.
    pub open spec fn wire_bytes(self) -> Seq<u8> {
        ivar_bytes(self.chunk_radius as int)
    }

    /// Reads the record off the front of `b`, field by field. The first
    /// field that fails gives the error.
    #[verifier::opaque]
    pub open spec fn parse(b: Seq<u8>, strict: bool) -> Parsed<ChunkRadiusUpdatedPacket> {
        match parse_ivar(b, Width::W32, strict) {
            Err(e) => Err(e),
            Ok((chunk_radius, b1)) => Ok(
                (
                    ChunkRadiusUpdatedPacket {
                        chunk_radius: chunk_radius as i32,
                    },
                    b1,
                ),
            ),
        }
    }

    /// Reading the bytes of a record gives the record back and leaves what
    /// followed, in strict mode too.
    pub proof fn lemma_round_trip(self, rest: Seq<u8>, strict: bool)
        ensures
            ChunkRadiusUpdatedPacket::parse(self.wire_bytes() + rest, strict) == Ok::<
                (ChunkRadiusUpdatedPacket, Seq<u8>),
                CodecError,
            >((self, rest)),
    {
        reveal(ChunkRadiusUpdatedPacket::parse);
        let r1 = rest;
        let r0 = ivar_bytes(self.chunk_radius as int) + r1;
        lemma_zigzag(self.chunk_radius as int, 0);
        lemma_ivar_round_trip(self.chunk_radius as int, Width::W32, r1, strict);
        assert(self.wire_bytes() + rest =~= r0);
    }

    /// Whatever reads as a record in strict mode is the bytes of that record,
    /// followed by the bytes left over; the lenient reader agrees.
    pub proof fn lemma_strict(b: Seq<u8>)
        requires
            ChunkRadiusUpdatedPacket::parse(b, true) is Ok,
        ensures
            ChunkRadiusUpdatedPacket::parse(b, false) == ChunkRadiusUpdatedPacket::parse(b, true),
            ({
                let (v, rest) = ChunkRadiusUpdatedPacket::parse(b, true).unwrap();
                b == v.wire_bytes() + rest
            }),
    {
        reveal(ChunkRadiusUpdatedPacket::parse);
        let strict = true;
        lemma_ivar_strict(b, Width::W32);
        lemma_zigzag(parse_ivar(b, Width::W32, true).unwrap().0, 0);
        let b1 = parse_ivar(b, Width::W32, strict).unwrap().1;
        assert(b =~= ChunkRadiusUpdatedPacket::parse(b, true).unwrap().0.wire_bytes() + b1);
    }
}

impl ChunkRadiusUpdatedPacket {
    /// Appends the record to `stream`.
    pub fn proto_serialize(&self, stream: &mut Vec<u8>)
        ensures
            final(stream)@ == old(stream)@ + self.wire_bytes(),
    {
        write_ivar(stream, self.chunk_radius as i64);
        assert(stream@ =~= old(stream)@ + self.wire_bytes());
    }

    /// Reads a record from `stream`, field by field.
    pub fn proto_deserialize(stream: &mut ByteReader) -> (res: Result<
        ChunkRadiusUpdatedPacket,
        CodecError,
    >)
        ensures
            match ChunkRadiusUpdatedPacket::parse(old(stream).remaining(), false) {
                Ok((v, rest)) => res is Ok && res.unwrap() == v && final(stream).remaining()
                    == rest,
                Err(e) => res == Err::<ChunkRadiusUpdatedPacket, CodecError>(e),
            },
    {
        proof {
            reveal(ChunkRadiusUpdatedPacket::parse);
        }
        let chunk_radius: i32 = read_ivar(stream, Width::W32)? as i32;
        Ok(ChunkRadiusUpdatedPacket { chunk_radius })
    }
}

} // verus!
