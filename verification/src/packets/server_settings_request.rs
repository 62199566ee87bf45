//! The server-settings-request packet: the client asks for the server settings form.

use vstd::prelude::*;
use crate::error::CodecError;
use crate::reader::ByteReader;
use crate::varint::Parsed;

verus! {

/// Asks for the server settings form. It has no fields.
#[derive(Debug, Clone, Copy, PartialEq, Eq)]
pub struct ServerSettingsRequestPacket {}

impl ServerSettingsRequestPacket {
    /// The bytes of the record: those of its fields, in order.
    pub open spec fn wire_bytes(self) -> Seq<u8> {
        Seq::empty()
    }

    /// Reads the record off the front of `b`, field by field. The first
    /// field that fails gives the error.
    #[verifier::opaque]
    pub open spec fn parse(b: Seq<u8>, strict: bool) -> Parsed<ServerSettingsRequestPacket> {
        Ok((ServerSettingsRequestPacket {}, b))
    }

    /// Reading the bytes of a record gives the record back and leaves what
    /// followed, in strict mode too.
    pub proof fn lemma_round_trip(self, rest: Seq<u8>, strict: bool)
        ensures
            ServerSettingsRequestPacket::parse(self.wire_bytes() + rest, strict) == Ok::<
                (ServerSettingsRequestPacket, Seq<u8>),
                CodecError,
            >((self, rest)),
    {
        reveal(ServerSettingsRequestPacket::parse);
        assert(self.wire_bytes() + rest =~= rest);
    }

    /// Whatever reads as a record in strict mode is the bytes of that record,
    /// followed by the bytes left over; the lenient reader agrees.
    pub proof fn lemma_strict(b: Seq<u8>)
        requires
            ServerSettingsRequestPacket::parse(b, true) is Ok,
        ensures
            ServerSettingsRequestPacket::parse(b, false)
                == ServerSettingsRequestPacket::parse(b, true),
            ({
                let (v, rest) = ServerSettingsRequestPacket::parse(b, true).unwrap();
                b == v.wire_bytes() + rest
            }),
    {
        reveal(ServerSettingsRequestPacket::parse);
        assert(b =~= ServerSettingsRequestPacket::parse(b, true).unwrap().0.wire_bytes() + b);
    }
}

impl ServerSettingsRequestPacket {
    /// Appends the record to `stream`.
    pub fn proto_serialize(&self, stream: &mut Vec<u8>)
        ensures
            final(stream)@ == old(stream)@ + self.wire_bytes(),
    {
        assert(stream@ =~= old(stream)@ + self.wire_bytes());
    }

    /// Reads a record from `stream`, field by field.
    pub fn proto_deserialize(stream: &mut ByteReader) -> (res: Result<
        ServerSettingsRequestPacket,
        CodecError,
    >)
        ensures
            match ServerSettingsRequestPacket::parse(old(stream).remaining(), false) {
                Ok((v, rest)) => res is Ok && res.unwrap() == v && final(stream).remaining()
                    == rest,
                Err(e) => res == Err::<ServerSettingsRequestPacket, CodecError>(e),
            },
    {
        proof {
            reveal(ServerSettingsRequestPacket::parse);
        }
        Ok(ServerSettingsRequestPacket {})
    }
}

} // verus!
