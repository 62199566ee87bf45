//! The play-status packet: the server's verdict on a login, or the signal
//! that the player may spawn.

use vstd::prelude::*;
use crate::error::CodecError;
use crate::reader::ByteReader;
use crate::varint::Parsed;
use crate::wire::{int_bytes, lemma_int_parse_is_bytes, lemma_int_round_trip, parse_int};
use crate::wire::{read_int, write_int, ByteOrder, IntSize};

verus! {

/// The statuses a play-status packet can carry. On the wire a status is a
/// big-endian signed 32-bit number, counted from zero in the order below.
#[derive(Debug, Clone, Copy, PartialEq, Eq)]
pub enum PlayStatusType {
    /// The login was accepted.
    LoginSuccess,
    /// The client is older than the server.
    FailedClientOld,
    /// The server is older than the client.
    FailedServerOld,
    /// The world is ready and the player may spawn.
    PlayerSpawn,
    /// The client belongs to another tenant.
    FailedInvalidTenant,
    /// An education client tried to join a vanilla server.
    FailedEditionMismatchEduToVanilla,
    /// A vanilla client tried to join an education server.
    FailedEditionMismatchVanillaToEdu,
    /// The server has no room for another split-screen player.
    FailedServerFullSubClient,
    /// An editor client tried to join a vanilla server.
    FailedEditorMismatchEditorToVanilla,
    /// A vanilla client tried to join an editor server.
    FailedEditorMismatchVanillaToEditor,
}

impl PlayStatusType {
    /// The number that stands for the status on the wire.
    pub open spec fn code(self) -> int {
        match self {
            PlayStatusType::LoginSuccess => 0,
            PlayStatusType::FailedClientOld => 1,
            PlayStatusType::FailedServerOld => 2,
            PlayStatusType::PlayerSpawn => 3,
            PlayStatusType::FailedInvalidTenant => 4,
            PlayStatusType::FailedEditionMismatchEduToVanilla => 5,
            PlayStatusType::FailedEditionMismatchVanillaToEdu => 6,
            PlayStatusType::FailedServerFullSubClient => 7,
            PlayStatusType::FailedEditorMismatchEditorToVanilla => 8,
            PlayStatusType::FailedEditorMismatchVanillaToEditor => 9,
        }
    }

    /// The status that `code` stands for, if any.
    pub open spec fn of_code(code: int) -> Option<PlayStatusType> {
        if code == 0 {
            Some(PlayStatusType::LoginSuccess)
        } else if code == 1 {
            Some(PlayStatusType::FailedClientOld)
        } else if code == 2 {
            Some(PlayStatusType::FailedServerOld)
        } else if code == 3 {
            Some(PlayStatusType::PlayerSpawn)
        } else if code == 4 {
            Some(PlayStatusType::FailedInvalidTenant)
        } else if code == 5 {
            Some(PlayStatusType::FailedEditionMismatchEduToVanilla)
        } else if code == 6 {
            Some(PlayStatusType::FailedEditionMismatchVanillaToEdu)
        } else if code == 7 {
            Some(PlayStatusType::FailedServerFullSubClient)
        } else if code == 8 {
            Some(PlayStatusType::FailedEditorMismatchEditorToVanilla)
        } else if code == 9 {
            Some(PlayStatusType::FailedEditorMismatchVanillaToEditor)
        } else {
            None
        }
    }

    /// The number that stands for the status on the wire.
    pub fn to_code(self) -> (code: i32)
        ensures
            code == self.code(),
    {
        match self {
            PlayStatusType::LoginSuccess => 0,
            PlayStatusType::FailedClientOld => 1,
            PlayStatusType::FailedServerOld => 2,
            PlayStatusType::PlayerSpawn => 3,
            PlayStatusType::FailedInvalidTenant => 4,
            PlayStatusType::FailedEditionMismatchEduToVanilla => 5,
            PlayStatusType::FailedEditionMismatchVanillaToEdu => 6,
            PlayStatusType::FailedServerFullSubClient => 7,
            PlayStatusType::FailedEditorMismatchEditorToVanilla => 8,
            PlayStatusType::FailedEditorMismatchVanillaToEditor => 9,
        }
    }

    /// The status that `code` stands for, if any.
    pub fn from_code(code: i32) -> (status: Option<PlayStatusType>)
        ensures
            status == PlayStatusType::of_code(code as int),
    {
        match code {
            0 => Some(PlayStatusType::LoginSuccess),
            1 => Some(PlayStatusType::FailedClientOld),
            2 => Some(PlayStatusType::FailedServerOld),
            3 => Some(PlayStatusType::PlayerSpawn),
            4 => Some(PlayStatusType::FailedInvalidTenant),
            5 => Some(PlayStatusType::FailedEditionMismatchEduToVanilla),
            6 => Some(PlayStatusType::FailedEditionMismatchVanillaToEdu),
            7 => Some(PlayStatusType::FailedServerFullSubClient),
            8 => Some(PlayStatusType::FailedEditorMismatchEditorToVanilla),
            9 => Some(PlayStatusType::FailedEditorMismatchVanillaToEditor),
            _ => None,
        }
    }
}

/// Tells the client how its login went, or that it may spawn.
#[derive(Debug, Clone, Copy, PartialEq, Eq)]
pub struct PlayStatusPacket {
    /// The status.
    pub status: PlayStatusType,
}

impl PlayStatusPacket {
    /// The bytes of the record: the code of its status.
    pub open spec fn wire_bytes(self) -> Seq<u8> {
        int_bytes(self.status.code(), IntSize::B4, ByteOrder::BigEndian)
    }

    /// Reads the record off the front of `b`. A number that stands for no
    /// status is out of range.
    #[verifier::opaque]
    pub open spec fn parse(b: Seq<u8>, strict: bool) -> Parsed<PlayStatusPacket> {
        match parse_int(b, IntSize::B4, ByteOrder::BigEndian) {
            Err(e) => Err(e),
            Ok((code, rest)) => match PlayStatusType::of_code(code) {
                Some(status) => Ok((PlayStatusPacket { status }, rest)),
                None => Err(CodecError::OutOfRange),
            },
        }
    }

    /// Reading the bytes of a record gives the record back and leaves what
    /// followed, in strict mode too.
    pub proof fn lemma_round_trip(self, rest: Seq<u8>, strict: bool)
        ensures
            PlayStatusPacket::parse(self.wire_bytes() + rest, strict) == Ok::<
                (PlayStatusPacket, Seq<u8>),
                CodecError,
            >((self, rest)),
    {
        reveal(PlayStatusPacket::parse);
        lemma_int_round_trip(self.status.code(), IntSize::B4, ByteOrder::BigEndian, rest);
    }

    /// Whatever reads as a record in strict mode is the bytes of that record,
    /// followed by the bytes left over; the lenient reader agrees.
    pub proof fn lemma_strict(b: Seq<u8>)
        requires
            PlayStatusPacket::parse(b, true) is Ok,
        ensures
            PlayStatusPacket::parse(b, false) == PlayStatusPacket::parse(b, true),
            b == PlayStatusPacket::parse(b, true).unwrap().0.wire_bytes() + PlayStatusPacket::parse(
                b,
                true,
            ).unwrap().1,
    {
        reveal(PlayStatusPacket::parse);
        lemma_int_parse_is_bytes(b, IntSize::B4, ByteOrder::BigEndian);
    }

    /// Appends the record to `stream`.
    pub fn proto_serialize(&self, stream: &mut Vec<u8>)
        ensures
            final(stream)@ == old(stream)@ + self.wire_bytes(),
    {
        write_int(stream, self.status.to_code() as i64, IntSize::B4, ByteOrder::BigEndian);
    }

    /// Reads a record from `stream`.
    pub fn proto_deserialize(stream: &mut ByteReader) -> (res: Result<PlayStatusPacket, CodecError>)
        ensures
            match PlayStatusPacket::parse(old(stream).remaining(), false) {
                Ok((v, rest)) => res is Ok && res.unwrap() == v && final(stream).remaining()
                    == rest,
                Err(e) => res == Err::<PlayStatusPacket, CodecError>(e),
            },
    {
        proof {
            reveal(PlayStatusPacket::parse);
        }
        let code: i32 = read_int(stream, IntSize::B4, ByteOrder::BigEndian)? as i32;
        match PlayStatusType::from_code(code) {
            Some(status) => Ok(PlayStatusPacket { status }),
            None => Err(CodecError::OutOfRange),
        }
    }
}

} // verus!
