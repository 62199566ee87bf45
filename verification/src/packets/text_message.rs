//! The text-message packet: chat, whispers, announcements and the raw, tip
//! and system lines that the client prints as they are.

use vstd::prelude::*;
use crate::error::{CodecError, UnionKind};
use crate::reader::ByteReader;
use crate::varint::Parsed;
use crate::wire::{bool_bytes, lemma_bool_round_trip, lemma_bool_strict, parse_bool};
use crate::wire::{lemma_string_round_trip, lemma_string_strict, parse_string, read_bool};
use crate::wire::{lemma_uint_parse_is_bytes, lemma_uint_round_trip, parse_uint, uint_bytes};
use crate::wire::{read_string, string_bytes, string_fits, write_bool};
use crate::wire::{read_uint, write_string, write_uint, ByteOrder};
use crate::wire::IntSize;

verus! {

/// The kinds of text message. The kind is the discriminant of the packet: it
/// travels first, as one byte, and decides whether a source name follows.
#[derive(Debug, Clone, Copy, PartialEq, Eq)]
pub enum TextMessageType {
    /// A line printed as it is.
    Raw,
    /// A chat line from a named player.
    Chat,
    /// A tip shown above the hotbar.
    Tip,
    /// A line from the system.
    SystemMessage,
    /// A whisper from a named player.
    Whisper,
    /// An announcement from a named source.
    Announcement,
}

impl TextMessageType {
    /// The byte that stands for the kind on the wire.
    pub open spec fn tag(self) -> u8 {
        match self {
            TextMessageType::Raw => 0,
            TextMessageType::Chat => 1,
            TextMessageType::Tip => 5,
            TextMessageType::SystemMessage => 6,
            TextMessageType::Whisper => 7,
            TextMessageType::Announcement => 8,
        }
    }

    /// The kind that `tag` stands for, if any.
    pub open spec fn of_tag(tag: u8) -> Option<TextMessageType> {
        if tag == 0 {
            Some(TextMessageType::Raw)
        } else if tag == 1 {
            Some(TextMessageType::Chat)
        } else if tag == 5 {
            Some(TextMessageType::Tip)
        } else if tag == 6 {
            Some(TextMessageType::SystemMessage)
        } else if tag == 7 {
            Some(TextMessageType::Whisper)
        } else if tag == 8 {
            Some(TextMessageType::Announcement)
        } else {
            None
        }
    }

    /// Whether messages of this kind name their source.
    pub open spec fn has_source(self) -> bool {
        self == TextMessageType::Chat || self == TextMessageType::Whisper || self
            == TextMessageType::Announcement
    }

    /// The byte that stands for the kind on the wire.
    pub fn to_tag(self) -> (tag: u8)
        ensures
            tag == self.tag(),
    {
        match self {
            TextMessageType::Raw => 0,
            TextMessageType::Chat => 1,
            TextMessageType::Tip => 5,
            TextMessageType::SystemMessage => 6,
            TextMessageType::Whisper => 7,
            TextMessageType::Announcement => 8,
        }
    }

    /// The kind that `tag` stands for, if any.
    pub fn from_tag(tag: u8) -> (kind: Option<TextMessageType>)
        ensures
            kind == TextMessageType::of_tag(tag),
    {
        match tag {
            0 => Some(TextMessageType::Raw),
            1 => Some(TextMessageType::Chat),
            5 => Some(TextMessageType::Tip),
            6 => Some(TextMessageType::SystemMessage),
            7 => Some(TextMessageType::Whisper),
            8 => Some(TextMessageType::Announcement),
            _ => None,
        }
    }

    /// Whether messages of this kind name their source.
    pub fn names_source(self) -> (named: bool)
        ensures
            named == self.has_source(),
    {
        match self {
            TextMessageType::Chat => true,
            TextMessageType::Whisper => true,
            TextMessageType::Announcement => true,
            _ => false,
        }
    }
}

/// A line of text for the client's chat or screen. On the wire: the kind,
/// the translation flag, the source name if the kind names its source, and
/// the message.
#[derive(Debug, Clone, PartialEq, Eq)]
pub struct TextMessagePacket {
    /// The kind of message.
    pub message_type: TextMessageType,
    /// Whether the client is to translate the message.
    pub needs_translation: bool,
    /// Who sent the message. Present exactly when the kind names its source.
    pub source_name: Option<String>,
    /// The text.
    pub message: String,
}

/// The content of a [`TextMessagePacket`], as mathematical values.
pub struct TextMessagePacketView {
    pub message_type: TextMessageType,
    pub needs_translation: bool,
    pub source_name: Option<Seq<char>>,
    pub message: Seq<char>,
}

impl View for TextMessagePacket {
    type V = TextMessagePacketView;

    open spec fn view(&self) -> TextMessagePacketView {
        TextMessagePacketView {
            message_type: self.message_type,
            needs_translation: self.needs_translation,
            source_name: match self.source_name {
                Some(name) => Some(name@),
                None => None,
            },
            message: self.message@,
        }
    }
}

impl TextMessagePacketView {
    /// Whether the record can be written: it names a source exactly when
    /// its kind says so, and both strings fit their length prefixes.
    pub open spec fn fits(self) -> bool {
        &&& self.source_name is Some <==> self.message_type.has_source()
        &&& self.source_name matches Some(name) ==> string_fits(name)
        &&& string_fits(self.message)
    }

    /// The bytes of the source name, or none where there is no name.
    pub open spec fn source_bytes(self) -> Seq<u8> {
        match self.source_name {
            Some(name) => string_bytes(name),
            None => Seq::empty(),
        }
    }

    /// The bytes of the record: kind, translation flag, source name if any,
    /// message.
    pub open spec fn wire_bytes(self) -> Seq<u8> {
        uint_bytes(self.message_type.tag() as nat, IntSize::B1, ByteOrder::LittleEndian)
            + bool_bytes(self.needs_translation) + self.source_bytes() + string_bytes(
            self.message,
        )
    }

    /// Reads the source name off the front of `b` if `kind` names its
    /// source, and nothing otherwise.
    pub open spec fn parse_source(kind: TextMessageType, b: Seq<u8>, strict: bool) -> Parsed<
        Option<Seq<char>>,
    > {
        if kind.has_source() {
            match parse_string(b, strict) {
                Err(e) => Err(e),
                Ok((name, rest)) => Ok((Some(name), rest)),
            }
        } else {
            Ok((None, b))
        }
    }

    /// Reads the record off the front of `b`. A first byte that stands for
    /// no kind is an unknown variant of the message-type union.
    #[verifier::opaque]
    pub open spec fn parse(b: Seq<u8>, strict: bool) -> Parsed<TextMessagePacketView> {
        match parse_uint(b, IntSize::B1, ByteOrder::LittleEndian) {
            Err(e) => Err(e),
            Ok((tag, b1)) => match TextMessageType::of_tag(tag as u8) {
                None => Err(
                    CodecError::UnknownVariant {
                        union: UnionKind::TextMessageType,
                        tag: tag as u64,
                    },
                ),
                Some(message_type) => match parse_bool(b1, strict) {
                    Err(e) => Err(e),
                    Ok((needs_translation, b2)) => match Self::parse_source(
                        message_type,
                        b2,
                        strict,
                    ) {
                        Err(e) => Err(e),
                        Ok((source_name, b3)) => match parse_string(b3, strict) {
                            Err(e) => Err(e),
                            Ok((message, b4)) => Ok(
                                (
                                    TextMessagePacketView {
                                        message_type,
                                        needs_translation,
                                        source_name,
                                        message,
                                    },
                                    b4,
                                ),
                            ),
                        },
                    },
                },
            },
        }
    }

    /// Reading the bytes of a record that can be written gives the record
    /// back and leaves what followed, in strict mode too.
    pub proof fn lemma_round_trip(self, rest: Seq<u8>, strict: bool)
        requires
            self.fits(),
        ensures
            TextMessagePacketView::parse(self.wire_bytes() + rest, strict) == Ok::<
                (TextMessagePacketView, Seq<u8>),
                CodecError,
            >((self, rest)),
    {
        reveal(TextMessagePacketView::parse);
        let r3 = string_bytes(self.message) + rest;
        let r2 = self.source_bytes() + r3;
        let r1 = bool_bytes(self.needs_translation) + r2;
        let r0 = uint_bytes(self.message_type.tag() as nat, IntSize::B1, ByteOrder::LittleEndian)
            + r1;
        lemma_uint_round_trip(
            self.message_type.tag() as nat,
            IntSize::B1,
            ByteOrder::LittleEndian,
            r1,
        );
        lemma_bool_round_trip(self.needs_translation, r2, strict);
        match self.source_name {
            Some(name) => {
                lemma_string_round_trip(name, r3, strict);
            },
            None => {
                assert(r2 =~= r3);
            },
        }
        lemma_string_round_trip(self.message, rest, strict);
        assert(self.wire_bytes() + rest =~= r0);
    }

    /// Whatever reads as a record in strict mode is the bytes of that record,
    /// followed by the bytes left over; the lenient reader agrees.
    pub proof fn lemma_strict(b: Seq<u8>)
        requires
            TextMessagePacketView::parse(b, true) is Ok,
        ensures
            TextMessagePacketView::parse(b, false) == TextMessagePacketView::parse(b, true),
            TextMessagePacketView::parse(b, true).unwrap().0.fits(),
            b == TextMessagePacketView::parse(b, true).unwrap().0.wire_bytes()
                + TextMessagePacketView::parse(b, true).unwrap().1,
    {
        reveal(TextMessagePacketView::parse);
        lemma_uint_parse_is_bytes(b, IntSize::B1, ByteOrder::LittleEndian);
        let (tag, b1) = parse_uint(b, IntSize::B1, ByteOrder::LittleEndian).unwrap();
        let kind = TextMessageType::of_tag(tag as u8).unwrap();
        lemma_bool_strict(b1);
        let (needs_translation, b2) = parse_bool(b1, true).unwrap();
        if kind.has_source() {
            lemma_string_strict(b2);
        }
        let (source_name, b3) = Self::parse_source(kind, b2, true).unwrap();
        lemma_string_strict(b3);
        let (v, b4) = TextMessagePacketView::parse(b, true).unwrap();
        assert(b2 =~= v.source_bytes() + b3);
        assert(b =~= v.wire_bytes() + b4);
    }
}

impl TextMessagePacket {
    /// Whether the record can be written.
    pub fn fits_wire(&self) -> (ok: bool)
        ensures
            ok == self@.fits(),
    {
        let source_ok: bool = match &self.source_name {
            Some(name) => self.message_type.names_source() && name.as_str().as_bytes().len()
                <= 0xffff_ffff,
            None => !self.message_type.names_source(),
        };
        source_ok && self.message.as_str().as_bytes().len() <= 0xffff_ffff
    }

    /// Appends the record to `stream`. A record that cannot be written is
    /// refused as out of range, and nothing is appended.
    pub fn proto_serialize(&self, stream: &mut Vec<u8>) -> (res: Result<(), CodecError>)
        ensures
            self@.fits() ==> res is Ok && final(stream)@ == old(stream)@ + self@.wire_bytes(),
            !self@.fits() ==> res == Err::<(), CodecError>(CodecError::OutOfRange) && final(stream)@
                == old(stream)@,
    {
        if !self.fits_wire() {
            return Err(CodecError::OutOfRange);
        }
        write_uint(stream, self.message_type.to_tag() as u64, IntSize::B1, ByteOrder::LittleEndian);
        write_bool(stream, self.needs_translation);
        match &self.source_name {
            Some(name) => {
                write_string(stream, name.as_str())?;
            },
            None => {},
        }
        write_string(stream, self.message.as_str())?;
        assert(stream@ =~= old(stream)@ + self@.wire_bytes());
        Ok(())
    }

    /// Reads a record from `stream`. What is read can be written again.
    pub fn proto_deserialize(stream: &mut ByteReader) -> (res: Result<
        TextMessagePacket,
        CodecError,
    >)
        ensures
            match TextMessagePacketView::parse(old(stream).remaining(), false) {
                Ok((v, rest)) => res is Ok
                    && res.unwrap()@ == v
                    && v.fits()
                    && final(stream).remaining() == rest,
                Err(e) => res == Err::<TextMessagePacket, CodecError>(e),
            },
    {
        proof {
            reveal(TextMessagePacketView::parse);
        }
        let tag: u8 = read_uint(stream, IntSize::B1, ByteOrder::LittleEndian)? as u8;
        let message_type: TextMessageType = match TextMessageType::from_tag(tag) {
            Some(kind) => kind,
            None => {
                return Err(
                    CodecError::UnknownVariant {
                        union: UnionKind::TextMessageType,
                        tag: tag as u64,
                    },
                );
            },
        };
        let needs_translation: bool = read_bool(stream)?;
        let source_name: Option<String> = if message_type.names_source() {
            Some(read_string(stream)?)
        } else {
            None
        };
        let message: String = read_string(stream)?;
        Ok(TextMessagePacket { message_type, needs_translation, source_name, message })
    }
}

} // verus!
