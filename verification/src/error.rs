//! The closed set of failures that encoding and decoding can report.

use vstd::prelude::*;

verus! {

/// Why an encode or decode call failed.
#[derive(Debug, Clone, Copy, PartialEq, Eq, Structural)]
pub enum CodecError {
    /// Fewer bytes were available than the wire format asked for.
    Truncated,
    /// A frame held bytes beyond the end of its packet's shape.
    TrailingBytes,
    /// A varint ran past the longest encoding its width allows.
    OverlongVarint,
    /// A varint's value does not fit its width.
    VarintOverflow,
    /// A string's bytes were not valid UTF-8.
    InvalidUtf8,
    /// The header's ten identifier bits name no packet.
    UnknownPacketId(u16),
    /// A tagged union's discriminant names no variant.
    UnknownVariant { union: UnionKind, tag: u64 },
    /// The identifier names a packet whose shape is not defined.
    UnimplementedPacket(u16),
    /// A value lies outside the set its field allows.
    OutOfRange,
}

/// The tagged unions of the wire format, named in [`CodecError::UnknownVariant`].
#[derive(Debug, Clone, Copy, PartialEq, Eq, Structural)]
pub enum UnionKind {
    /// The kind of a text message.
    TextMessageType,
    /// The value of a game rule.
    GameRuleValue,
}

} // verus!
