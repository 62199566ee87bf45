//! Codec for the game packets of the Bedrock Edition network protocol, and a
//! reader for the abilities in the level data of a world.
//!
//! A game packet travels as a frame: the length of what follows, a header
//! that packs the packet identifier with two sub-client routing fields, and
//! the body of the packet. The codec is built in layers, leaves first:
//!
//! - [`reader`]: the cursor that every decoder reads from;
//! - [`varint`]: unsigned base-128 varints and signed zig-zag varints;
//! - [`wire`]: fixed-width integers, booleans, strings and byte blobs;
//! - [`types`]: the value types that packets share;
//! - [`packets`]: one record for each packet whose layout is defined;
//! - [`header`] and [`frame`]: the header bit-packing and the frame layout;
//! - [`gamepacket`]: the packet union, the identifier table, and the two
//!   operations `pk_serialize` and `pk_deserialize`;
//! - [`laws`]: what holds of frames as a whole.
//!
//! Every layer states what it writes and reads over byte sequences: a spec
//! function gives the bytes of a value, another reads a value off the front
//! of a byte sequence, and the executable functions are proved to do what
//! those say. Readers come in two modes. The lenient mode is what the
//! executable decoders do: it accepts varints of any length their width
//! allows and any non-zero byte as a true boolean. The strict mode exists
//! in specifications only: it accepts exactly what the encoders emit.
//!
//! [`nbt`] and [`level_dat`] stand apart from the codec: they read the
//! default abilities of players out of a decoded tag.

pub mod error;
pub mod frame;
pub mod gamepacket;
pub mod header;
pub mod laws;
pub mod level_dat;
pub mod nbt;
pub mod packets;
pub mod reader;
pub mod types;
pub mod varint;
pub mod wire;
