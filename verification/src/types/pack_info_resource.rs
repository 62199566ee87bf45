//! The description of a pack in the resource-pack offer.

use vstd::prelude::*;
use crate::error::CodecError;
use crate::reader::ByteReader;
use crate::varint::Parsed;
use crate::wire::{
    bool_bytes, ByteOrder, IntSize, lemma_bool_round_trip, lemma_bool_strict,
    lemma_string_round_trip, lemma_string_strict, lemma_uint_parse_is_bytes, lemma_uint_round_trip,
    parse_bool, parse_string, parse_uint, read_bool, read_string, read_uint, string_bytes,
    string_fits, uint_bytes, write_bool, write_string, write_uint,
};

verus! {

/// A pack as the resource-pack offer lists it.
#[derive(Debug, Clone, PartialEq, Eq)]
pub struct ResourcePackInfo {
    /// The UUID of the pack, as text.
    pub id: String,
    /// The version of the pack.
    pub version: String,
    /// The size of the pack in bytes.
    pub size: u64,
    /// The key that decrypts the pack, or nothing.
    pub content_key: String,
    /// The name of the sub-pack in use, or nothing.
    pub sub_pack_name: String,
    /// The identity under which the content is sold, or nothing.
    pub content_identity: String,
    /// Whether the pack holds scripts.
    pub has_scripts: bool,
    /// Whether the pack can be rendered with ray tracing.
    pub raytracing_capable: bool,
}

/// The content of a [`ResourcePackInfo`], as mathematical values.
pub struct ResourcePackInfoView {
    pub id: Seq<char>,
    pub version: Seq<char>,
    pub size: u64,
    pub content_key: Seq<char>,
    pub sub_pack_name: Seq<char>,
    pub content_identity: Seq<char>,
    pub has_scripts: bool,
    pub raytracing_capable: bool,
}

impl View for ResourcePackInfo {
    type V = ResourcePackInfoView;

    open spec fn view(&self) -> ResourcePackInfoView {
        ResourcePackInfoView {
            id: self.id@,
            version: self.version@,
            size: self.size,
            content_key: self.content_key@,
            sub_pack_name: self.sub_pack_name@,
            content_identity: self.content_identity@,
            has_scripts: self.has_scripts,
            raytracing_capable: self.raytracing_capable,
        }
    }
}

impl ResourcePackInfoView {
    /// Whether every length in the record fits its length prefix, so that
    /// the record can be written.
    pub open spec fn fits(self) -> bool {
        string_fits(self.id)
            && string_fits(self.version)
            && string_fits(self.content_key)
            && string_fits(self.sub_pack_name)
            && string_fits(self.content_identity)
    }

    /// The bytes of the record: those of its fields, in order.
    pub open spec fn wire_bytes(self) -> Seq<u8> {
        string_bytes(self.id)
            + string_bytes(self.version)
            + uint_bytes(self.size as nat, IntSize::B8, ByteOrder::LittleEndian)
            + string_bytes(self.content_key)
            + string_bytes(self.sub_pack_name)
            + string_bytes(self.content_identity)
            + bool_bytes(self.has_scripts)
            + bool_bytes(self.raytracing_capable)
    }

    /// Reads the record off the front of `b`, field by field. The first
    /// field that fails gives the error.
    #[verifier::opaque]
    pub open spec fn parse(b: Seq<u8>, strict: bool) -> Parsed<ResourcePackInfoView> {
        match parse_string(b, strict) {
            Err(e) => Err(e),
            Ok((id, b1)) => match parse_string(b1, strict) {
                Err(e) => Err(e),
                Ok((version, b2)) => match parse_uint(b2, IntSize::B8, ByteOrder::LittleEndian) {
                    Err(e) => Err(e),
                    Ok((size, b3)) => match parse_string(b3, strict) {
                        Err(e) => Err(e),
                        Ok((content_key, b4)) => match parse_string(b4, strict) {
                            Err(e) => Err(e),
                            Ok((sub_pack_name, b5)) => match parse_string(b5, strict) {
                                Err(e) => Err(e),
                                Ok((content_identity, b6)) => match parse_bool(b6, strict) {
                                    Err(e) => Err(e),
                                    Ok((has_scripts, b7)) => match parse_bool(b7, strict) {
                                        Err(e) => Err(e),
                                        Ok((raytracing_capable, b8)) => Ok(
                                            (
                                                ResourcePackInfoView {
                                                    id,
                                                    version,
                                                    size: size as u64,
                                                    content_key,
                                                    sub_pack_name,
                                                    content_identity,
                                                    has_scripts,
                                                    raytracing_capable,
                                                },
                                                b8,
                                            ),
                                        ),
                                    },
                                },
                            },
                        },
                    },
                },
            },
        }
    }

    /// Reading the bytes of a record that fits gives the record back and
    /// leaves what followed, in strict mode too.
    pub proof fn lemma_round_trip(self, rest: Seq<u8>, strict: bool)
        requires
            self.fits(),
        ensures
            ResourcePackInfoView::parse(self.wire_bytes() + rest, strict) == Ok::<
                (ResourcePackInfoView, Seq<u8>),
                CodecError,
            >((self, rest)),
    {
        reveal(ResourcePackInfoView::parse);
        let r8 = rest;
        let r7 = bool_bytes(self.raytracing_capable) + r8;
        let r6 = bool_bytes(self.has_scripts) + r7;
        let r5 = string_bytes(self.content_identity) + r6;
        let r4 = string_bytes(self.sub_pack_name) + r5;
        let r3 = string_bytes(self.content_key) + r4;
        let r2 = uint_bytes(self.size as nat, IntSize::B8, ByteOrder::LittleEndian) + r3;
        let r1 = string_bytes(self.version) + r2;
        let r0 = string_bytes(self.id) + r1;
        lemma_string_round_trip(self.id, r1, strict);
        lemma_string_round_trip(self.version, r2, strict);
        lemma_uint_round_trip(self.size as nat, IntSize::B8, ByteOrder::LittleEndian, r3);
        lemma_string_round_trip(self.content_key, r4, strict);
        lemma_string_round_trip(self.sub_pack_name, r5, strict);
        lemma_string_round_trip(self.content_identity, r6, strict);
        lemma_bool_round_trip(self.has_scripts, r7, strict);
        lemma_bool_round_trip(self.raytracing_capable, r8, strict);
        assert(self.wire_bytes() + rest =~= r0);
    }

    /// Whatever reads as a record in strict mode is the bytes of that record,
    /// followed by the bytes left over; the lenient reader agrees.
    pub proof fn lemma_strict(b: Seq<u8>)
        requires
            ResourcePackInfoView::parse(b, true) is Ok,
        ensures
            ResourcePackInfoView::parse(b, false) == ResourcePackInfoView::parse(b, true),
            ({
                let (v, rest) = ResourcePackInfoView::parse(b, true).unwrap();
                v.fits() && b == v.wire_bytes() + rest
            }),
    {
        reveal(ResourcePackInfoView::parse);
        let strict = true;
        lemma_string_strict(b);
        let b1 = parse_string(b, strict).unwrap().1;
        lemma_string_strict(b1);
        let b2 = parse_string(b1, strict).unwrap().1;
        lemma_uint_parse_is_bytes(b2, IntSize::B8, ByteOrder::LittleEndian);
        let b3 = parse_uint(b2, IntSize::B8, ByteOrder::LittleEndian).unwrap().1;
        lemma_string_strict(b3);
        let b4 = parse_string(b3, strict).unwrap().1;
        lemma_string_strict(b4);
        let b5 = parse_string(b4, strict).unwrap().1;
        lemma_string_strict(b5);
        let b6 = parse_string(b5, strict).unwrap().1;
        lemma_bool_strict(b6);
        let b7 = parse_bool(b6, strict).unwrap().1;
        lemma_bool_strict(b7);
        let b8 = parse_bool(b7, strict).unwrap().1;
        assert(b =~= ResourcePackInfoView::parse(b, true).unwrap().0.wire_bytes() + b8);
    }
}

impl ResourcePackInfo {
    /// Whether every length in the record fits its length prefix.
    pub fn fits_wire(&self) -> (ok: bool)
        ensures
            ok == self@.fits(),
    {
        self.id.as_str().as_bytes().len() <= 0xffff_ffff
            && self.version.as_str().as_bytes().len() <= 0xffff_ffff
            && self.content_key.as_str().as_bytes().len() <= 0xffff_ffff
            && self.sub_pack_name.as_str().as_bytes().len() <= 0xffff_ffff
            && self.content_identity.as_str().as_bytes().len() <= 0xffff_ffff
    }

    /// Appends the record to `stream`. A record that does not fit is refused
    /// as out of range, and nothing is appended.
    pub fn proto_serialize(&self, stream: &mut Vec<u8>) -> (res: Result<(), CodecError>)
        ensures
            self@.fits() ==> res is Ok && final(stream)@ == old(stream)@ + self@.wire_bytes(),
            !self@.fits() ==> res == Err::<(), CodecError>(CodecError::OutOfRange) && final(stream)@
                == old(stream)@,
    {
        if !self.fits_wire() {
            return Err(CodecError::OutOfRange);
        }
        write_string(stream, self.id.as_str())?;
        write_string(stream, self.version.as_str())?;
        write_uint(stream, self.size as u64, IntSize::B8, ByteOrder::LittleEndian);
        write_string(stream, self.content_key.as_str())?;
        write_string(stream, self.sub_pack_name.as_str())?;
        write_string(stream, self.content_identity.as_str())?;
        write_bool(stream, self.has_scripts);
        write_bool(stream, self.raytracing_capable);
        assert(stream@ =~= old(stream)@ + self@.wire_bytes());
        Ok(())
    }

    /// Reads a record from `stream`, field by field. What is read fits, and
    /// so can be written again.
    pub fn proto_deserialize(stream: &mut ByteReader) -> (res: Result<ResourcePackInfo, CodecError>)
        ensures
            match ResourcePackInfoView::parse(old(stream).remaining(), false) {
                Ok((v, rest)) => res is Ok
                    && res.unwrap()@ == v
                    && v.fits()
                    && final(stream).remaining() == rest,
                Err(e) => res == Err::<ResourcePackInfo, CodecError>(e),
            },
    {
        proof {
            reveal(ResourcePackInfoView::parse);
        }
        let id: String = read_string(stream)?;
        let version: String = read_string(stream)?;
        let size: u64 = read_uint(stream, IntSize::B8, ByteOrder::LittleEndian)? as u64;
        let content_key: String = read_string(stream)?;
        let sub_pack_name: String = read_string(stream)?;
        let content_identity: String = read_string(stream)?;
        let has_scripts: bool = read_bool(stream)?;
        let raytracing_capable: bool = read_bool(stream)?;
        Ok(
            ResourcePackInfo {
                id,
                version,
                size,
                content_key,
                sub_pack_name,
                content_identity,
                has_scripts,
                raytracing_capable,
            },
        )
    }
}

} // verus!
