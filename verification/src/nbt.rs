//! Named binary tags, as the values that readers of level data take.
//!
//! The binary format of the tags is not read here: whoever decodes it hands
//! over the decoded value.

use vstd::prelude::*;
use crate::types::Float32;

verus! {

/// An IEEE-754 double-precision number, held as its 64 bits.
#[derive(Debug, Clone, Copy, PartialEq, Eq)]
pub struct Float64 {
    /// The sign, exponent and fraction bits.
    pub bits: u64,
}

/// The kinds of tag.
#[derive(Debug, Clone, Copy, PartialEq, Eq)]
pub enum TagKind {
    Byte,
    Short,
    Int,
    Long,
    Float,
    Double,
    ByteArray,
    String,
    List,
    Compound,
    IntArray,
    LongArray,
}

/// A tag value. A compound holds its entries in the order they were read;
/// where a name occurs twice, the first entry counts.
#[derive(Debug, PartialEq, Eq)]
pub enum NbtValue {
    Byte(i8),
    Short(i16),
    Int(i32),
    Long(i64),
    Float(Float32),
    Double(Float64),
    ByteArray(Vec<u8>),
    String(String),
    List(Vec<NbtValue>),
    Compound(Vec<(String, NbtValue)>),
    IntArray(Vec<i32>),
    LongArray(Vec<i64>),
}

impl NbtValue {
    /// The kind of the tag.
    pub open spec fn kind(self) -> TagKind {
        match self {
            NbtValue::Byte(_) => TagKind::Byte,
            NbtValue::Short(_) => TagKind::Short,
            NbtValue::Int(_) => TagKind::Int,
            NbtValue::Long(_) => TagKind::Long,
            NbtValue::Float(_) => TagKind::Float,
            NbtValue::Double(_) => TagKind::Double,
            NbtValue::ByteArray(_) => TagKind::ByteArray,
            NbtValue::String(_) => TagKind::String,
            NbtValue::List(_) => TagKind::List,
            NbtValue::Compound(_) => TagKind::Compound,
            NbtValue::IntArray(_) => TagKind::IntArray,
            NbtValue::LongArray(_) => TagKind::LongArray,
        }
    }

    /// The kind of the tag.
    pub fn tag_kind(&self) -> (kind: TagKind)
        ensures
            kind == self.kind(),
    {
        match self {
            NbtValue::Byte(_) => TagKind::Byte,
            NbtValue::Short(_) => TagKind::Short,
            NbtValue::Int(_) => TagKind::Int,
            NbtValue::Long(_) => TagKind::Long,
            NbtValue::Float(_) => TagKind::Float,
            NbtValue::Double(_) => TagKind::Double,
            NbtValue::ByteArray(_) => TagKind::ByteArray,
            NbtValue::String(_) => TagKind::String,
            NbtValue::List(_) => TagKind::List,
            NbtValue::Compound(_) => TagKind::Compound,
            NbtValue::IntArray(_) => TagKind::IntArray,
            NbtValue::LongArray(_) => TagKind::LongArray,
        }
    }
}

/// The value of the first entry named `key`, if there is one.
pub open spec fn lookup(entries: Seq<(String, NbtValue)>, key: Seq<char>) -> Option<NbtValue>
    decreases entries.len(),
{
    if entries.len() == 0 {
        None
    } else if entries[0].0@ == key {
        Some(entries[0].1)
    } else {
        lookup(entries.skip(1), key)
    }
}

/// The value of the first entry named `key`, if there is one.
pub fn find<'a>(entries: &'a Vec<(String, NbtValue)>, key: &str) -> (found: Option<&'a NbtValue>)
    ensures
        match lookup(entries@, key@) {
            Some(value) => found is Some && *found.unwrap() == value,
            None => found is None,
        },
{
    let wanted: String = key.to_owned();
    let mut i: usize = 0;
    assert(entries@.skip(0) =~= entries@);
    while i < entries.len()
        invariant
            i <= entries@.len(),
            wanted@ == key@,
            lookup(entries@, key@) == lookup(entries@.skip(i as int), key@),
        decreases entries@.len() - i,
    {
        assert(entries@.skip(i as int)[0] == entries@[i as int]);
        assert(entries@.skip(i as int).skip(1) =~= entries@.skip(i + 1));
        if entries[i].0 == wanted {
            return Some(&entries[i].1);
        }
        i = i + 1;
    }
    None
}

} // verus!
