//! The frame header: a ten-bit packet identifier and two two-bit sub-client
//! fields, packed into one number of fourteen bits.

use vstd::prelude::*;

verus! {

/// Number of values of the identifier field.
pub const ID_LIMIT: u32 = 1024;

/// Number of values of each sub-client field.
pub const SUB_CLIENT_LIMIT: u32 = 4;

/// Number of values of the header.
pub const HEADER_LIMIT: u32 = 16384;

/// The header that carries `id`, `sender` and `target`: the identifier in
/// the low ten bits, the sender in the next two, the target in the two
/// above.
pub open spec fn header_value(id: u16, sender: u8, target: u8) -> nat {
    (target * 4096 + sender * 1024 + id) as nat
}

/// The identifier field of the header `h`.
pub open spec fn header_id(h: nat) -> u16 {
    (h % 1024) as u16
}

/// The sub-client sender field of the header `h`, as a number from zero to
/// three.
pub open spec fn header_sender(h: nat) -> u8 {
    (h / 1024 % 4) as u8
}

/// The sub-client target field of the header `h`, as a number from zero to
/// three.
pub open spec fn header_target(h: nat) -> u8 {
    (h / 4096 % 4) as u8
}

/// Whether three values fit the fields of a header.
pub open spec fn header_fields_fit(id: u16, sender: u8, target: u8) -> bool {
    id < ID_LIMIT && sender < SUB_CLIENT_LIMIT && target < SUB_CLIENT_LIMIT
}

/// Packing and unpacking undo each other: three values that fit their
/// fields come back out of their header, and a header below the limit is
/// the header of its three fields.
pub proof fn lemma_header_fields(id: u16, sender: u8, target: u8, h: nat)
    ensures
        header_fields_fit(id, sender, target) ==> {
            &&& header_value(id, sender, target) < HEADER_LIMIT
            &&& header_id(header_value(id, sender, target)) == id
            &&& header_sender(header_value(id, sender, target)) == sender
            &&& header_target(header_value(id, sender, target)) == target
        },
        h < HEADER_LIMIT ==> {
            &&& header_fields_fit(header_id(h), header_sender(h), header_target(h))
            &&& header_value(header_id(h), header_sender(h), header_target(h)) == h
        },
{
}

/// The header is the bit-packing `(target << 12) | (sender << 10) | id`, and
/// its fields are the masks and shifts that undo it.
pub proof fn lemma_header_is_bit_packing(id: u16, sender: u8, target: u8, h: u32)
    requires
        header_fields_fit(id, sender, target),
        h < HEADER_LIMIT,
    ensures
        header_value(id, sender, target) == ((target as u32) << 12) | ((sender as u32) << 10) | (
        id as u32),
        header_id(h as nat) == h & 0x03ff,
        header_sender(h as nat) == (h & 0x0c00) >> 10,
        header_target(h as nat) == (h & 0x3000) >> 12,
{
    let i: u32 = id as u32;
    let s: u32 = sender as u32;
    let t: u32 = target as u32;
    assert(i < 1024 && s < 4 && t < 4 ==> (t << 12) | (s << 10) | i == t * 4096 + s * 1024 + i)
        by (bit_vector);
    assert(h < 16384 ==> h & 0x03ff == h % 1024) by (bit_vector);
    assert(h < 16384 ==> (h & 0x0c00) >> 10 == h / 1024 % 4) by (bit_vector);
    assert(h < 16384 ==> (h & 0x3000) >> 12 == h / 4096 % 4) by (bit_vector);
}

/// Packs `id`, `sender` and `target` into a header, or gives nothing if one
/// of them does not fit its field.
pub fn pack_header(id: u16, sender: u8, target: u8) -> (h: Option<u32>)
    ensures
        h == if header_fields_fit(id, sender, target) {
            Some(header_value(id, sender, target) as u32)
        } else {
            None
        },
{
    if id < 1024 && sender < 4 && target < 4 {
        Some(target as u32 * 4096 + sender as u32 * 1024 + id as u32)
    } else {
        None
    }
}

/// Unpacks the header `h` into identifier, sender and target, or gives
/// nothing if `h` has bits above the fourteenth.
pub fn unpack_header(h: u32) -> (fields: Option<(u16, u8, u8)>)
    ensures
        fields == if h < HEADER_LIMIT {
            Some((header_id(h as nat), header_sender(h as nat), header_target(h as nat)))
        } else {
            None
        },
{
    if h < 16384 {
        Some(((h % 1024) as u16, (h / 1024 % 4) as u8, (h / 4096 % 4) as u8))
    } else {
        None
    }
}

} // verus!
