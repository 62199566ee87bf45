//! The failures that reading level data can report.

use vstd::prelude::*;
use crate::level_dat::abilities::AbilityKey;
use crate::nbt::TagKind;

verus! {

/// What can be wrong with the format of level data.
#[derive(Debug, Clone, Copy, PartialEq, Eq)]
pub enum FormatFault {
    /// The root tag is of another kind than a compound.
    RootNotCompound { found: TagKind },
    /// A mandatory entry is missing.
    MissingField { key: AbilityKey },
    /// An entry is of another kind than expected.
    WrongType { key: AbilityKey, expected: TagKind, found: TagKind },
    /// An integer stands for no permission level.
    PermissionOutOfBounds { key: AbilityKey, value: i32 },
}

/// Why level data could not be read.
#[derive(Debug, Clone, Copy, PartialEq, Eq)]
pub enum WorldError {
    /// The data is not in the format expected.
    FormatError(FormatFault),
}

} // verus!
