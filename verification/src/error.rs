use vstd::prelude::*;

verus! {

/// Why an arena operation was refused. Every refusal leaves the arena untouched.
#[derive(Clone, Copy, Debug, PartialEq, Eq, Structural)]
pub enum ArenaError {
    /// An insert named an identifier that already owns a region.
    DuplicateId,
    /// An insert asked for more bytes than remain past the free cursor.
    OutOfSpace,
    /// The identifier owns no region.
    NotFound,
    /// An update carried more bytes than the region holds.
    SizeExceeded,
}

} // verus!
