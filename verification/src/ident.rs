use vstd::prelude::*;

verus! {

/// The identifier that a wide number names: itself where it fits in sixteen
/// bits, none where it does not. A wide number is never cut down to fit.
pub open spec fn narrowed(id: usize) -> Option<u16> {
    if id <= u16::MAX {
        Some(id as u16)
    } else {
        None
    }
}

/// Narrows a wide number to an identifier, or reports that it names none.
pub fn narrow(id: usize) -> (short: Option<u16>)
    ensures
        short == narrowed(id),
{
    if id <= u16::MAX as usize {
        Some(id as u16)
    } else {
        None
    }
}

} // verus!
