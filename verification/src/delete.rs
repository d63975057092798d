use crate::error::ArenaError;
use crate::ident::{narrow, narrowed};
use crate::memory_manager::MemoryManager;
use vstd::prelude::*;

verus! {

/// The delete command: zeroes and forgets what the identifier numbered `id`
/// owns. A number too wide for an identifier is not found, and nothing
/// changes.
pub fn delete<const C: usize>(manager: &mut MemoryManager<C>, id: usize) -> (res: Result<
    (),
    ArenaError,
>)
    ensures
        match narrowed(id) {
            Some(short) => res == old(manager)@.delete_outcome(short) && final(manager)@ == old(
                manager,
            )@.after_delete(short),
            None => res == Err::<(), ArenaError>(ArenaError::NotFound) && final(manager)@ == old(
                manager,
            )@,
        },
{
    match narrow(id) {
        Some(short) => manager.delete(short),
        None => Err(ArenaError::NotFound),
    }
}

} // verus!
