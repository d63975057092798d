use crate::error::ArenaError;
use crate::ident::{narrow, narrowed};
use crate::memory_manager::MemoryManager;
use vstd::prelude::*;

verus! {

/// The update command: replaces what the identifier numbered `id` owns by
/// `data`. A number too wide for an identifier is not found, and nothing
/// changes.
pub fn update<const C: usize>(manager: &mut MemoryManager<C>, id: usize, data: Vec<u8>) -> (res:
    Result<(), ArenaError>)
    ensures
        match narrowed(id) {
            Some(short) => res == old(manager)@.update_outcome(short, data@) && final(manager)@
                == old(manager)@.after_update(short, data@),
            None => res == Err::<(), ArenaError>(ArenaError::NotFound) && final(manager)@ == old(
                manager,
            )@,
        },
{
    match narrow(id) {
        Some(short) => manager.update(short, data),
        None => Err(ArenaError::NotFound),
    }
}

} // verus!
