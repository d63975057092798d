use crate::error::ArenaError;
use crate::memory_manager::MemoryManager;
use vstd::prelude::*;

verus! {

/// The insert command: stores `data` under `id` and reports how it went.
pub fn insert<const C: usize>(manager: &mut MemoryManager<C>, id: u16, data: Vec<u8>) -> (res:
    Result<(), ArenaError>)
    ensures
        res == old(manager)@.insert_outcome(id, data@),
        final(manager)@ == old(manager)@.after_insert(id, data@),
{
    manager.insert(id, data)
}

} // verus!
