use crate::error::ArenaError;
use crate::ident::{narrow, narrowed};
use crate::memory_manager::MemoryManager;
use vstd::prelude::*;

verus! {

/// The read command: a copy of what the identifier numbered `id` owns. A
/// number too wide for an identifier is not found.
pub fn read<const C: usize>(manager: &MemoryManager<C>, id: usize) -> (res: Result<
    Vec<u8>,
    ArenaError,
>)
    ensures
        match narrowed(id) {
            Some(short) => match res {
                Ok(data) => manager@.read(short) == Ok::<Seq<u8>, ArenaError>(data@),
                Err(e) => manager@.read(short) == Err::<Seq<u8>, ArenaError>(e),
            },
            None => res == Err::<Vec<u8>, ArenaError>(ArenaError::NotFound),
        },
{
    match narrow(id) {
        Some(short) => manager.read(short),
        None => Err(ArenaError::NotFound),
    }
}

} // verus!
