use crate::memory_manager::MemoryManager;
use vstd::prelude::*;

verus! {

/// One line of a dump: a live identifier, its region, and the region's bytes
/// both raw and as text.
#[derive(Debug, PartialEq, Eq)]
pub struct DumpEntry {
    pub id: u16,
    pub start: usize,
    pub size: usize,
    pub data: Vec<u8>,
    pub text: String,
}

/// The dump command: every live allocation of `manager`, once each.
pub fn dump<const C: usize>(manager: &MemoryManager<C>) -> (entries: Vec<DumpEntry>)
    ensures
        manager@.dumped_as(entries@),
        entries@.len() == manager@.table.dom().len(),
{
    manager.dump()
}

} // verus!
