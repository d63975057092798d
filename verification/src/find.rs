use crate::ident::{narrow, narrowed};
use crate::memory_manager::MemoryManager;
use vstd::prelude::*;

verus! {

impl<const C: usize> MemoryManager<C> {
    /// The bytes that `id` owns, borrowed in place. The borrow covers the
    /// region and nothing past it, and lasts no longer than the borrow of
    /// the manager. A number too wide for an identifier finds nothing.
    pub fn find(&self, id: usize) -> (found: Option<&[u8]>)
        ensures
            match found {
                Some(bytes) => narrowed(id) is Some && self@.table.contains_key(narrowed(id)->0)
                    && bytes@ == self@.contents(narrowed(id)->0),
                None => narrowed(id) is None || !self@.table.contains_key(narrowed(id)->0),
            },
    {
        proof {
            use_type_invariant(self);
        }
        match narrow(id) {
            Some(short) => match self.region(short) {
                Some(region) => Some(self.span(region)),
                None => None,
            },
            None => None,
        }
    }
}

} // verus!
