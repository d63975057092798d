use crate::arena::{overwrite, zeros, Arena};
use crate::dump::DumpEntry;
use crate::error::ArenaError;
use crate::region::Region;
use crate::text::decode_lossy;
use std::collections::HashMap;
use vstd::prelude::*;
use vstd::slice::slice_to_vec;
use vstd::std_specs::hash::spec_hash_map_iter;
use vstd::std_specs::iter::IteratorSpec;

verus! {

broadcast use vstd::std_specs::hash::group_hash_axioms;

/// The capacity of the customary arena.
pub const DEFAULT_CAPACITY: usize = 65535;

/// A bump arena of exactly `C` bytes. Identifiers own regions of it; space
/// is only ever claimed at the free cursor and never handed back.
pub struct MemoryManager<const C: usize> {
    memory: [u8; C],
    allocations: HashMap<u16, Region>,
    next_free: usize,
}

impl<const C: usize> View for MemoryManager<C> {
    type V = Arena;

    closed spec fn view(&self) -> Arena {
        Arena { bytes: self.memory@, table: self.allocations@, cursor: self.next_free as nat }
    }
}

impl<const C: usize> MemoryManager<C> {
    /// Holds of every manager at every moment: its arena is well formed and
    /// spans exactly `C` bytes.
    #[verifier::type_invariant]
    pub open spec fn wf(&self) -> bool {
        self@.wf() && self@.capacity() == C
    }

    /// An empty arena: `C` zero bytes, no allocation, the cursor at 0.
    pub fn new() -> (manager: Self)
        ensures
            manager@ == Arena::empty(C as nat),
    {
        let manager = MemoryManager { memory: [0u8; C], allocations: HashMap::new(), next_free: 0 };
        assert(manager.memory@ =~= zeros(C as nat));
        manager
    }

    /// The offset at which the next insert will place its bytes.
    pub fn free_cursor(&self) -> (cursor: usize)
        ensures
            cursor == self@.cursor,
    {
        self.next_free
    }

    /// The region that `id` owns, if it owns one.
    pub fn region(&self, id: u16) -> (found: Option<Region>)
        ensures
            found == (if self@.table.contains_key(id) {
                Some(self@.table[id])
            } else {
                None
            }),
    {
        match self.allocations.get(&id) {
            Some(region) => Some(*region),
            None => None,
        }
    }

    /// The bytes of `region`, borrowed from the buffer.
    pub(crate) fn span(&self, region: Region) -> (bytes: &[u8])
        requires
            region.end() <= C,
        ensures
            bytes@ == self@.bytes.subrange(region.start as int, region.end()),
    {
        &self.memory[region.start..region.start + region.size]
    }

    /// Copies `data` into the buffer from `start` on, below the cursor.
    fn write_at(&mut self, start: usize, data: &[u8])
        requires
            start + data@.len() <= old(self)@.cursor,
        ensures
            final(self)@ == (Arena {
                bytes: overwrite(old(self)@.bytes, start as int, data@),
                ..old(self)@
            }),
    {
        proof {
            use_type_invariant(&*self);
        }
        let mut i: usize = 0;
        while i < data.len()
            invariant
                i <= data@.len(),
                start + data@.len() <= self.next_free,
                self.wf(),
                self.allocations == old(self).allocations,
                self.next_free == old(self).next_free,
                self.memory@ == overwrite(old(self).memory@, start as int, data@.take(i as int)),
            decreases data@.len() - i,
        {
            self.memory[start + i] = data[i];
            i += 1;
        }
        assert(data@.take(i as int) =~= data@);
    }

    /// Zeroes `len` bytes of the buffer from `start` on.
    fn zero_fill(&mut self, start: usize, len: usize)
        requires
            start + len <= C,
        ensures
            final(self)@ == (Arena {
                bytes: overwrite(old(self)@.bytes, start as int, zeros(len as nat)),
                ..old(self)@
            }),
    {
        proof {
            use_type_invariant(&*self);
        }
        let mut i: usize = 0;
        while i < len
            invariant
                i <= len,
                start + len <= C,
                self.wf(),
                self.allocations == old(self).allocations,
                self.next_free == old(self).next_free,
                self.memory@ == overwrite(old(self).memory@, start as int, zeros(i as nat)),
            decreases len - i,
        {
            self.memory[start + i] = 0;
            i += 1;
        }
    }

    /// Stores `data` under `id` at the free cursor and moves the cursor past
    /// it. Refused, with nothing changed, when `id` is taken or when `data`
    /// is longer than the space that remains.
    pub fn insert(&mut self, id: u16, data: Vec<u8>) -> (res: Result<(), ArenaError>)
        ensures
            res == old(self)@.insert_outcome(id, data@),
            final(self)@ == old(self)@.after_insert(id, data@),
    {
        proof {
            use_type_invariant(&*self);
        }
        if self.allocations.contains_key(&id) {
            return Err(ArenaError::DuplicateId);
        }
        let size: usize = data.len();
        if size > C - self.next_free {
            return Err(ArenaError::OutOfSpace);
        }
        let start: usize = self.next_free;
        self.next_free = start + size;
        let mut table: HashMap<u16, Region> = HashMap::new();
        std::mem::swap(&mut table, &mut self.allocations);
        table.insert(id, Region { start, size });
        std::mem::swap(&mut table, &mut self.allocations);
        self.write_at(start, data.as_slice());
        Ok(())
    }

    /// A copy of the bytes that `id` owns, at the region's full width.
    pub fn read(&self, id: u16) -> (res: Result<Vec<u8>, ArenaError>)
        ensures
            match res {
                Ok(data) => self@.read(id) == Ok::<Seq<u8>, ArenaError>(data@),
                Err(e) => self@.read(id) == Err::<Seq<u8>, ArenaError>(e),
            },
    {
        proof {
            use_type_invariant(self);
        }
        match self.allocations.get(&id) {
            Some(region) => Ok(slice_to_vec(self.span(*region))),
            None => Err(ArenaError::NotFound),
        }
    }

    /// Replaces the contents of `id` by `data`, zero-padded to the region's
    /// size. Refused, with nothing changed, when `id` owns no region or when
    /// `data` is longer than the region.
    pub fn update(&mut self, id: u16, data: Vec<u8>) -> (res: Result<(), ArenaError>)
        ensures
            res == old(self)@.update_outcome(id, data@),
            final(self)@ == old(self)@.after_update(id, data@),
    {
        proof {
            use_type_invariant(&*self);
        }
        let region = match self.allocations.get(&id) {
            Some(region) => *region,
            None => {
                return Err(ArenaError::NotFound);
            },
        };
        if data.len() > region.size {
            return Err(ArenaError::SizeExceeded);
        }
        self.write_at(region.start, data.as_slice());
        self.zero_fill(region.start + data.len(), region.size - data.len());
        assert(self@.bytes =~= overwrite(
            old(self)@.bytes,
            region.start as int,
            data@ + zeros((region.size - data@.len()) as nat),
        ));
        Ok(())
    }

    /// Zeroes the region of `id` and forgets `id`. The cursor does not move
    /// back: the region's bytes are never handed out again.
    pub fn delete(&mut self, id: u16) -> (res: Result<(), ArenaError>)
        ensures
            res == old(self)@.delete_outcome(id),
            final(self)@ == old(self)@.after_delete(id),
    {
        proof {
            use_type_invariant(&*self);
        }
        let mut table: HashMap<u16, Region> = HashMap::new();
        std::mem::swap(&mut table, &mut self.allocations);
        let removed = table.remove(&id);
        std::mem::swap(&mut table, &mut self.allocations);
        match removed {
            Some(region) => {
                self.zero_fill(region.start, region.size);
                Ok(())
            },
            None => {
                assert(self@.table =~= old(self)@.table);
                Err(ArenaError::NotFound)
            },
        }
    }

    /// Every live allocation, once each, in no particular order: identifier,
    /// region, bytes and text.
    pub fn dump(&self) -> (entries: Vec<DumpEntry>)
        ensures
            self@.dumped_as(entries@),
            entries@.len() == self@.table.dom().len(),
    {
        proof {
            use_type_invariant(self);
        }
        let mut entries: Vec<DumpEntry> = Vec::new();
        for (id, region) in it: self.allocations.iter()
            invariant
                self.wf(),
                it.seq() == spec_hash_map_iter(&self.allocations).remaining(),
                it.seq().no_duplicates(),
                entries@.len() == it.index(),
                forall|i: int|
                    0 <= i < entries@.len() ==> (#[trigger] entries@[i]).id == *it.seq()[i].0
                        && self@.lists(entries@[i]),
        {
            assert(self.allocations@.contains_key(*it.seq()[it.index()].0));
            let bytes = self.span(*region);
            entries.push(
                DumpEntry {
                    id: *id,
                    start: region.start,
                    size: region.size,
                    data: slice_to_vec(bytes),
                    text: decode_lossy(bytes),
                },
            );
        }
        proof {
            let walked = spec_hash_map_iter(&self.allocations).remaining();
            assert forall|id: u16| #[trigger] self@.table.contains_key(id) implies exists|i: int|
                0 <= i < entries@.len() && (#[trigger] entries@[i]).id == id by {
                let i = choose|i: int|
                    0 <= i < walked.len() && walked[i] == (&id, &self.allocations@[id]);
                assert(entries@[i].id == id);
            }
        }
        entries
    }
}

} // verus!
