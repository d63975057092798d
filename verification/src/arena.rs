use crate::dump::DumpEntry;
use crate::error::ArenaError;
use crate::region::Region;
use crate::text::lossy_text;
use vstd::prelude::*;

verus! {

/// `n` zero bytes.
pub open spec fn zeros(n: nat) -> Seq<u8> {
    Seq::new(n, |i: int| 0u8)
}

/// `bytes` with `data` laid over it from offset `at` on; every other offset
/// keeps its byte.
pub open spec fn overwrite(bytes: Seq<u8>, at: int, data: Seq<u8>) -> Seq<u8> {
    Seq::new(
        bytes.len(),
        |i: int|
            if at <= i < at + data.len() {
                data[i - at]
            } else {
                bytes[i]
            },
    )
}

/// The abstract state of a bump arena: the buffer, the table of live regions
/// and the free cursor. The buffer's length is the arena's capacity.
pub struct Arena {
    pub bytes: Seq<u8>,
    pub table: Map<u16, Region>,
    pub cursor: nat,
}

impl Arena {
    /// A fresh arena of the given capacity: all zero, nothing allocated.
    pub open spec fn empty(capacity: nat) -> Arena {
        Arena { bytes: zeros(capacity), table: Map::empty(), cursor: 0 }
    }

    /// The fixed number of bytes the arena spans.
    pub open spec fn capacity(self) -> nat {
        self.bytes.len()
    }

    /// How many bytes an insert can still claim.
    pub open spec fn remaining(self) -> int {
        self.capacity() - self.cursor
    }

    /// The invariant of every arena: the buffer is one a machine can index,
    /// the cursor stays inside it, the space at and past the cursor has never
    /// been written and is zero, every live region ends at or before the
    /// cursor, and two live regions never share a byte.
    pub open spec fn wf(self) -> bool {
        &&& self.capacity() <= usize::MAX
        &&& self.cursor <= self.capacity()
        &&& forall|i: int| self.cursor <= i < self.capacity() ==> #[trigger] self.bytes[i] == 0
        &&& self.table.dom().finite()
        &&& forall|id: u16| #[trigger]
            self.table.contains_key(id) ==> self.table[id].end() <= self.cursor
        &&& forall|a: u16, b: u16|
            #![trigger self.table.contains_key(a), self.table.contains_key(b)]
            self.table.contains_key(a) && self.table.contains_key(b) && a != b
                ==> self.table[a].apart_from(self.table[b])
    }

    /// Whether offset `i` belongs to some live region.
    pub open spec fn is_live(self, i: int) -> bool {
        exists|id: u16| #[trigger] self.table.contains_key(id) && self.table[id].covers(i)
    }

    /// Whether every byte outside the live regions is zero. A fresh arena is
    /// clean, and every operation leaves a clean arena clean.
    pub open spec fn clean(self) -> bool {
        forall|i: int| 0 <= i < self.bytes.len() && !self.is_live(i) ==> #[trigger] self.bytes[i] == 0
    }

    /// The bytes of `id`'s region, at its full recorded width.
    pub open spec fn contents(self, id: u16) -> Seq<u8>
        recommends
            self.table.contains_key(id),
    {
        self.bytes.subrange(self.table[id].start as int, self.table[id].end())
    }

    /// What reading `id` yields.
    pub open spec fn read(self, id: u16) -> Result<Seq<u8>, ArenaError> {
        if self.table.contains_key(id) {
            Ok(self.contents(id))
        } else {
            Err(ArenaError::NotFound)
        }
    }

    /// Whether inserting `data` under `id` is accepted. A taken identifier is
    /// reported before a lack of space.
    pub open spec fn insert_outcome(self, id: u16, data: Seq<u8>) -> Result<(), ArenaError> {
        if self.table.contains_key(id) {
            Err(ArenaError::DuplicateId)
        } else if data.len() > self.remaining() {
            Err(ArenaError::OutOfSpace)
        } else {
            Ok(())
        }
    }

    /// The arena after an insert: on acceptance `data` sits at the old cursor,
    /// `id` owns exactly those bytes and the cursor has moved past them; on
    /// refusal nothing has changed.
    pub open spec fn after_insert(self, id: u16, data: Seq<u8>) -> Arena {
        if self.insert_outcome(id, data) is Ok {
            Arena {
                bytes: overwrite(self.bytes, self.cursor as int, data),
                table: self.table.insert(
                    id,
                    Region { start: self.cursor as usize, size: data.len() as usize },
                ),
                cursor: self.cursor + data.len(),
            }
        } else {
            self
        }
    }

    /// Whether replacing the contents of `id` by `data` is accepted.
    pub open spec fn update_outcome(self, id: u16, data: Seq<u8>) -> Result<(), ArenaError> {
        if !self.table.contains_key(id) {
            Err(ArenaError::NotFound)
        } else if data.len() > self.table[id].size {
            Err(ArenaError::SizeExceeded)
        } else {
            Ok(())
        }
    }

    /// The arena after an update: on acceptance the region of `id` holds
    /// `data` followed by zeros up to its recorded size; the table and the
    /// cursor never change.
    pub open spec fn after_update(self, id: u16, data: Seq<u8>) -> Arena {
        if self.update_outcome(id, data) is Ok {
            let region = self.table[id];
            Arena {
                bytes: overwrite(
                    self.bytes,
                    region.start as int,
                    data + zeros((region.size - data.len()) as nat),
                ),
                ..self
            }
        } else {
            self
        }
    }

    /// Whether deleting `id` is accepted.
    pub open spec fn delete_outcome(self, id: u16) -> Result<(), ArenaError> {
        if self.table.contains_key(id) {
            Ok(())
        } else {
            Err(ArenaError::NotFound)
        }
    }

    /// The arena after a delete: on acceptance the region of `id` is zeroed
    /// and `id` has left the table; the cursor stays where it was.
    pub open spec fn after_delete(self, id: u16) -> Arena {
        if self.delete_outcome(id) is Ok {
            let region = self.table[id];
            Arena {
                bytes: overwrite(self.bytes, region.start as int, zeros(region.size as nat)),
                table: self.table.remove(id),
                ..self
            }
        } else {
            self
        }
    }

    /// Whether `entry` reports a live allocation as it stands now: its
    /// identifier, its region, the region's bytes and their text form.
    pub open spec fn lists(self, entry: DumpEntry) -> bool {
        &&& self.table.contains_key(entry.id)
        &&& self.table[entry.id] == (Region { start: entry.start, size: entry.size })
        &&& entry.data@ == self.contents(entry.id)
        &&& entry.text@ == lossy_text(entry.data@)
    }

    /// Whether `entries` is a dump of this arena: every entry reports a live
    /// allocation, no identifier comes twice, and no live identifier is missing.
    pub open spec fn dumped_as(self, entries: Seq<DumpEntry>) -> bool {
        &&& forall|i: int| 0 <= i < entries.len() ==> self.lists(#[trigger] entries[i])
        &&& forall|i: int, j: int|
            0 <= i < j < entries.len() ==> (#[trigger] entries[i]).id != (#[trigger] entries[j]).id
        &&& forall|id: u16| #[trigger]
            self.table.contains_key(id) ==> exists|i: int|
                0 <= i < entries.len() && (#[trigger] entries[i]).id == id
    }
}

} // verus!
