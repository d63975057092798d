use crate::arena::{zeros, Arena};
use crate::dump::DumpEntry;
use crate::error::ArenaError;
use vstd::prelude::*;

verus! {

/// A fresh arena is well formed and clean.
pub proof fn lemma_empty_is_wf(capacity: nat)
    requires
        capacity <= usize::MAX,
    ensures
        Arena::empty(capacity).wf(),
        Arena::empty(capacity).clean(),
        Arena::empty(capacity).capacity() == capacity,
{
}

/// An insert, accepted or not, keeps the arena well formed and its capacity
/// fixed, never moves the cursor back, and leaves a clean arena clean.
pub proof fn lemma_insert_keeps_wf(s: Arena, id: u16, data: Seq<u8>)
    requires
        s.wf(),
    ensures
        s.after_insert(id, data).wf(),
        s.after_insert(id, data).capacity() == s.capacity(),
        s.after_insert(id, data).cursor >= s.cursor,
        s.clean() ==> s.after_insert(id, data).clean(),
{
    let t = s.after_insert(id, data);
    if s.insert_outcome(id, data) is Ok && s.clean() {
        assert forall|i: int| 0 <= i < t.bytes.len() && !t.is_live(i) implies #[trigger] t.bytes[i]
            == 0 by {
            assert(t.table.contains_key(id));
            if s.is_live(i) {
                let owner = choose|owner: u16| #[trigger]
                    s.table.contains_key(owner) && s.table[owner].covers(i);
                assert(t.table.contains_key(owner));
            }
        }
    }
}

/// An update, accepted or not, keeps the arena well formed, changes neither
/// the table nor the cursor, and leaves a clean arena clean.
pub proof fn lemma_update_keeps_wf(s: Arena, id: u16, data: Seq<u8>)
    requires
        s.wf(),
    ensures
        s.after_update(id, data).wf(),
        s.after_update(id, data).capacity() == s.capacity(),
        s.after_update(id, data).table == s.table,
        s.after_update(id, data).cursor == s.cursor,
        s.clean() ==> s.after_update(id, data).clean(),
{
    let t = s.after_update(id, data);
    if s.update_outcome(id, data) is Ok && s.clean() {
        assert forall|i: int| 0 <= i < t.bytes.len() && !t.is_live(i) implies #[trigger] t.bytes[i]
            == 0 by {
            assert(t.table.contains_key(id));
        }
    }
}

/// A delete, accepted or not, keeps the arena well formed, leaves the cursor
/// where it was, and leaves a clean arena clean.
pub proof fn lemma_delete_keeps_wf(s: Arena, id: u16)
    requires
        s.wf(),
    ensures
        s.after_delete(id).wf(),
        s.after_delete(id).capacity() == s.capacity(),
        s.after_delete(id).cursor == s.cursor,
        s.clean() ==> s.after_delete(id).clean(),
{
    let t = s.after_delete(id);
    if s.delete_outcome(id) is Ok && s.clean() {
        assert forall|i: int| 0 <= i < t.bytes.len() && !t.is_live(i) implies #[trigger] t.bytes[i]
            == 0 by {
            if !s.table[id].covers(i) && s.is_live(i) {
                let owner = choose|owner: u16| #[trigger]
                    s.table.contains_key(owner) && s.table[owner].covers(i);
                assert(t.table.contains_key(owner));
            }
        }
    }
}

/// Round trip: what is inserted under a free identifier, and fits, is read
/// back unchanged.
pub proof fn lemma_insert_then_read(s: Arena, id: u16, data: Seq<u8>)
    requires
        s.wf(),
        !s.table.contains_key(id),
        data.len() <= s.remaining(),
    ensures
        s.insert_outcome(id, data) is Ok,
        s.after_insert(id, data).read(id) == Ok::<Seq<u8>, ArenaError>(data),
{
    assert(s.after_insert(id, data).contents(id) =~= data);
}

/// No duplicate insert: after an accepted insert, a second insert under the
/// same identifier is refused as a duplicate and changes nothing, so the
/// identifier still reads as the first payload.
pub proof fn lemma_second_insert_refused(s: Arena, id: u16, first: Seq<u8>, second: Seq<u8>)
    requires
        s.wf(),
        s.insert_outcome(id, first) is Ok,
    ensures
        s.after_insert(id, first).insert_outcome(id, second) == Err::<(), ArenaError>(
            ArenaError::DuplicateId,
        ),
        s.after_insert(id, first).after_insert(id, second) == s.after_insert(id, first),
        s.after_insert(id, first).read(id) == Ok::<Seq<u8>, ArenaError>(first),
{
    lemma_insert_then_read(s, id, first);
}

/// Capacity boundary: under a free identifier, a payload longer than the
/// remaining space is refused for lack of space and changes nothing; one of
/// exactly the remaining length is accepted and leaves the cursor at the
/// capacity.
pub proof fn lemma_capacity_boundary(s: Arena, id: u16, data: Seq<u8>)
    requires
        s.wf(),
        !s.table.contains_key(id),
    ensures
        data.len() > s.remaining() ==> s.insert_outcome(id, data) == Err::<(), ArenaError>(
            ArenaError::OutOfSpace,
        ) && s.after_insert(id, data) == s,
        data.len() == s.remaining() ==> s.insert_outcome(id, data) is Ok && s.after_insert(
            id,
            data,
        ).cursor == s.capacity(),
{
}

/// Update never grows: a payload longer than the region is refused and the
/// arena, hence what the identifier reads as, is unchanged.
pub proof fn lemma_oversized_update_refused(s: Arena, id: u16, data: Seq<u8>)
    requires
        s.wf(),
        s.table.contains_key(id),
        data.len() > s.table[id].size,
    ensures
        s.update_outcome(id, data) == Err::<(), ArenaError>(ArenaError::SizeExceeded),
        s.after_update(id, data) == s,
        s.after_update(id, data).read(id) == s.read(id),
{
}

/// Update zero-pads: after an accepted update the identifier reads as the
/// new payload followed by zeros up to the region's size, which is the size
/// it had before.
pub proof fn lemma_update_then_read(s: Arena, id: u16, data: Seq<u8>)
    requires
        s.wf(),
        s.table.contains_key(id),
        data.len() <= s.table[id].size,
    ensures
        s.update_outcome(id, data) is Ok,
        s.after_update(id, data).table[id] == s.table[id],
        s.after_update(id, data).read(id) == Ok::<Seq<u8>, ArenaError>(
            data + zeros((s.table[id].size - data.len()) as nat),
        ),
{
    let padded = data + zeros((s.table[id].size - data.len()) as nat);
    assert(s.after_update(id, data).contents(id) =~= padded);
}

/// Delete zeroes and forgets: after an accepted delete the identifier is not
/// found, every byte of its former region is zero, and the cursor has not
/// moved.
pub proof fn lemma_delete_forgets(s: Arena, id: u16)
    requires
        s.wf(),
        s.table.contains_key(id),
    ensures
        s.delete_outcome(id) is Ok,
        s.after_delete(id).read(id) == Err::<Seq<u8>, ArenaError>(ArenaError::NotFound),
        s.after_delete(id).cursor == s.cursor,
        forall|i: int| s.table[id].covers(i) ==> s.after_delete(id).bytes[i] == 0,
{
}

/// Deleted space is never reused: an insert that follows a delete is placed
/// at the cursor as it stood before the delete.
pub proof fn lemma_insert_after_delete_lands_at_cursor(
    s: Arena,
    gone: u16,
    id: u16,
    data: Seq<u8>,
)
    requires
        s.wf(),
        s.table.contains_key(gone),
        s.after_delete(gone).insert_outcome(id, data) is Ok,
    ensures
        s.after_delete(gone).after_insert(id, data).table[id].start == s.cursor,
        s.after_delete(gone).after_insert(id, data).cursor == s.cursor + data.len(),
{
}

/// An insert does not disturb what any other live identifier reads as.
pub proof fn lemma_insert_keeps_others(s: Arena, id: u16, data: Seq<u8>, other: u16)
    requires
        s.wf(),
        other != id,
    ensures
        s.after_insert(id, data).read(other) == s.read(other),
{
    if s.table.contains_key(other) {
        assert(s.after_insert(id, data).contents(other) =~= s.contents(other));
    }
}

/// An update does not disturb what any other live identifier reads as.
pub proof fn lemma_update_keeps_others(s: Arena, id: u16, data: Seq<u8>, other: u16)
    requires
        s.wf(),
        other != id,
    ensures
        s.after_update(id, data).read(other) == s.read(other),
{
    if s.table.contains_key(other) {
        assert(s.after_update(id, data).contents(other) =~= s.contents(other));
    }
}

/// A delete does not disturb what any other live identifier reads as.
pub proof fn lemma_delete_keeps_others(s: Arena, id: u16, other: u16)
    requires
        s.wf(),
        other != id,
    ensures
        s.after_delete(id).read(other) == s.read(other),
{
    if s.table.contains_key(other) {
        assert(s.after_delete(id).contents(other) =~= s.contents(other));
    }
}

/// Dump completeness: a dump has exactly one entry for each live identifier
/// and none for any other, and each entry carries what its identifier reads
/// as.
pub proof fn lemma_dump_is_complete(s: Arena, entries: Seq<DumpEntry>)
    requires
        s.wf(),
        s.dumped_as(entries),
    ensures
        entries.len() == s.table.dom().len(),
        forall|i: int|
            0 <= i < entries.len() ==> s.read((#[trigger] entries[i]).id) == Ok::<
                Seq<u8>,
                ArenaError,
            >(entries[i].data@),
        forall|id: u16|
            s.read(id) is Ok <==> exists|i: int|
                0 <= i < entries.len() && (#[trigger] entries[i]).id == id,
{
    let ids = entries.map_values(|entry: DumpEntry| entry.id);
    assert(ids.no_duplicates());
    assert(ids.to_set() =~= s.table.dom()) by {
        assert forall|id: u16| s.table.dom().contains(id) implies ids.to_set().contains(id) by {
            let i = choose|i: int| 0 <= i < entries.len() && (#[trigger] entries[i]).id == id;
            assert(ids[i] == id);
        }
    }
    ids.unique_seq_to_set();
}

} // verus!
