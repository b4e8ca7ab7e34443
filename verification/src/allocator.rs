//! Per-frame sprite slot allocation over the sprite attribute table.
//!
//! The allocator is a monotonic counter that starts at 0 each frame; every
//! allocate-and-write stores a descriptor at the slot the counter names and
//! advances it. The hardware table has 128 slots and no free operation: a
//! slot keeps its last descriptor until overwritten, so screen transitions
//! clear the whole table back to the degenerate descriptor.

use vstd::prelude::*;

use crate::mmio::OutOfRange;
use crate::video::ObjAttr;

verus! {

/// Whether a descriptor is the all-zero, fully-degenerate one.
pub open spec fn degenerate(a: ObjAttr) -> bool {
    a.0.0 == 0 && a.1.0 == 0 && a.2.0 == 0
}

/// The sprite attribute table as a value: 128 descriptor slots.
///
/// On a host this is the emulated backing store rendering code is checked
/// against; the embedded build mirrors each slot write to the hardware
/// table at its computed address.
pub struct SpriteTable {
    slots: Vec<ObjAttr>,
}

impl View for SpriteTable {
    type V = Seq<ObjAttr>;

    closed spec fn view(&self) -> Seq<ObjAttr> {
        self.slots@
    }
}

impl SpriteTable {
    /// The table invariant: exactly 128 slots.
    pub open spec fn wf(self) -> bool {
        self@.len() == 128
    }

    /// A table with every slot holding the degenerate descriptor.
    pub fn new() -> (r: Self)
        ensures
            r.wf(),
            forall|i: int| 0 <= i < 128 ==> degenerate(#[trigger] r@[i]),
    {
        let mut slots: Vec<ObjAttr> = Vec::new();
        let mut i: usize = 0;
        while i < 128
            invariant
                i <= 128,
                slots@.len() == i,
                forall|j: int| 0 <= j < i ==> degenerate(#[trigger] slots@[j]),
            decreases 128 - i,
        {
            slots.push(ObjAttr::new());
            i = i + 1;
        }
        SpriteTable { slots }
    }

    /// The descriptor currently in slot `i`.
    pub fn slot(&self, i: usize) -> (r: ObjAttr)
        requires
            self.wf(),
            i < 128,
        ensures
            r == self@[i as int],
    {
        self.slots[i]
    }

    /// Stores `attr` in slot `i` as one complete value.
    pub fn write_slot(&mut self, i: usize, attr: ObjAttr)
        requires
            old(self).wf(),
            i < 128,
        ensures
            final(self).wf(),
            final(self)@ == old(self)@.update(i as int, attr),
    {
        self.slots.set(i, attr);
    }

    /// Writes the degenerate descriptor to every slot, as a screen
    /// transition must: an unwritten slot would keep showing last frame's
    /// sprite.
    pub fn clear(&mut self)
        requires
            old(self).wf(),
        ensures
            final(self).wf(),
            forall|i: int| 0 <= i < 128 ==> degenerate(#[trigger] final(self)@[i]),
    {
        let mut i: usize = 0;
        while i < 128
            invariant
                i <= 128,
                self.wf(),
                forall|j: int| 0 <= j < i ==> degenerate(#[trigger] self@[j]),
            decreases 128 - i,
        {
            self.slots.set(i, ObjAttr::new());
            i = i + 1;
        }
    }
}

/// The per-frame monotonic slot counter.
pub struct ObjAttrAllocator(pub u16);

impl ObjAttrAllocator {
    /// A fresh allocator: the next write goes to slot 0.
    pub fn new() -> (r: Self)
        ensures
            r.0 == 0,
    {
        Self(0)
    }

    /// Claims the next slot: returns the current counter value and advances
    /// it, or `OutOfRange` once all 128 slots of the frame are taken — on
    /// real hardware the overflowing write would silently land in an
    /// unrelated slot.
    pub fn allocate(&mut self) -> (r: Result<usize, OutOfRange>)
        ensures
            old(self).0 < 128 ==> {
                &&& final(self).0 == old(self).0 + 1
                &&& r == Ok::<usize, OutOfRange>(old(self).0 as usize)
            },
            old(self).0 >= 128 ==> {
                &&& *final(self) == *old(self)
                &&& r == Err::<usize, OutOfRange>(
                    OutOfRange { index: old(self).0 as u32, count: 128 },
                )
            },
    {
        if self.0 < 128 {
            let index = self.0;
            self.0 = self.0 + 1;
            Ok(index as usize)
        } else {
            Err(OutOfRange { index: self.0 as u32, count: 128 })
        }
    }

    /// Claims the next slot and stores `attr` there as one complete value;
    /// fails without touching the table once the frame's 128 slots are
    /// taken.
    pub fn allocate_and_write(&mut self, table: &mut SpriteTable, attr: ObjAttr) -> (r: Result<
        usize,
        OutOfRange,
    >)
        requires
            old(table).wf(),
        ensures
            final(table).wf(),
            old(self).0 < 128 ==> {
                &&& final(self).0 == old(self).0 + 1
                &&& final(table)@ == old(table)@.update(old(self).0 as int, attr)
                &&& r == Ok::<usize, OutOfRange>(old(self).0 as usize)
            },
            old(self).0 >= 128 ==> {
                &&& *final(self) == *old(self)
                &&& final(table)@ == old(table)@
                &&& r == Err::<usize, OutOfRange>(
                    OutOfRange { index: old(self).0 as u32, count: 128 },
                )
            },
    {
        match self.allocate() {
            Ok(index) => {
                table.write_slot(index, attr);
                Ok(index)
            },
            Err(e) => Err(e),
        }
    }
}

/// The table contents after descriptors `descs` are written to consecutive
/// slots beginning at `start`: the model of a run of sequential
/// allocate-and-write calls whose counter stood at `start` before the run.
pub open spec fn table_after_writes(table: Seq<ObjAttr>, descs: Seq<ObjAttr>, start: int) -> Seq<
    ObjAttr,
>
    decreases descs.len(),
{
    if descs.len() == 0 {
        table
    } else {
        table_after_writes(
            table.update(start, descs[0]),
            descs.subrange(1, descs.len() as int),
            start + 1,
        )
    }
}

/// Allocator ordering: `N` sequential allocate-and-write calls starting
/// from counter value `start` occupy slots `start .. start + N` in call
/// order — slot `start + i` ends up holding the `i`-th descriptor written —
/// and no other slot changes. With a fresh allocator, `start` is 0 and the
/// calls occupy slots `0 .. N`.
pub proof fn lemma_allocator_ordering(table: Seq<ObjAttr>, descs: Seq<ObjAttr>, start: int)
    requires
        0 <= start,
        start + descs.len() <= table.len(),
    ensures
        table_after_writes(table, descs, start).len() == table.len(),
        forall|i: int| 0 <= i < descs.len() ==> table_after_writes(table, descs, start)[start + i]
            == descs[i],
        forall|i: int|
            0 <= i < table.len() && !(start <= i < start + descs.len())
                ==> table_after_writes(table, descs, start)[i] == table[i],
    decreases descs.len(),
{
    if descs.len() == 0 {
    } else {
        let stepped = table.update(start, descs[0]);
        let rest = descs.subrange(1, descs.len() as int);
        lemma_allocator_ordering(stepped, rest, start + 1);
        assert forall|i: int| 0 <= i < descs.len() implies table_after_writes(
            table,
            descs,
            start,
        )[start + i] == descs[i] by {
            if i == 0 {
                assert(table_after_writes(stepped, rest, start + 1)[start] == stepped[start]);
            } else {
                assert(table_after_writes(stepped, rest, start + 1)[start + 1 + (i - 1)] == rest[i
                    - 1]);
            }
        }
        assert forall|i: int|
            0 <= i < table.len() && !(start <= i < start + descs.len()) implies table_after_writes(
            table,
            descs,
            start,
        )[i] == table[i] by {
            assert(table_after_writes(stepped, rest, start + 1)[i] == stepped[i]);
            assert(stepped[i] == table[i]);
        }
    }
}

} // verus!
