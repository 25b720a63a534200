//! What holds of the handles to one block, whatever they do and in whatever
//! order: the counts say how many handles exist, the payload is destroyed
//! once, by the drop of the last strong handle, and the block is deallocated
//! by the drop of the last handle of any kind.

use crate::heap::{allocation_layout_spec, fresh_block, Entry, Heap, Slot};
use crate::layout::construction_layout_spec;
use crate::rc::VRc;
use crate::vtable::VTableMetaDropInPlace;
use vstd::prelude::*;

verus! {

/// One operation on a handle to a block. A mapped handle counts as a strong
/// handle to its owner, a weak mapped handle as a weak one.
pub enum Op {
    /// A strong handle is cloned.
    CloneStrong,
    /// A strong handle is dropped.
    DropStrong,
    /// A weak handle is made from a strong one.
    Downgrade,
    /// A weak handle is cloned.
    CloneWeak,
    /// A weak handle is dropped.
    DropWeak,
    /// A weak handle is asked for a strong one.
    Upgrade,
}

/// The handles to one block that exist.
pub struct Census {
    /// The number of strong handles.
    pub strong: nat,
    /// The number of weak handles.
    pub weak: nat,
}

/// The payload of the block is alive.
pub open spec fn alive<X>(entry: Entry<X>) -> bool {
    entry is Allocated && entry->Allocated_0.strong_ref.value > 0
}

/// The counts of the block say how many handles exist: the strong count is
/// the number of strong handles, and the weak count the number of weak ones
/// plus 1 while a strong handle exists. A block with no handle is deallocated.
pub open spec fn agrees<X>(census: Census, entry: Entry<X>) -> bool {
    match entry {
        Entry::Allocated(inner) => {
            &&& census.strong + census.weak > 0
            &&& inner.strong_ref.value == census.strong
            &&& inner.weak_ref.value == census.weak + if census.strong > 0 {
                1nat
            } else {
                0nat
            }
        },
        Entry::Freed(_) => census.strong == 0 && census.weak == 0,
    }
}

/// The handle that the operation starts from exists, and the counter that it
/// raises has room.
pub open spec fn enabled(census: Census, op: Op) -> bool {
    match op {
        Op::CloneStrong => 0 < census.strong < u32::MAX,
        Op::DropStrong => 0 < census.strong,
        Op::Downgrade => 0 < census.strong && census.weak + 1 < u32::MAX,
        Op::CloneWeak => 0 < census.weak && census.weak + 1 < u32::MAX,
        Op::DropWeak => 0 < census.weak,
        Op::Upgrade => 0 < census.weak && census.strong < u32::MAX,
    }
}

/// What the operation makes of the block.
pub open spec fn step<X: VTableMetaDropInPlace>(entry: Entry<X>, op: Op) -> Entry<X> {
    match entry {
        Entry::Allocated(inner) => match op {
            Op::CloneStrong => Entry::Allocated(inner.acquire_strong_spec()),
            Op::DropStrong => inner.release_strong_spec(),
            Op::Downgrade => Entry::Allocated(inner.acquire_weak_spec()),
            Op::CloneWeak => Entry::Allocated(inner.acquire_weak_spec()),
            Op::DropWeak => inner.release_weak_spec(),
            Op::Upgrade => if inner.strong_ref.value > 0 {
                Entry::Allocated(inner.acquire_strong_spec())
            } else {
                entry
            },
        },
        Entry::Freed(_) => entry,
    }
}

/// The handles that exist after the operation.
pub open spec fn step_census<X>(census: Census, entry: Entry<X>, op: Op) -> Census {
    match op {
        Op::CloneStrong => Census { strong: census.strong + 1, ..census },
        Op::DropStrong => Census { strong: (census.strong - 1) as nat, ..census },
        Op::Downgrade => Census { weak: census.weak + 1, ..census },
        Op::CloneWeak => Census { weak: census.weak + 1, ..census },
        Op::DropWeak => Census { weak: (census.weak - 1) as nat, ..census },
        Op::Upgrade => if alive(entry) {
            Census { strong: census.strong + 1, ..census }
        } else {
            census
        },
    }
}

/// The operation destroys the payload.
pub open spec fn destroys<X: VTableMetaDropInPlace>(entry: Entry<X>, op: Op) -> bool {
    alive(entry) && !alive(step(entry, op))
}

/// The operation deallocates the block.
pub open spec fn deallocates<X: VTableMetaDropInPlace>(entry: Entry<X>, op: Op) -> bool {
    entry is Allocated && step(entry, op) is Freed
}

/// Each operation of `ops`, in turn, starts from a handle that exists.
pub open spec fn valid_trace<X: VTableMetaDropInPlace>(
    census: Census,
    entry: Entry<X>,
    ops: Seq<Op>,
) -> bool
    decreases ops.len(),
{
    if ops.len() == 0 {
        true
    } else {
        enabled(census, ops[0]) && valid_trace(
            step_census(census, entry, ops[0]),
            step(entry, ops[0]),
            ops.subrange(1, ops.len() as int),
        )
    }
}

/// The block after the operations of `ops`.
pub open spec fn run<X: VTableMetaDropInPlace>(entry: Entry<X>, ops: Seq<Op>) -> Entry<X>
    decreases ops.len(),
{
    if ops.len() == 0 {
        entry
    } else {
        run(step(entry, ops[0]), ops.subrange(1, ops.len() as int))
    }
}

/// The handles that exist after the operations of `ops`.
pub open spec fn run_census<X: VTableMetaDropInPlace>(
    census: Census,
    entry: Entry<X>,
    ops: Seq<Op>,
) -> Census
    decreases ops.len(),
{
    if ops.len() == 0 {
        census
    } else {
        run_census(
            step_census(census, entry, ops[0]),
            step(entry, ops[0]),
            ops.subrange(1, ops.len() as int),
        )
    }
}

/// How many of the operations of `ops` destroy the payload.
pub open spec fn destructions<X: VTableMetaDropInPlace>(entry: Entry<X>, ops: Seq<Op>) -> nat
    decreases ops.len(),
{
    if ops.len() == 0 {
        0
    } else {
        (if destroys(entry, ops[0]) {
            1nat
        } else {
            0nat
        }) + destructions(step(entry, ops[0]), ops.subrange(1, ops.len() as int))
    }
}

/// How many of the operations of `ops` deallocate the block.
pub open spec fn deallocations<X: VTableMetaDropInPlace>(entry: Entry<X>, ops: Seq<Op>) -> nat
    decreases ops.len(),
{
    if ops.len() == 0 {
        0
    } else {
        (if deallocates(entry, ops[0]) {
            1nat
        } else {
            0nat
        }) + deallocations(step(entry, ops[0]), ops.subrange(1, ops.len() as int))
    }
}

/// A block that was just made has one strong handle and meets its invariant.
pub proof fn lemma_fresh_block_agrees<X: VTableMetaDropInPlace>(data: X)
    requires
        construction_layout_spec(X::layout_spec()) is Some,
    ensures
        fresh_block(data).wf(),
        agrees(Census { strong: 1, weak: 0 }, Entry::Allocated(fresh_block(data))),
        alive(Entry::Allocated(fresh_block(data))),
{
}

/// While the counts say how many handles exist, the payload is alive exactly
/// while a strong handle exists, whatever the number of weak handles, and the
/// block is allocated exactly while a handle of either kind exists.
pub proof fn lemma_liveness_by_census<X: VTableMetaDropInPlace>(census: Census, entry: Entry<X>)
    requires
        entry.wf(),
        agrees(census, entry),
    ensures
        alive(entry) <==> census.strong > 0,
        entry is Allocated <==> census.strong + census.weak > 0,
        alive(entry) <==> entry is Allocated && entry->Allocated_0.data is Value,
{
}

/// An operation that starts from a handle that exists finds what it needs:
/// a strong handle finds its payload alive, and a weak handle finds its block
/// allocated with a weak count that covers it. Afterwards the block meets
/// its invariant again and its counts say how many handles exist. While the
/// block is allocated, the layout that it was allocated with, the payload's
/// offset in it and its descriptor stay as they were.
pub proof fn lemma_step_keeps_agreement<X: VTableMetaDropInPlace>(
    census: Census,
    entry: Entry<X>,
    op: Op,
)
    requires
        entry.wf(),
        agrees(census, entry),
        enabled(census, op),
    ensures
        entry is Allocated,
        (op is CloneStrong || op is DropStrong || op is Downgrade) ==> alive(entry),
        (op is CloneWeak || op is DropWeak || op is Upgrade) ==> (alive(entry)
            ==> entry->Allocated_0.weak_ref.value > 1),
        step(entry, op).wf(),
        agrees(step_census(census, entry, op), step(entry, op)),
        step(entry, op) is Allocated ==> step(entry, op)->Allocated_0.data_offset
            == entry->Allocated_0.data_offset,
        step(entry, op) is Allocated ==> step(entry, op)->Allocated_0.vtable
            == entry->Allocated_0.vtable,
        step(entry, op) is Allocated ==> step(entry, op)->Allocated_0.layout
            == entry->Allocated_0.layout,
{
}

/// The payload is destroyed by the drop of a strong handle that finds the
/// strong count at 1, and by nothing else; a weak handle, however many there
/// are, neither destroys it nor keeps it alive. A payload that is destroyed
/// stays so.
pub proof fn lemma_destroyed_by_last_strong_drop<X: VTableMetaDropInPlace>(
    census: Census,
    entry: Entry<X>,
    op: Op,
)
    requires
        entry.wf(),
        agrees(census, entry),
        enabled(census, op),
    ensures
        destroys(entry, op) <==> op is DropStrong && entry->Allocated_0.strong_ref.value == 1,
        !alive(entry) ==> !alive(step(entry, op)),
        alive(step(entry, op)) ==> step(entry, op)->Allocated_0.data
            == entry->Allocated_0.data,
{
}

/// The block is deallocated by the drop of the last handle of either kind,
/// and by nothing else: by a strong handle that finds both counts at 1, or by
/// a weak handle that finds the weak count at 1, which it does only after the
/// payload is destroyed. It is deallocated with the layout that it was
/// allocated with.
pub proof fn lemma_deallocated_by_last_drop<X: VTableMetaDropInPlace>(
    census: Census,
    entry: Entry<X>,
    op: Op,
)
    requires
        entry.wf(),
        agrees(census, entry),
        enabled(census, op),
    ensures
        deallocates(entry, op) <==> (op is DropStrong || op is DropWeak) && census.strong
            + census.weak == 1,
        deallocates(entry, op) && op is DropWeak ==> !alive(entry),
        deallocates(entry, op) ==> step(entry, op) == Entry::<X>::Freed(
            entry->Allocated_0.layout,
        ),
        deallocates(entry, op) ==> entry->Allocated_0.layout == allocation_layout_spec::<X>(),
{
}

/// Whatever the handles to a block do, in whatever order, the block keeps its
/// invariant and its counts say how many handles exist.
pub proof fn lemma_trace_keeps_agreement<X: VTableMetaDropInPlace>(
    census: Census,
    entry: Entry<X>,
    ops: Seq<Op>,
)
    requires
        entry.wf(),
        agrees(census, entry),
        valid_trace(census, entry, ops),
    ensures
        run(entry, ops).wf(),
        agrees(run_census(census, entry, ops), run(entry, ops)),
    decreases ops.len(),
{
    if ops.len() > 0 {
        lemma_step_keeps_agreement(census, entry, ops[0]);
        lemma_trace_keeps_agreement(
            step_census(census, entry, ops[0]),
            step(entry, ops[0]),
            ops.subrange(1, ops.len() as int),
        );
    }
}

/// Whatever the handles to a block do, in whatever order, the payload is
/// destroyed at most once: once if no strong handle is left at the end, not
/// at all if one is, and then the payload is the one that was there at the
/// start.
pub proof fn lemma_destroyed_exactly_once<X: VTableMetaDropInPlace>(
    census: Census,
    entry: Entry<X>,
    ops: Seq<Op>,
)
    requires
        entry.wf(),
        agrees(census, entry),
        valid_trace(census, entry, ops),
        alive(entry),
    ensures
        destructions(entry, ops) == if run_census(census, entry, ops).strong == 0 {
            1nat
        } else {
            0nat
        },
        run_census(census, entry, ops).strong > 0 ==> alive(run(entry, ops)) && run(
            entry,
            ops,
        )->Allocated_0.data == entry->Allocated_0.data,
    decreases ops.len(),
{
    if ops.len() == 0 {
        lemma_liveness_by_census(census, entry);
    } else {
        let next = step(entry, ops[0]);
        let next_census = step_census(census, entry, ops[0]);
        let rest = ops.subrange(1, ops.len() as int);
        lemma_step_keeps_agreement(census, entry, ops[0]);
        lemma_destroyed_by_last_strong_drop(census, entry, ops[0]);
        if alive(next) {
            lemma_destroyed_exactly_once(next_census, next, rest);
        } else {
            lemma_no_destruction_once_destroyed(next_census, next, rest);
        }
    }
}

/// Once the payload is destroyed, nothing that the handles do destroys it
/// again or brings a strong handle back.
pub proof fn lemma_no_destruction_once_destroyed<X: VTableMetaDropInPlace>(
    census: Census,
    entry: Entry<X>,
    ops: Seq<Op>,
)
    requires
        entry.wf(),
        agrees(census, entry),
        valid_trace(census, entry, ops),
        !alive(entry),
    ensures
        destructions(entry, ops) == 0,
        run_census(census, entry, ops).strong == 0,
        !alive(run(entry, ops)),
    decreases ops.len(),
{
    if ops.len() == 0 {
        lemma_liveness_by_census(census, entry);
    } else {
        lemma_step_keeps_agreement(census, entry, ops[0]);
        lemma_destroyed_by_last_strong_drop(census, entry, ops[0]);
        lemma_no_destruction_once_destroyed(
            step_census(census, entry, ops[0]),
            step(entry, ops[0]),
            ops.subrange(1, ops.len() as int),
        );
    }
}

/// Whatever the handles to a block do, in whatever order, the block is
/// deallocated at most once: once if no handle of either kind is left at the
/// end, not at all if one is.
pub proof fn lemma_deallocated_exactly_once<X: VTableMetaDropInPlace>(
    census: Census,
    entry: Entry<X>,
    ops: Seq<Op>,
)
    requires
        entry.wf(),
        agrees(census, entry),
        valid_trace(census, entry, ops),
        entry is Allocated,
    ensures
        deallocations(entry, ops) == if run(entry, ops) is Freed {
            1nat
        } else {
            0nat
        },
        run(entry, ops) is Freed <==> run_census(census, entry, ops).strong + run_census(
            census,
            entry,
            ops,
        ).weak == 0,
    decreases ops.len(),
{
    if ops.len() == 0 {
    } else {
        let next = step(entry, ops[0]);
        let next_census = step_census(census, entry, ops[0]);
        let rest = ops.subrange(1, ops.len() as int);
        lemma_step_keeps_agreement(census, entry, ops[0]);
        if next is Allocated {
            lemma_deallocated_exactly_once(next_census, next, rest);
        } else {
            assert(valid_trace(next_census, next, rest));
            assert(next_census.strong == 0 && next_census.weak == 0);
            if rest.len() > 0 {
                assert(enabled(next_census, rest[0]));
            }
            assert(rest.len() == 0);
            assert(deallocates(entry, ops[0]));
            assert(deallocations(next, rest) == 0);
            assert(run(next, rest) == next);
            assert(run_census(next_census, next, rest) == next_census);
        }
    }
}

/// A weak handle gives a strong one exactly while a strong handle exists.
/// Right after `downgrade` it does, and the new handle is one more strong
/// handle to the same block; once the last strong handle is dropped it gives
/// nothing and changes nothing.
pub proof fn lemma_upgrade_after_downgrade<X: VTableMetaDropInPlace>(
    census: Census,
    entry: Entry<X>,
)
    requires
        entry.wf(),
        agrees(census, entry),
        enabled(census, Op::Upgrade),
    ensures
        census.strong > 0 ==> step(entry, Op::Upgrade) == Entry::Allocated(
            entry->Allocated_0.acquire_strong_spec(),
        ) && step_census(census, entry, Op::Upgrade).strong == census.strong + 1,
        census.strong == 0 ==> step(entry, Op::Upgrade) == entry && step_census(
            census,
            entry,
            Op::Upgrade,
        ) == census,
        enabled(census, Op::Downgrade) ==> alive(step(entry, Op::Downgrade)) && enabled(
            step_census(census, entry, Op::Downgrade),
            Op::Upgrade,
        ),
        enabled(census, Op::DropStrong) && census.strong == 1 ==> !alive(
            step(entry, Op::DropStrong),
        ),
{
}

/// A handle that is a strong handle to the owner, as a mapped handle is,
/// keeps the owner's payload alive, unchanged and in its place: whatever the
/// other handles do, and however many of them are dropped, while one strong
/// handle is left the payload is the one that was there at the start, at the
/// same offset, and it is destroyed only when that handle is dropped too.
pub proof fn lemma_owner_lives_while_held<X: VTableMetaDropInPlace>(
    census: Census,
    entry: Entry<X>,
    ops: Seq<Op>,
)
    requires
        entry.wf(),
        agrees(census, entry),
        valid_trace(census, entry, ops),
        alive(entry),
        run_census(census, entry, ops).strong >= 1,
    ensures
        alive(run(entry, ops)),
        run(entry, ops)->Allocated_0.data == entry->Allocated_0.data,
        run(entry, ops)->Allocated_0.data_offset == entry->Allocated_0.data_offset,
        destructions(entry, ops) == 0,
        run_census(census, entry, ops).strong == 1 ==> destroys(run(entry, ops), Op::DropStrong),
{
    lemma_destroyed_exactly_once(census, entry, ops);
    lemma_trace_keeps_agreement(census, entry, ops);
    lemma_offset_is_fixed(census, entry, ops);
    lemma_destroyed_by_last_strong_drop(
        run_census(census, entry, ops),
        run(entry, ops),
        Op::DropStrong,
    );
}

/// While a block is allocated, whatever its handles do, the layout that it
/// was allocated with, the payload's offset in it and its descriptor stay as
/// they were.
pub proof fn lemma_offset_is_fixed<X: VTableMetaDropInPlace>(
    census: Census,
    entry: Entry<X>,
    ops: Seq<Op>,
)
    requires
        entry.wf(),
        agrees(census, entry),
        valid_trace(census, entry, ops),
        run(entry, ops) is Allocated,
    ensures
        entry is Allocated,
        run(entry, ops)->Allocated_0.layout == entry->Allocated_0.layout,
        run(entry, ops)->Allocated_0.data_offset == entry->Allocated_0.data_offset,
        run(entry, ops)->Allocated_0.vtable == entry->Allocated_0.vtable,
    decreases ops.len(),
{
    if ops.len() > 0 {
        let next = step(entry, ops[0]);
        let next_census = step_census(census, entry, ops[0]);
        let rest = ops.subrange(1, ops.len() as int);
        lemma_step_keeps_agreement(census, entry, ops[0]);
        if next is Freed {
            lemma_freed_stays_freed(next, rest);
        }
        lemma_offset_is_fixed(next_census, next, rest);
    }
}

/// A block that is deallocated stays so.
pub proof fn lemma_freed_stays_freed<X: VTableMetaDropInPlace>(entry: Entry<X>, ops: Seq<Op>)
    requires
        entry is Freed,
    ensures
        run(entry, ops) == entry,
    decreases ops.len(),
{
    if ops.len() > 0 {
        lemma_freed_stays_freed(step(entry, ops[0]), ops.subrange(1, ops.len() as int));
    }
}

/// A handle to a new object is `ptr_eq` to no handle that the store held
/// before, whatever the two objects contain: `new` gives the block behind all
/// those of the store, and a handle into the store points to one of those.
pub proof fn lemma_new_handle_differs<X: VTableMetaDropInPlace, T>(
    heap: Heap<X>,
    existing: VRc<T>,
    fresh: VRc<T>,
)
    requires
        existing.block() < heap@.len(),
        fresh.block() == heap@.len(),
    ensures
        !VRc::ptr_eq_spec(&existing, &fresh),
        VRc::ptr_eq_spec(&existing, &existing),
{
}

/// The life of an object, from `new` on: whatever its handles do, in
/// whatever order, its payload is destroyed once if no strong handle is left
/// and not at all if one is, and its block is deallocated once if no handle
/// is left and not at all if one is, with the layout that `new` allocated it
/// with.
pub proof fn lemma_life_of_an_object<X: VTableMetaDropInPlace>(data: X, ops: Seq<Op>)
    requires
        construction_layout_spec(X::layout_spec()) is Some,
        valid_trace(Census { strong: 1, weak: 0 }, Entry::Allocated(fresh_block(data)), ops),
    ensures
        ({
            let first = Census { strong: 1, weak: 0 };
            let block = Entry::Allocated(fresh_block(data));
            let last = run_census(first, block, ops);
            &&& run(block, ops).wf()
            &&& agrees(last, run(block, ops))
            &&& destructions(block, ops) == if last.strong == 0 {
                1nat
            } else {
                0nat
            }
            &&& deallocations(block, ops) == if last.strong + last.weak == 0 {
                1nat
            } else {
                0nat
            }
            &&& last.strong > 0 ==> run(block, ops)->Allocated_0.data == Slot::Value(data)
            &&& run(block, ops) is Allocated ==> run(block, ops)->Allocated_0.layout
                == construction_layout_spec(X::layout_spec()).unwrap().0
            &&& run(block, ops) is Freed ==> run(block, ops)->Freed_0
                == construction_layout_spec(X::layout_spec()).unwrap().0
        }),
{
    let first = Census { strong: 1, weak: 0 };
    let block = Entry::Allocated(fresh_block(data));
    lemma_fresh_block_agrees(data);
    lemma_trace_keeps_agreement(first, block, ops);
    lemma_destroyed_exactly_once(first, block, ops);
    lemma_deallocated_exactly_once(first, block, ops);
}

} // verus!
