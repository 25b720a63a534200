//! Strong handles.

use crate::counter::Counter;
use crate::heap::{fresh_block, Entry, Heap, Slot, VRcInner};
use crate::layout::{construction_layout, construction_layout_spec, Layout};
use crate::vtable::{Dyn, VRef, VTableMetaDropInPlace};
use crate::weak::VWeak;
use core::marker::PhantomData;
use vstd::prelude::*;

verus! {

/// An owning handle to an object in a store. It counts as one strong
/// reference to the object's block from its creation until it is dropped.
pub struct VRc<T = Dyn> {
    pub(crate) inner: usize,
    pub(crate) marker: PhantomData<T>,
}

impl<T> VRc<T> {
    /// The block that the handle points to.
    pub open(crate) spec fn block(&self) -> usize {
        self.inner
    }

    /// The number of the block that the handle points to.
    pub fn as_ptr(this: &Self) -> (b: usize)
        ensures
            b == this.block(),
    {
        this.inner
    }

    /// The two handles point to the same block.
    pub open spec fn ptr_eq_spec(this: &Self, other: &Self) -> bool {
        this.block() == other.block()
    }

    /// Returns true if the two handles point to the same block.
    pub fn ptr_eq(this: &Self, other: &Self) -> (r: bool)
        ensures
            r == Self::ptr_eq_spec(this, other),
    {
        this.inner == other.inner
    }
}

impl<T> VRc<T> {
    /// Makes another handle to the same block: the strong count goes up by
    /// one.
    pub fn clone<X: VTableMetaDropInPlace>(&self, heap: &mut Heap<X>) -> (r: VRc<T>)
        requires
            old(heap).wf(),
            old(heap).is_alive(self.block()),
            old(heap).strong(self.block()) < u32::MAX,
        ensures
            final(heap).wf(),
            final(heap)@ == old(heap)@.update(
                self.block() as int,
                Entry::Allocated(old(heap).inner(self.block()).acquire_strong_spec()),
            ),
            r.block() == self.block(),
            Self::ptr_eq_spec(self, &r),
    {
        match &mut heap.blocks[self.inner] {
            Entry::Allocated(inner) => {
                inner.strong_ref.fetch_add(1);
            },
            Entry::Freed(_) => {},
        }
        VRc { inner: self.inner, marker: PhantomData }
    }

    /// Gives the handle up. While other strong handles remain only the strong
    /// count goes down. The last one destroys the payload through its
    /// descriptor and, from the layout that the descriptor returns, works out
    /// the block's layout as `new` did. Then it releases the weak reference
    /// that the strong handles held together: where weak handles remain, the
    /// block's layout is left in the payload slot for them; where none does,
    /// the block is deallocated with it.
    pub fn drop<X: VTableMetaDropInPlace>(self, heap: &mut Heap<X>)
        requires
            old(heap).wf(),
            old(heap).is_alive(self.block()),
        ensures
            final(heap).wf(),
            final(heap)@ == old(heap)@.update(
                self.block() as int,
                old(heap).inner(self.block()).release_strong_spec(),
            ),
    {
        let mut freed: Option<Layout> = None;
        match &mut heap.blocks[self.inner] {
            Entry::Allocated(inner) => {
                if inner.strong_ref.fetch_sub(1) == 1 {
                    let mut slot: Slot<X> = Slot::Layout(Layout { size: 0, align: 1 });
                    core::mem::swap(&mut slot, &mut inner.data);
                    match slot {
                        Slot::Value(data) => {
                            let payload: Layout = X::drop_in_place(data);
                            let layout: Layout = match construction_layout(payload) {
                                Some((layout, _)) => layout,
                                None => vstd::pervasive::unreached(),
                            };
                            if inner.weak_ref.load() > 1 {
                                inner.data = Slot::Layout(layout);
                            }
                            if inner.weak_ref.fetch_sub(1) == 1 {
                                freed = Some(layout);
                            }
                        },
                        Slot::Layout(_) => {},
                    }
                }
            },
            Entry::Freed(_) => {},
        }
        if let Some(layout) = freed {
            heap.dealloc(self.inner, layout);
        }
    }

    /// Makes a weak handle to the same block: the weak count goes up by one.
    pub fn downgrade<X: VTableMetaDropInPlace>(this: &Self, heap: &mut Heap<X>) -> (r: VWeak<T>)
        requires
            old(heap).wf(),
            old(heap).is_alive(this.block()),
            old(heap).weak(this.block()) < u32::MAX,
        ensures
            final(heap).wf(),
            final(heap)@ == old(heap)@.update(
                this.block() as int,
                Entry::Allocated(old(heap).inner(this.block()).acquire_weak_spec()),
            ),
            r.block() == Some(this.block()),
    {
        match &mut heap.blocks[this.inner] {
            Entry::Allocated(inner) => {
                inner.weak_ref.fetch_add(1);
            },
            Entry::Freed(_) => {},
        }
        VWeak { inner: Some(this.inner), marker: PhantomData }
    }

    /// The number of strong handles to the block.
    pub fn strong_count<X: VTableMetaDropInPlace>(this: &Self, heap: &Heap<X>) -> (n: usize)
        requires
            heap.is_alive(this.block()),
        ensures
            n == heap.strong(this.block()),
    {
        match &heap.blocks[this.inner] {
            Entry::Allocated(inner) => inner.strong_ref.load() as usize,
            Entry::Freed(_) => 0,
        }
    }

    /// A reference to the payload without its type: the descriptor stored in
    /// the block and the payload's address.
    pub fn borrow<X: VTableMetaDropInPlace>(this: &Self, heap: &Heap<X>) -> (r: VRef)
        requires
            heap.is_alive(this.block()),
        ensures
            r == (VRef {
                vtable: heap.inner(this.block()).vtable,
                ptr: heap.inner(this.block()).data_ptr_spec(this.block()),
            }),
    {
        match &heap.blocks[this.inner] {
            Entry::Allocated(inner) => VRef {
                vtable: inner.vtable,
                ptr: inner.data_ptr(this.inner),
            },
            Entry::Freed(_) => vstd::pervasive::unreached(),
        }
    }

    /// The same reference as `borrow` gives. It is pinned: a payload keeps its
    /// address, the block and the offset in it, for as long as it is alive,
    /// and no operation hands out exclusive access to it.
    pub fn borrow_pin<X: VTableMetaDropInPlace>(this: &Self, heap: &Heap<X>) -> (r: VRef)
        requires
            heap.is_alive(this.block()),
        ensures
            r == (VRef {
                vtable: heap.inner(this.block()).vtable,
                ptr: heap.inner(this.block()).data_ptr_spec(this.block()),
            }),
    {
        Self::borrow(this, heap)
    }
}

impl<X: VTableMetaDropInPlace> VRc<X> {
    /// Moves `data` into a new block of the store and returns the first
    /// handle to it. The block is allocated with the layout that holds the
    /// header with the payload and the header with a `Layout`. It is the one
    /// behind all those of the store: it was never the block of another
    /// object.
    pub fn new(heap: &mut Heap<X>, data: X) -> (this: VRc<X>)
        requires
            old(heap).wf(),
            construction_layout_spec(X::layout_spec()) is Some,
        ensures
            final(heap).wf(),
            final(heap)@ == old(heap)@.push(Entry::Allocated(fresh_block(data))),
            this.block() == old(heap)@.len(),
            final(heap).inner(this.block()).layout == construction_layout_spec(
                X::layout_spec(),
            ).unwrap().0,
    {
        let (layout, offset) = match construction_layout(X::static_layout()) {
            Some(found) => found,
            None => vstd::pervasive::unreached(),
        };
        let inner: usize = heap.blocks.len();
        heap.blocks.push(
            Entry::Allocated(
                VRcInner {
                    layout,
                    vtable: X::static_vtable(),
                    strong_ref: Counter::new(1),
                    weak_ref: Counter::new(1),
                    data_offset: offset,
                    data: Slot::Value(data),
                },
            ),
        );
        proof {
            assert(fresh_block(data).wf());
            assert forall|b: int| 0 <= b < heap@.len() implies (#[trigger] heap@[b]).wf() by {
                if b < old(heap)@.len() {
                    assert(heap@[b] == old(heap)@[b]);
                }
            }
        }
        VRc { inner, marker: PhantomData }
    }

    /// Like `new`, but gives `data` back where no block can be laid out for
    /// it.
    pub fn try_new(heap: &mut Heap<X>, data: X) -> (r: Result<VRc<X>, X>)
        requires
            old(heap).wf(),
        ensures
            final(heap).wf(),
            r is Ok <==> construction_layout_spec(X::layout_spec()) is Some,
            r is Ok ==> r->Ok_0.block() == old(heap)@.len(),
            r is Ok ==> final(heap)@ == old(heap)@.push(Entry::Allocated(fresh_block(data))),
            r is Err ==> r->Err_0 == data,
            r is Err ==> final(heap)@ == old(heap)@,
    {
        if construction_layout(X::static_layout()).is_some() {
            Ok(Self::new(heap, data))
        } else {
            Err(data)
        }
    }

    /// Forgets the payload's type. The handle still points to the same block,
    /// and no count changes.
    pub fn into_dyn(this: Self) -> (r: VRc<Dyn>)
        ensures
            r.block() == this.block(),
    {
        VRc { inner: this.inner, marker: PhantomData }
    }

    /// The payload. The reference is pinned: a payload keeps its address for
    /// as long as it is alive, and no operation hands out exclusive access to
    /// it.
    pub fn as_pin_ref<'a>(&self, heap: &'a Heap<X>) -> (data: &'a X)
        requires
            heap.is_alive(self.block()),
            heap.wf(),
        ensures
            *data == heap.payload(self.block()),
    {
        self.deref(heap)
    }

    /// The payload.
    pub fn deref<'a>(&self, heap: &'a Heap<X>) -> (data: &'a X)
        requires
            heap.is_alive(self.block()),
            heap.wf(),
        ensures
            *data == heap.payload(self.block()),
    {
        heap.payload_ref(self.inner)
    }
}

} // verus!
