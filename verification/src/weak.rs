//! Weak handles.

use crate::heap::{Entry, Heap, Slot};
use crate::layout::Layout;
use crate::rc::VRc;
use crate::vtable::{Dyn, VTableMetaDropInPlace};
use core::marker::PhantomData;
use vstd::prelude::*;

verus! {

/// A non-owning handle. It keeps its block allocated, not the payload alive,
/// and counts as one weak reference to the block from its creation until it
/// is dropped. One that was never attached points to no block.
pub struct VWeak<T = Dyn> {
    pub(crate) inner: Option<usize>,
    pub(crate) marker: PhantomData<T>,
}

impl<T> Default for VWeak<T> {
    /// A handle that is attached to no block.
    fn default() -> (r: Self)
        ensures
            r.block() is None,
    {
        VWeak { inner: None, marker: PhantomData }
    }
}

impl<T> VWeak<T> {
    /// The block that the handle points to, if it is attached to one.
    pub open(crate) spec fn block(&self) -> Option<usize> {
        self.inner
    }

    /// The handle is attached to no block, or a weak handle to its block can
    /// exist in the store.
    pub open spec fn is_held<X: VTableMetaDropInPlace>(&self, heap: &Heap<X>) -> bool {
        self.block() is Some ==> heap.is_weakly_held(self.block().unwrap())
    }

    /// The number of the block that the handle points to, if it is attached
    /// to one.
    pub fn as_ptr(&self) -> (b: Option<usize>)
        ensures
            b == self.block(),
    {
        self.inner
    }

    /// Makes another weak handle to the same block: the weak count goes up by
    /// one. A handle that is not attached gives one that is not attached.
    pub fn clone<X: VTableMetaDropInPlace>(&self, heap: &mut Heap<X>) -> (r: VWeak<T>)
        requires
            old(heap).wf(),
            self.is_held(old(heap)),
            self.block() is Some ==> old(heap).weak(self.block().unwrap()) < u32::MAX,
        ensures
            final(heap).wf(),
            r.block() == self.block(),
            self.block() is None ==> final(heap)@ == old(heap)@,
            self.block() is Some ==> final(heap)@ == old(heap)@.update(
                self.block().unwrap() as int,
                Entry::Allocated(old(heap).inner(self.block().unwrap()).acquire_weak_spec()),
            ),
    {
        if let Some(b) = self.inner {
            match &mut heap.blocks[b] {
                Entry::Allocated(inner) => {
                    inner.weak_ref.fetch_add(1);
                },
                Entry::Freed(_) => {},
            }
        }
        VWeak { inner: self.inner, marker: PhantomData }
    }

    /// Gives the handle up: the weak count goes down by one. The last weak
    /// reference deallocates the block with the layout that the last strong
    /// handle left in the payload slot.
    pub fn drop<X: VTableMetaDropInPlace>(self, heap: &mut Heap<X>)
        requires
            old(heap).wf(),
            self.is_held(old(heap)),
        ensures
            final(heap).wf(),
            self.block() is None ==> final(heap)@ == old(heap)@,
            self.block() is Some ==> final(heap)@ == old(heap)@.update(
                self.block().unwrap() as int,
                old(heap).inner(self.block().unwrap()).release_weak_spec(),
            ),
    {
        if let Some(b) = self.inner {
            let mut freed: Option<Layout> = None;
            match &mut heap.blocks[b] {
                Entry::Allocated(inner) => {
                    if inner.weak_ref.fetch_sub(1) == 1 {
                        match &inner.data {
                            Slot::Layout(layout) => {
                                freed = Some(*layout);
                            },
                            Slot::Value(_) => {},
                        }
                    }
                },
                Entry::Freed(_) => {},
            }
            if let Some(layout) = freed {
                heap.dealloc(b, layout);
            }
        }
    }

    /// A new strong handle, if the payload is still alive: the strong count
    /// goes up by one. `None`, and no change, where the handle is not attached
    /// or the last strong handle is gone.
    ///
    /// The test for zero and the change of the count are one step of the
    /// counter, so that a count that has reached zero is never raised.
    pub fn upgrade<X: VTableMetaDropInPlace>(&self, heap: &mut Heap<X>) -> (r: Option<VRc<T>>)
        requires
            old(heap).wf(),
            self.is_held(old(heap)),
            self.block() is Some ==> old(heap).strong(self.block().unwrap()) < u32::MAX,
        ensures
            final(heap).wf(),
            r is Some <==> self.block() is Some && old(heap).is_alive(self.block().unwrap()),
            r is Some ==> r.unwrap().block() == self.block().unwrap(),
            r is Some ==> final(heap)@ == old(heap)@.update(
                self.block().unwrap() as int,
                Entry::Allocated(old(heap).inner(self.block().unwrap()).acquire_strong_spec()),
            ),
            r is None ==> final(heap)@ == old(heap)@,
    {
        match self.inner {
            None => None,
            Some(b) => {
                match &mut heap.blocks[b] {
                    Entry::Allocated(inner) => {
                        if inner.strong_ref.increment_unless_zero() {
                            Some(VRc { inner: b, marker: PhantomData })
                        } else {
                            None
                        }
                    },
                    Entry::Freed(_) => None,
                }
            },
        }
    }

    /// Forgets the payload's type. The handle still points to the same block,
    /// and no count changes.
    pub fn into_dyn(self) -> (r: VWeak<Dyn>)
        ensures
            r.block() == self.block(),
    {
        VWeak { inner: self.inner, marker: PhantomData }
    }
}

} // verus!
