//! Mapped handles: a handle to an object together with the address of a
//! sub-object that is reachable from it.

use crate::heap::{Entry, Heap};
use crate::rc::VRc;
use crate::vtable::{Address, Dyn, HasStaticVTable, VRef, VTableMetaDropInPlace, VTableRef};
use crate::weak::VWeak;
use core::marker::PhantomData;
use vstd::prelude::*;

verus! {

/// A strong handle to an object, without its type, together with the pinned
/// address of a sub-object of type `M`. It keeps the owner's payload alive as
/// any strong handle does, and with it the sub-object.
pub struct VRcMapped<M> {
    pub(crate) owner: VRc<Dyn>,
    pub(crate) object: Address,
    pub(crate) marker: PhantomData<M>,
}

/// A weak handle to an object, without its type, together with the address of
/// a sub-object of type `M`.
pub struct VWeakMapped<M> {
    pub(crate) parent_weak: VWeak<Dyn>,
    pub(crate) object: Address,
    pub(crate) marker: PhantomData<M>,
}

/// A mapped handle whose sub-object has no known type either: it carries the
/// descriptor of the sub-object's type.
pub struct VRcMappedDyn {
    pub(crate) mapped: VRcMapped<Dyn>,
    pub(crate) mapped_vtable: VTableRef,
}

/// The weak counterpart of `VRcMappedDyn`.
pub struct VWeakMappedDyn {
    pub(crate) mapped: VWeakMapped<Dyn>,
    pub(crate) mapped_vtable: VTableRef,
}

impl<X: VTableMetaDropInPlace> VRc<X> {
    /// Turns the handle into a mapped handle. `map_fn` gets the payload and
    /// its address and returns the address of the sub-object to hold on to,
    /// which lies within the payload. It runs once, here. The mapped handle
    /// owns the strong reference that `this` owned: no count changes.
    pub fn map<M, F: FnOnce(&X, Address) -> Address>(
        this: Self,
        heap: &Heap<X>,
        map_fn: F,
    ) -> (r: VRcMapped<M>)
        requires
            heap.wf(),
            heap.is_alive(this.block()),
            call_requires(
                map_fn,
                (&heap.payload(this.block()), heap.inner(this.block()).data_ptr_spec(this.block())),
            ),
            forall|at: Address| #[trigger]
                call_ensures(
                    map_fn,
                    (
                        &heap.payload(this.block()),
                        heap.inner(this.block()).data_ptr_spec(this.block()),
                    ),
                    at,
                ) ==> heap.in_payload(this.block(), at),
        ensures
            r.owner() == this.block(),
            call_ensures(
                map_fn,
                (&heap.payload(this.block()), heap.inner(this.block()).data_ptr_spec(this.block())),
                r.object(),
            ),
            heap.in_payload(r.owner(), r.object()),
            r.object().block == r.owner(),
    {
        let ptr: Address = VRc::borrow(&this, heap).ptr;
        let object: Address = map_fn(this.deref(heap), ptr);
        VRcMapped { owner: VRc::into_dyn(this), object, marker: PhantomData }
    }
}

impl<M> VRcMapped<M> {
    /// The block of the owner.
    pub open(crate) spec fn owner(&self) -> usize {
        self.owner.block()
    }

    /// The address of the sub-object.
    pub open(crate) spec fn object(&self) -> Address {
        self.object
    }

    /// Makes a weak mapped handle to the same sub-object: the weak count of
    /// the owner's block goes up by one.
    pub fn downgrade<X: VTableMetaDropInPlace>(
        this: &Self,
        heap: &mut Heap<X>,
    ) -> (r: VWeakMapped<M>)
        requires
            old(heap).wf(),
            old(heap).is_alive(this.owner()),
            old(heap).weak(this.owner()) < u32::MAX,
        ensures
            final(heap).wf(),
            final(heap)@ == old(heap)@.update(
                this.owner() as int,
                Entry::Allocated(old(heap).inner(this.owner()).acquire_weak_spec()),
            ),
            r.owner() == Some(this.owner()),
            r.object() == this.object(),
    {
        VWeakMapped {
            parent_weak: VRc::downgrade(&this.owner, heap),
            object: this.object,
            marker: PhantomData,
        }
    }

    /// The number of the owner's block.
    pub fn owner_ptr(&self) -> (b: usize)
        ensures
            b == self.owner(),
    {
        VRc::as_ptr(&self.owner)
    }

    /// The pinned address of the sub-object, as the projection gave it.
    pub fn as_pin_ref(&self) -> (object: Address)
        ensures
            object == self.object(),
    {
        self.object
    }

    /// The address of the sub-object.
    pub fn deref(&self) -> (object: Address)
        ensures
            object == self.object(),
    {
        self.object
    }

    /// The owner's payload, in which the sub-object stands.
    pub fn owner_ref<'a, X: VTableMetaDropInPlace>(&self, heap: &'a Heap<X>) -> (data: &'a X)
        requires
            heap.wf(),
            heap.is_alive(self.owner()),
        ensures
            *data == heap.payload(self.owner()),
    {
        heap.payload_ref(VRc::as_ptr(&self.owner))
    }

    /// A new strong handle to the owner: the strong count goes up by one.
    pub fn origin<X: VTableMetaDropInPlace>(this: &Self, heap: &mut Heap<X>) -> (r: VRc<Dyn>)
        requires
            old(heap).wf(),
            old(heap).is_alive(this.owner()),
            old(heap).strong(this.owner()) < u32::MAX,
        ensures
            final(heap).wf(),
            final(heap)@ == old(heap)@.update(
                this.owner() as int,
                Entry::Allocated(old(heap).inner(this.owner()).acquire_strong_spec()),
            ),
            r.block() == this.owner(),
    {
        this.owner.clone(heap)
    }

    /// Makes another mapped handle to the same sub-object: the strong count
    /// of the owner's block goes up by one.
    pub fn clone<X: VTableMetaDropInPlace>(&self, heap: &mut Heap<X>) -> (r: VRcMapped<M>)
        requires
            old(heap).wf(),
            old(heap).is_alive(self.owner()),
            old(heap).strong(self.owner()) < u32::MAX,
        ensures
            final(heap).wf(),
            final(heap)@ == old(heap)@.update(
                self.owner() as int,
                Entry::Allocated(old(heap).inner(self.owner()).acquire_strong_spec()),
            ),
            r.owner() == self.owner(),
            r.object() == self.object(),
    {
        VRcMapped { owner: self.owner.clone(heap), object: self.object, marker: PhantomData }
    }

    /// Gives the handle up, as a strong handle to the owner is given up.
    pub fn drop<X: VTableMetaDropInPlace>(self, heap: &mut Heap<X>)
        requires
            old(heap).wf(),
            old(heap).is_alive(self.owner()),
        ensures
            final(heap).wf(),
            final(heap)@ == old(heap)@.update(
                self.owner() as int,
                old(heap).inner(self.owner()).release_strong_spec(),
            ),
    {
        self.owner.drop(heap)
    }

    /// Maps further, from the sub-object to one of its own. `map_fn` gets the
    /// address of the sub-object and returns an address in the owner's block.
    /// It runs once, here. The new handle owns the strong reference to the
    /// same owner: no count changes.
    pub fn map<R, F: FnOnce(Address) -> Address>(this: Self, map_fn: F) -> (r: VRcMapped<R>)
        requires
            call_requires(map_fn, (this.object(),)),
            forall|at: Address| #[trigger]
                call_ensures(map_fn, (this.object(),), at) ==> at.block == this.owner(),
        ensures
            r.owner() == this.owner(),
            call_ensures(map_fn, (this.object(),), r.object()),
            r.object().block == r.owner(),
    {
        let object: Address = map_fn(this.object);
        VRcMapped { owner: this.owner, object, marker: PhantomData }
    }
}

impl<M: HasStaticVTable> VRcMapped<M> {
    /// A mapped handle to the same sub-object without its type, with the
    /// descriptor of `M`: the strong count of the owner's block goes up by
    /// one.
    pub fn into_dyn<X: VTableMetaDropInPlace>(this: &Self, heap: &mut Heap<X>) -> (r: VRcMappedDyn)
        requires
            old(heap).wf(),
            old(heap).is_alive(this.owner()),
            old(heap).strong(this.owner()) < u32::MAX,
        ensures
            final(heap).wf(),
            final(heap)@ == old(heap)@.update(
                this.owner() as int,
                Entry::Allocated(old(heap).inner(this.owner()).acquire_strong_spec()),
            ),
            r.owner() == this.owner(),
            r.object() == this.object(),
            r.mapped_vtable() == M::vtable_spec(),
    {
        VRcMappedDyn {
            mapped: VRcMapped {
                owner: this.owner.clone(heap),
                object: this.object,
                marker: PhantomData,
            },
            mapped_vtable: M::static_vtable(),
        }
    }
}

impl<M> VWeakMapped<M> {
    /// The block of the owner, if the handle is attached to one.
    pub open(crate) spec fn owner(&self) -> Option<usize> {
        self.parent_weak.block()
    }

    /// The address of the sub-object.
    pub open(crate) spec fn object(&self) -> Address {
        self.object
    }

    /// The handle is attached to no block, or a weak handle to its owner's
    /// block can exist in the store.
    pub open spec fn is_held<X: VTableMetaDropInPlace>(&self, heap: &Heap<X>) -> bool {
        self.owner() is Some ==> heap.is_weakly_held(self.owner().unwrap())
    }

    /// The number of the owner's block, if the handle is attached to one.
    pub fn owner_ptr(&self) -> (b: Option<usize>)
        ensures
            b == self.owner(),
    {
        self.parent_weak.as_ptr()
    }

    /// The address of the sub-object, as it was stored.
    pub fn as_ptr(&self) -> (object: Address)
        ensures
            object == self.object(),
    {
        self.object
    }

    /// Makes another weak mapped handle: the weak count of the owner's block
    /// goes up by one.
    pub fn clone<X: VTableMetaDropInPlace>(&self, heap: &mut Heap<X>) -> (r: VWeakMapped<M>)
        requires
            old(heap).wf(),
            self.is_held(old(heap)),
            self.owner() is Some ==> old(heap).weak(self.owner().unwrap()) < u32::MAX,
        ensures
            final(heap).wf(),
            r.owner() == self.owner(),
            r.object() == self.object(),
            self.owner() is None ==> final(heap)@ == old(heap)@,
            self.owner() is Some ==> final(heap)@ == old(heap)@.update(
                self.owner().unwrap() as int,
                Entry::Allocated(old(heap).inner(self.owner().unwrap()).acquire_weak_spec()),
            ),
    {
        VWeakMapped {
            parent_weak: self.parent_weak.clone(heap),
            object: self.object,
            marker: PhantomData,
        }
    }

    /// Gives the handle up, as a weak handle to the owner is given up.
    pub fn drop<X: VTableMetaDropInPlace>(self, heap: &mut Heap<X>)
        requires
            old(heap).wf(),
            self.is_held(old(heap)),
        ensures
            final(heap).wf(),
            self.owner() is None ==> final(heap)@ == old(heap)@,
            self.owner() is Some ==> final(heap)@ == old(heap)@.update(
                self.owner().unwrap() as int,
                old(heap).inner(self.owner().unwrap()).release_weak_spec(),
            ),
    {
        self.parent_weak.drop(heap)
    }

    /// A new mapped handle to the same sub-object, if the owner's payload is
    /// still alive: the strong count goes up by one. The address is the one
    /// that was stored: it holds because a payload never moves. `None`, and no
    /// change, where the last strong handle is gone.
    pub fn upgrade<X: VTableMetaDropInPlace>(&self, heap: &mut Heap<X>) -> (r: Option<VRcMapped<M>>)
        requires
            old(heap).wf(),
            self.is_held(old(heap)),
            self.owner() is Some ==> old(heap).strong(self.owner().unwrap()) < u32::MAX,
        ensures
            final(heap).wf(),
            r is Some <==> self.owner() is Some && old(heap).is_alive(self.owner().unwrap()),
            r is Some ==> r.unwrap().owner() == self.owner().unwrap(),
            r is Some ==> r.unwrap().object() == self.object(),
            r is Some ==> final(heap)@ == old(heap)@.update(
                self.owner().unwrap() as int,
                Entry::Allocated(old(heap).inner(self.owner().unwrap()).acquire_strong_spec()),
            ),
            r is None ==> final(heap)@ == old(heap)@,
    {
        match self.parent_weak.upgrade(heap) {
            Some(parent) => Some(
                VRcMapped { owner: parent, object: self.object, marker: PhantomData },
            ),
            None => None,
        }
    }
}

impl VRcMappedDyn {
    /// The block of the owner.
    pub open(crate) spec fn owner(&self) -> usize {
        self.mapped.owner()
    }

    /// The address of the sub-object.
    pub open(crate) spec fn object(&self) -> Address {
        self.mapped.object()
    }

    /// The descriptor of the sub-object's type.
    pub open(crate) spec fn mapped_vtable(&self) -> VTableRef {
        self.mapped_vtable
    }

    /// The number of the owner's block.
    pub fn owner_ptr(&self) -> (b: usize)
        ensures
            b == self.owner(),
    {
        self.mapped.owner_ptr()
    }

    /// Makes a weak handle to the same sub-object: the weak count of the
    /// owner's block goes up by one.
    pub fn downgrade<X: VTableMetaDropInPlace>(
        this: &Self,
        heap: &mut Heap<X>,
    ) -> (r: VWeakMappedDyn)
        requires
            old(heap).wf(),
            old(heap).is_alive(this.owner()),
            old(heap).weak(this.owner()) < u32::MAX,
        ensures
            final(heap).wf(),
            final(heap)@ == old(heap)@.update(
                this.owner() as int,
                Entry::Allocated(old(heap).inner(this.owner()).acquire_weak_spec()),
            ),
            r.owner() == Some(this.owner()),
            r.object() == this.object(),
            r.mapped_vtable() == this.mapped_vtable(),
    {
        VWeakMappedDyn {
            mapped: VRcMapped::downgrade(&this.mapped, heap),
            mapped_vtable: this.mapped_vtable,
        }
    }

    /// A reference to the sub-object without its type: the descriptor of the
    /// sub-object's type and the sub-object's address.
    pub fn borrow(this: &Self) -> (r: VRef)
        ensures
            r == (VRef { vtable: this.mapped_vtable(), ptr: this.object() }),
    {
        VRef { vtable: this.mapped_vtable, ptr: this.mapped.object }
    }

    /// The same reference as `borrow` gives: the projection gave a pinned
    /// address.
    pub fn borrow_pin(this: &Self) -> (r: VRef)
        ensures
            r == (VRef { vtable: this.mapped_vtable(), ptr: this.object() }),
    {
        Self::borrow(this)
    }

    /// The owner's payload, in which the sub-object stands.
    pub fn owner_ref<'a, X: VTableMetaDropInPlace>(&self, heap: &'a Heap<X>) -> (data: &'a X)
        requires
            heap.wf(),
            heap.is_alive(self.owner()),
        ensures
            *data == heap.payload(self.owner()),
    {
        self.mapped.owner_ref(heap)
    }

    /// A new strong handle to the owner: the strong count goes up by one.
    pub fn origin<X: VTableMetaDropInPlace>(this: &Self, heap: &mut Heap<X>) -> (r: VRc<Dyn>)
        requires
            old(heap).wf(),
            old(heap).is_alive(this.owner()),
            old(heap).strong(this.owner()) < u32::MAX,
        ensures
            final(heap).wf(),
            final(heap)@ == old(heap)@.update(
                this.owner() as int,
                Entry::Allocated(old(heap).inner(this.owner()).acquire_strong_spec()),
            ),
            r.block() == this.owner(),
    {
        VRcMapped::origin(&this.mapped, heap)
    }

    /// Makes another handle to the same sub-object: the strong count of the
    /// owner's block goes up by one.
    pub fn clone<X: VTableMetaDropInPlace>(&self, heap: &mut Heap<X>) -> (r: VRcMappedDyn)
        requires
            old(heap).wf(),
            old(heap).is_alive(self.owner()),
            old(heap).strong(self.owner()) < u32::MAX,
        ensures
            final(heap).wf(),
            final(heap)@ == old(heap)@.update(
                self.owner() as int,
                Entry::Allocated(old(heap).inner(self.owner()).acquire_strong_spec()),
            ),
            r.owner() == self.owner(),
            r.object() == self.object(),
            r.mapped_vtable() == self.mapped_vtable(),
    {
        VRcMappedDyn { mapped: self.mapped.clone(heap), mapped_vtable: self.mapped_vtable }
    }

    /// Gives the handle up, as a strong handle to the owner is given up.
    pub fn drop<X: VTableMetaDropInPlace>(self, heap: &mut Heap<X>)
        requires
            old(heap).wf(),
            old(heap).is_alive(self.owner()),
        ensures
            final(heap).wf(),
            final(heap)@ == old(heap)@.update(
                self.owner() as int,
                old(heap).inner(self.owner()).release_strong_spec(),
            ),
    {
        self.mapped.drop(heap)
    }
}

impl VWeakMappedDyn {
    /// The block of the owner, if the handle is attached to one.
    pub open(crate) spec fn owner(&self) -> Option<usize> {
        self.mapped.owner()
    }

    /// The address of the sub-object.
    pub open(crate) spec fn object(&self) -> Address {
        self.mapped.object()
    }

    /// The descriptor of the sub-object's type.
    pub open(crate) spec fn mapped_vtable(&self) -> VTableRef {
        self.mapped_vtable
    }

    /// The handle is attached to no block, or a weak handle to its owner's
    /// block can exist in the store.
    pub open spec fn is_held<X: VTableMetaDropInPlace>(&self, heap: &Heap<X>) -> bool {
        self.owner() is Some ==> heap.is_weakly_held(self.owner().unwrap())
    }

    /// The number of the owner's block, if the handle is attached to one.
    pub fn owner_ptr(&self) -> (b: Option<usize>)
        ensures
            b == self.owner(),
    {
        self.mapped.owner_ptr()
    }

    /// Makes another weak handle: the weak count of the owner's block goes up
    /// by one.
    pub fn clone<X: VTableMetaDropInPlace>(&self, heap: &mut Heap<X>) -> (r: VWeakMappedDyn)
        requires
            old(heap).wf(),
            self.is_held(old(heap)),
            self.owner() is Some ==> old(heap).weak(self.owner().unwrap()) < u32::MAX,
        ensures
            final(heap).wf(),
            r.owner() == self.owner(),
            r.object() == self.object(),
            r.mapped_vtable() == self.mapped_vtable(),
            self.owner() is None ==> final(heap)@ == old(heap)@,
            self.owner() is Some ==> final(heap)@ == old(heap)@.update(
                self.owner().unwrap() as int,
                Entry::Allocated(old(heap).inner(self.owner().unwrap()).acquire_weak_spec()),
            ),
    {
        VWeakMappedDyn { mapped: self.mapped.clone(heap), mapped_vtable: self.mapped_vtable }
    }

    /// Gives the handle up, as a weak handle to the owner is given up.
    pub fn drop<X: VTableMetaDropInPlace>(self, heap: &mut Heap<X>)
        requires
            old(heap).wf(),
            self.is_held(old(heap)),
        ensures
            final(heap).wf(),
            self.owner() is None ==> final(heap)@ == old(heap)@,
            self.owner() is Some ==> final(heap)@ == old(heap)@.update(
                self.owner().unwrap() as int,
                old(heap).inner(self.owner().unwrap()).release_weak_spec(),
            ),
    {
        self.mapped.drop(heap)
    }

    /// A new handle to the same sub-object, with the same descriptor, if the
    /// owner's payload is still alive: the strong count goes up by one.
    /// `None`, and no change, where the last strong handle is gone.
    pub fn upgrade<X: VTableMetaDropInPlace>(&self, heap: &mut Heap<X>) -> (r: Option<VRcMappedDyn>)
        requires
            old(heap).wf(),
            self.is_held(old(heap)),
            self.owner() is Some ==> old(heap).strong(self.owner().unwrap()) < u32::MAX,
        ensures
            final(heap).wf(),
            r is Some <==> self.owner() is Some && old(heap).is_alive(self.owner().unwrap()),
            r is Some ==> r.unwrap().owner() == self.owner().unwrap(),
            r is Some ==> r.unwrap().object() == self.object(),
            r is Some ==> r.unwrap().mapped_vtable() == self.mapped_vtable(),
            r is Some ==> final(heap)@ == old(heap)@.update(
                self.owner().unwrap() as int,
                Entry::Allocated(old(heap).inner(self.owner().unwrap()).acquire_strong_spec()),
            ),
            r is None ==> final(heap)@ == old(heap)@,
    {
        match self.mapped.upgrade(heap) {
            Some(mapped) => Some(VRcMappedDyn { mapped, mapped_vtable: self.mapped_vtable }),
            None => None,
        }
    }
}

} // verus!
