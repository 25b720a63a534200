//! The store of control blocks: one block per object, with its two counters,
//! the payload offset and the payload slot.

use crate::counter::Counter;
use crate::layout::{construction_layout_spec, Layout};
use crate::vtable::{Address, VTableMetaDropInPlace, VTableRef};
use vstd::prelude::*;

verus! {

/// What the payload slot of a block holds: the live object, or, once the
/// object is destroyed, the layout to free the block with.
pub enum Slot<X> {
    /// The live object.
    Value(X),
    /// The layout of the whole block, kept for its deallocation.
    Layout(Layout),
}

/// A control block: what all the handles to one object share.
pub struct VRcInner<X> {
    /// The layout that the block was allocated with. It is written once, when
    /// the block is made, and is what the allocator holds of the block: the
    /// header does not count it.
    pub layout: Layout,
    /// The descriptor of the payload's type.
    pub vtable: VTableRef,
    /// The number of strong handles. When it reaches 0 the payload is
    /// destroyed.
    pub strong_ref: Counter,
    /// The number of weak handles, plus 1 for all the strong handles together.
    /// When it reaches 0 the block is deallocated.
    pub weak_ref: Counter,
    /// The offset of the payload from the start of the block.
    pub data_offset: u16,
    /// The payload, or the block's layout once the payload is destroyed.
    pub data: Slot<X>,
}

impl<X> VRcInner<X> {
    /// The address of the payload of the block `block`.
    pub open spec fn data_ptr_spec(self, block: usize) -> Address {
        Address { block, offset: self.data_offset as usize }
    }

    /// The address of the payload, where `self` is the block `block`.
    pub fn data_ptr(&self, block: usize) -> (ptr: Address)
        ensures
            ptr == self.data_ptr_spec(block),
    {
        Address { block, offset: self.data_offset as usize }
    }

    /// The payload.
    pub fn as_ref(&self) -> (data: &X)
        requires
            self.data is Value,
        ensures
            self.data == Slot::Value(*data),
    {
        match &self.data {
            Slot::Value(data) => data,
            Slot::Layout(_) => vstd::pervasive::unreached(),
        }
    }
}

/// The state of one block of the store.
pub enum Entry<X> {
    /// The block is allocated.
    Allocated(VRcInner<X>),
    /// The block was deallocated, with this layout.
    Freed(Layout),
}

/// The layout that a block whose payload is an `X` is allocated with, and
/// deallocated with: large enough for the header with the payload and for
/// the header with a `Layout`.
pub open spec fn allocation_layout_spec<X: VTableMetaDropInPlace>() -> Layout {
    construction_layout_spec(X::layout_spec()).unwrap().0
}

/// The block that a new object is put in.
pub open spec fn fresh_block<X: VTableMetaDropInPlace>(data: X) -> VRcInner<X> {
    VRcInner {
        layout: allocation_layout_spec::<X>(),
        vtable: X::vtable_spec(),
        strong_ref: Counter { value: 1 },
        weak_ref: Counter { value: 1 },
        data_offset: construction_layout_spec(X::layout_spec()).unwrap().1,
        data: Slot::Value(data),
    }
}

impl<X: VTableMetaDropInPlace> VRcInner<X> {
    /// The invariant of an allocated block: it was allocated with the layout
    /// for its payload's type, the strong handles together hold one weak
    /// reference, the payload is alive exactly while a strong handle exists,
    /// and afterwards the slot holds the layout to free the block with, which
    /// is the one it was allocated with.
    pub open spec fn wf(self) -> bool {
        &&& self.vtable == X::vtable_spec()
        &&& construction_layout_spec(X::layout_spec()) is Some
        &&& self.layout == allocation_layout_spec::<X>()
        &&& self.data_offset == construction_layout_spec(X::layout_spec()).unwrap().1
        &&& self.weak_ref.value >= 1
        &&& (self.strong_ref.value == 0 <==> self.data is Layout)
        &&& (self.data is Layout ==> self.data->Layout_0 == allocation_layout_spec::<X>())
    }

    /// The block with one strong handle more.
    pub open spec fn acquire_strong_spec(self) -> VRcInner<X> {
        VRcInner { strong_ref: Counter { value: (self.strong_ref.value + 1) as u32 }, ..self }
    }

    /// The block with one weak handle more.
    pub open spec fn acquire_weak_spec(self) -> VRcInner<X> {
        VRcInner { weak_ref: Counter { value: (self.weak_ref.value + 1) as u32 }, ..self }
    }

    /// What becomes of the block when a strong handle is dropped. While others
    /// remain only the count changes. The last one destroys the payload and
    /// gives up the weak reference that the strong handles held together: with
    /// weak handles left the slot keeps the layout for them, with none the
    /// block is deallocated.
    pub open spec fn release_strong_spec(self) -> Entry<X> {
        if self.strong_ref.value > 1 {
            Entry::Allocated(
                VRcInner { strong_ref: Counter { value: (self.strong_ref.value - 1) as u32 }, ..self },
            )
        } else if self.weak_ref.value > 1 {
            Entry::Allocated(
                VRcInner {
                    strong_ref: Counter { value: 0 },
                    weak_ref: Counter { value: (self.weak_ref.value - 1) as u32 },
                    data: Slot::Layout(allocation_layout_spec::<X>()),
                    ..self
                },
            )
        } else {
            Entry::Freed(allocation_layout_spec::<X>())
        }
    }

    /// What becomes of the block when a weak handle is dropped: the last weak
    /// reference deallocates it with the layout found in the slot.
    pub open spec fn release_weak_spec(self) -> Entry<X> {
        if self.weak_ref.value > 1 {
            Entry::Allocated(
                VRcInner { weak_ref: Counter { value: (self.weak_ref.value - 1) as u32 }, ..self },
            )
        } else {
            Entry::Freed(self.data->Layout_0)
        }
    }
}

impl<X: VTableMetaDropInPlace> Entry<X> {
    /// The invariant of a block of the store.
    pub open spec fn wf(self) -> bool {
        match self {
            Entry::Allocated(inner) => inner.wf(),
            Entry::Freed(layout) => layout == allocation_layout_spec::<X>(),
        }
    }
}

/// The store: every block that was ever allocated, by its number.
pub struct Heap<X> {
    pub(crate) blocks: Vec<Entry<X>>,
}

impl<X> View for Heap<X> {
    type V = Seq<Entry<X>>;

    open(crate) spec fn view(&self) -> Seq<Entry<X>> {
        self.blocks@
    }
}

impl<X: VTableMetaDropInPlace> Heap<X> {
    /// Every block of the store meets its invariant.
    pub open spec fn wf(&self) -> bool {
        forall|b: int| 0 <= b < self@.len() ==> (#[trigger] self@[b]).wf()
    }

    /// The block `b` is allocated.
    pub open spec fn is_allocated(&self, b: usize) -> bool {
        b < self@.len() && self@[b as int] is Allocated
    }

    /// The allocated block `b`.
    pub open spec fn inner(&self, b: usize) -> VRcInner<X>
        recommends
            self.is_allocated(b),
    {
        self@[b as int]->Allocated_0
    }

    /// The number of strong handles to the block `b`.
    pub open spec fn strong(&self, b: usize) -> u32
        recommends
            self.is_allocated(b),
    {
        self.inner(b).strong_ref.value
    }

    /// The weak count of the block `b`.
    pub open spec fn weak(&self, b: usize) -> u32
        recommends
            self.is_allocated(b),
    {
        self.inner(b).weak_ref.value
    }

    /// The payload of the block `b` is alive: a strong handle to it exists.
    pub open spec fn is_alive(&self, b: usize) -> bool {
        self.is_allocated(b) && self.strong(b) > 0
    }

    /// A weak handle to the block `b` can exist: the block is allocated, and
    /// its weak count holds more than the one reference of the strong handles.
    pub open spec fn is_weakly_held(&self, b: usize) -> bool {
        self.is_allocated(b) && (self.strong(b) > 0 ==> self.weak(b) > 1)
    }

    /// The live payload of the block `b`.
    pub open spec fn payload(&self, b: usize) -> X
        recommends
            self.is_alive(b),
    {
        self.inner(b).data->Value_0
    }

    /// The address lies within the payload of the block `b`: in that block,
    /// not before the payload's start and not behind its end.
    pub open spec fn in_payload(&self, b: usize, at: Address) -> bool
        recommends
            self.is_allocated(b),
    {
        &&& at.block == b
        &&& self.inner(b).data_offset <= at.offset
        &&& at.offset <= self.inner(b).data_offset + X::layout_spec().size
    }

    /// An empty store.
    pub fn new() -> (heap: Heap<X>)
        ensures
            heap@ == Seq::<Entry<X>>::empty(),
            heap.wf(),
    {
        Heap { blocks: Vec::new() }
    }

    /// Deallocates the block `b` with `layout`: the descriptor frees its
    /// memory, and the store records the layout.
    pub(crate) fn dealloc(&mut self, b: usize, layout: Layout)
        requires
            b < old(self)@.len(),
        ensures
            final(self)@ == old(self)@.update(b as int, Entry::Freed(layout)),
    {
        X::dealloc(b, layout);
        self.blocks[b] = Entry::Freed(layout);
    }

    /// Whether the block `b` is allocated.
    pub fn allocated(&self, b: usize) -> (r: bool)
        ensures
            r == self.is_allocated(b),
    {
        if b < self.blocks.len() {
            match &self.blocks[b] {
                Entry::Allocated(_) => true,
                Entry::Freed(_) => false,
            }
        } else {
            false
        }
    }

    /// Whether the payload of the block `b` is alive.
    pub fn alive(&self, b: usize) -> (r: bool)
        ensures
            r == self.is_alive(b),
    {
        if b < self.blocks.len() {
            match &self.blocks[b] {
                Entry::Allocated(inner) => inner.strong_ref.load() > 0,
                Entry::Freed(_) => false,
            }
        } else {
            false
        }
    }

    /// Whether a weak handle to the block `b` can exist.
    pub fn weakly_held(&self, b: usize) -> (r: bool)
        ensures
            r == self.is_weakly_held(b),
    {
        if b < self.blocks.len() {
            match &self.blocks[b] {
                Entry::Allocated(inner) => inner.strong_ref.load() == 0 || inner.weak_ref.load()
                    > 1,
                Entry::Freed(_) => false,
            }
        } else {
            false
        }
    }

    /// The strong count of the block `b`, if the block is allocated.
    pub fn strong_count(&self, b: usize) -> (r: Option<u32>)
        ensures
            r == if self.is_allocated(b) {
                Some(self.strong(b))
            } else {
                None::<u32>
            },
    {
        if b < self.blocks.len() {
            match &self.blocks[b] {
                Entry::Allocated(inner) => Some(inner.strong_ref.load()),
                Entry::Freed(_) => None,
            }
        } else {
            None
        }
    }

    /// The weak count of the block `b`, if the block is allocated: the number
    /// of weak handles, plus 1 while a strong handle exists.
    pub fn weak_count(&self, b: usize) -> (r: Option<u32>)
        ensures
            r == if self.is_allocated(b) {
                Some(self.weak(b))
            } else {
                None::<u32>
            },
    {
        if b < self.blocks.len() {
            match &self.blocks[b] {
                Entry::Allocated(inner) => Some(inner.weak_ref.load()),
                Entry::Freed(_) => None,
            }
        } else {
            None
        }
    }

    /// The layout that the block `b` was allocated with, if it is allocated.
    pub fn allocated_layout(&self, b: usize) -> (r: Option<Layout>)
        ensures
            r == if self.is_allocated(b) {
                Some(self.inner(b).layout)
            } else {
                None::<Layout>
            },
    {
        if b < self.blocks.len() {
            match &self.blocks[b] {
                Entry::Allocated(inner) => Some(inner.layout),
                Entry::Freed(_) => None,
            }
        } else {
            None
        }
    }

    /// Whether the address lies within the payload of the block `b`.
    pub fn holds_in_payload(&self, b: usize, at: Address) -> (r: bool)
        requires
            self.is_allocated(b),
        ensures
            r == self.in_payload(b, at),
    {
        match &self.blocks[b] {
            Entry::Allocated(inner) => {
                let start: usize = inner.data_offset as usize;
                let size: usize = X::static_layout().size;
                at.block == b && start <= at.offset && at.offset - start <= size
            },
            Entry::Freed(_) => vstd::pervasive::unreached(),
        }
    }

    /// The live payload of the block `b`.
    pub fn payload_ref(&self, b: usize) -> (data: &X)
        requires
            self.wf(),
            self.is_alive(b),
        ensures
            *data == self.payload(b),
    {
        match &self.blocks[b] {
            Entry::Allocated(inner) => inner.as_ref(),
            Entry::Freed(_) => vstd::pervasive::unreached(),
        }
    }

    /// The layout that the block `b` was deallocated with, if it was.
    pub fn freed_layout(&self, b: usize) -> (r: Option<Layout>)
        ensures
            r == if b < self@.len() && self@[b as int] is Freed {
                Some(self@[b as int]->Freed_0)
            } else {
                None::<Layout>
            },
    {
        if b < self.blocks.len() {
            match &self.blocks[b] {
                Entry::Allocated(_) => None,
                Entry::Freed(layout) => Some(*layout),
            }
        } else {
            None
        }
    }

    /// The layout that waits in the payload slot of the block `b`, if the
    /// block is allocated and its payload is destroyed.
    pub fn stored_layout(&self, b: usize) -> (r: Option<Layout>)
        ensures
            r == if self.is_allocated(b) && self.inner(b).data is Layout {
                Some(self.inner(b).data->Layout_0)
            } else {
                None::<Layout>
            },
    {
        if b < self.blocks.len() {
            match &self.blocks[b] {
                Entry::Allocated(inner) => match &inner.data {
                    Slot::Layout(layout) => Some(*layout),
                    Slot::Value(_) => None,
                },
                Entry::Freed(_) => None,
            }
        } else {
            None
        }
    }

    /// The payload offset stored in the block `b`, if the block is allocated.
    pub fn data_offset(&self, b: usize) -> (r: Option<u16>)
        ensures
            r == if self.is_allocated(b) {
                Some(self.inner(b).data_offset)
            } else {
                None::<u16>
            },
    {
        if b < self.blocks.len() {
            match &self.blocks[b] {
                Entry::Allocated(inner) => Some(inner.data_offset),
                Entry::Freed(_) => None,
            }
        } else {
            None
        }
    }

    /// The number of blocks that were ever allocated.
    pub fn len(&self) -> (n: usize)
        ensures
            n == self@.len(),
    {
        self.blocks.len()
    }
}

} // verus!
