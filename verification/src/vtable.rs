//! Capability descriptors: what a type publishes to be managed behind a
//! handle, and the non-owning references that pair a descriptor with an
//! address.

use crate::layout::Layout;
use vstd::prelude::*;

verus! {

/// Marks a handle whose payload type is not known.
pub struct Dyn(());

/// A reference to a capability descriptor: the address at which the table of
/// a type's operations is published.
#[derive(Clone, Copy, Debug, PartialEq, Eq, Structural)]
pub struct VTableRef {
    /// The descriptor's address.
    pub addr: usize,
}

/// The address of an object: the control block it lives in and the byte
/// offset from the start of that block. It never changes while the block's
/// payload is alive.
#[derive(Clone, Copy, Debug, PartialEq, Eq, Structural)]
pub struct Address {
    /// The control block.
    pub block: usize,
    /// The offset in bytes from the start of the block.
    pub offset: usize,
}

/// A non-owning reference to an object of unknown type: its descriptor and
/// its address.
#[derive(Clone, Copy, Debug, PartialEq, Eq, Structural)]
pub struct VRef {
    /// The descriptor of the object's type.
    pub vtable: VTableRef,
    /// Where the object is.
    pub ptr: Address,
}

/// A type with one descriptor for all its values.
pub trait HasStaticVTable {
    /// The descriptor of the type.
    spec fn vtable_spec() -> VTableRef;

    /// Returns the descriptor of the type.
    fn static_vtable() -> (vt: VTableRef)
        ensures
            vt == Self::vtable_spec(),
    ;
}

/// A type that can be managed behind a handle: its descriptor says how much
/// memory a value takes, destroys a value in place and frees a block.
pub trait VTableMetaDropInPlace: HasStaticVTable + Sized {
    /// The memory that a value of the type takes.
    spec fn layout_spec() -> Layout;

    /// Returns the memory that a value of the type takes.
    fn static_layout() -> (layout: Layout)
        ensures
            layout == Self::layout_spec(),
    ;

    /// Destroys the value and returns the memory that it took.
    fn drop_in_place(self) -> (layout: Layout)
        ensures
            layout == Self::layout_spec(),
    ;

    /// Frees the memory of the block `block`, which has the layout `layout`.
    /// It is called once for a block, when its last handle is gone.
    fn dealloc(block: usize, layout: Layout);
}

} // verus!
