//! Reference-counted handles to objects that live in an explicit store of
//! control blocks: strong and weak handles, type erasure, and mapped handles
//! that keep the owner of a projected sub-object alive.

pub mod counter;
pub mod layout;
pub mod vtable;
pub mod heap;
pub mod rc;
pub mod weak;
pub mod mapped;
pub mod laws;

pub use crate::counter::Counter;
pub use crate::heap::{Entry, Heap, Slot, VRcInner};
pub use crate::layout::Layout;
pub use crate::rc::VRc;
pub use crate::weak::VWeak;
pub use crate::mapped::{VRcMapped, VRcMappedDyn, VWeakMapped, VWeakMappedDyn};
pub use crate::vtable::{Address, Dyn, HasStaticVTable, VRef, VTableMetaDropInPlace, VTableRef};
