use std::cell::Cell;
use std::rc::Rc;
use vrc::{
    Address, Dyn, HasStaticVTable, Heap, Layout, VRc, VRef, VTableMetaDropInPlace, VTableRef,
    VWeak,
};

struct Probe {
    id: u64,
    name: String,
    drops: Rc<Cell<u32>>,
}

impl Probe {
    fn new(id: u64, drops: &Rc<Cell<u32>>) -> Probe {
        Probe { id, name: format!("probe {}", id), drops: drops.clone() }
    }
}

impl HasStaticVTable for Probe {
    fn vtable_spec() -> VTableRef {
        VTableRef { addr: 0x1000 }
    }

    fn static_vtable() -> VTableRef {
        VTableRef { addr: 0x1000 }
    }
}

impl VTableMetaDropInPlace for Probe {
    fn layout_spec() -> Layout {
        Layout { size: 40, align: 8 }
    }

    fn static_layout() -> Layout {
        Layout { size: 40, align: 8 }
    }

    fn drop_in_place(self) -> Layout {
        self.drops.set(self.drops.get() + 1);
        Layout { size: 40, align: 8 }
    }

    fn dealloc(_block: usize, _layout: Layout) {}
}

struct Small(u8);

impl HasStaticVTable for Small {
    fn vtable_spec() -> VTableRef {
        VTableRef { addr: 0x2000 }
    }

    fn static_vtable() -> VTableRef {
        VTableRef { addr: 0x2000 }
    }
}

impl VTableMetaDropInPlace for Small {
    fn layout_spec() -> Layout {
        Layout { size: 1, align: 1 }
    }

    fn static_layout() -> Layout {
        Layout { size: 1, align: 1 }
    }

    fn drop_in_place(self) -> Layout {
        Layout { size: 1, align: 1 }
    }

    fn dealloc(_block: usize, _layout: Layout) {}
}

struct Page(u32);

impl HasStaticVTable for Page {
    fn vtable_spec() -> VTableRef {
        VTableRef { addr: 0x3000 }
    }

    fn static_vtable() -> VTableRef {
        VTableRef { addr: 0x3000 }
    }
}

impl VTableMetaDropInPlace for Page {
    fn layout_spec() -> Layout {
        Layout { size: 65536, align: 65536 }
    }

    fn static_layout() -> Layout {
        Layout { size: 65536, align: 65536 }
    }

    fn drop_in_place(self) -> Layout {
        Layout { size: 65536, align: 65536 }
    }

    fn dealloc(_block: usize, _layout: Layout) {}
}

#[test]
fn new_block_starts_with_both_counts_at_one() {
    let drops = Rc::new(Cell::new(0));
    let mut heap: Heap<Probe> = Heap::new();
    assert_eq!(heap.len(), 0);
    let a = VRc::new(&mut heap, Probe::new(1, &drops));
    let b = VRc::as_ptr(&a);
    assert_eq!(b, 0);
    assert_eq!(heap.len(), 1);
    assert!(heap.allocated(b));
    assert!(heap.alive(b));
    assert!(!heap.weakly_held(b));
    assert_eq!(heap.strong_count(b), Some(1));
    assert_eq!(heap.weak_count(b), Some(1));
    assert_eq!(heap.data_offset(b), Some(24));
    assert_eq!(heap.allocated_layout(b), Some(Layout { size: 64, align: 8 }));
    assert_eq!(heap.stored_layout(b), None);
    assert_eq!(heap.freed_layout(b), None);
    assert_eq!(VRc::strong_count(&a, &heap), 1);
    assert_eq!(a.deref(&heap).id, 1);
    assert_eq!(drops.get(), 0);
}

#[test]
fn observers_answer_for_blocks_that_never_were() {
    let heap: Heap<Probe> = Heap::new();
    assert!(!heap.allocated(0));
    assert!(!heap.alive(0));
    assert!(!heap.weakly_held(3));
    assert_eq!(heap.strong_count(0), None);
    assert_eq!(heap.weak_count(0), None);
    assert_eq!(heap.freed_layout(0), None);
    assert_eq!(heap.stored_layout(0), None);
    assert_eq!(heap.allocated_layout(0), None);
    assert_eq!(heap.data_offset(0), None);
}

#[test]
fn ptr_eq_holds_of_a_clone_and_not_of_an_equal_object() {
    let drops = Rc::new(Cell::new(0));
    let mut heap: Heap<Probe> = Heap::new();
    let a = VRc::new(&mut heap, Probe::new(1, &drops));
    let b = VRc::new(&mut heap, Probe::new(1, &drops));
    let c = a.clone(&mut heap);
    assert!(VRc::ptr_eq(&a, &a));
    assert!(VRc::ptr_eq(&a, &c));
    assert!(VRc::ptr_eq(&c, &a));
    assert!(!VRc::ptr_eq(&a, &b));
    assert!(!VRc::ptr_eq(&b, &c));
    assert_eq!(a.deref(&heap).id, b.deref(&heap).id);
    assert_eq!(a.deref(&heap).name, b.deref(&heap).name);
}

#[test]
fn clone_and_drop_move_the_strong_count() {
    let drops = Rc::new(Cell::new(0));
    let mut heap: Heap<Probe> = Heap::new();
    let a = VRc::new(&mut heap, Probe::new(1, &drops));
    let b = a.clone(&mut heap);
    assert_eq!(VRc::strong_count(&a, &heap), 2);
    assert_eq!(heap.weak_count(0), Some(1));
    let c = b.clone(&mut heap);
    assert_eq!(VRc::strong_count(&c, &heap), 3);
    b.drop(&mut heap);
    assert_eq!(VRc::strong_count(&a, &heap), 2);
    assert_eq!(drops.get(), 0);
    a.drop(&mut heap);
    assert_eq!(VRc::strong_count(&c, &heap), 1);
    assert_eq!(c.deref(&heap).name, "probe 1");
    assert_eq!(drops.get(), 0);
}

#[test]
fn last_strong_drop_without_weak_handles_frees_the_block() {
    let drops = Rc::new(Cell::new(0));
    let mut heap: Heap<Probe> = Heap::new();
    let a = VRc::new(&mut heap, Probe::new(1, &drops));
    let other = VRc::new(&mut heap, Probe::new(2, &drops));
    a.drop(&mut heap);
    assert_eq!(drops.get(), 1);
    assert!(!heap.allocated(0));
    assert!(!heap.alive(0));
    assert_eq!(heap.strong_count(0), None);
    assert_eq!(heap.freed_layout(0), Some(Layout { size: 64, align: 8 }));
    assert!(heap.alive(1));
    assert_eq!(other.deref(&heap).id, 2);
    assert_eq!(heap.len(), 2);
}

#[test]
fn destructor_runs_once_on_the_last_of_three_strong_drops() {
    let drops = Rc::new(Cell::new(0));
    let mut heap: Heap<Probe> = Heap::new();
    let a = VRc::new(&mut heap, Probe::new(7, &drops));
    let b = a.clone(&mut heap);
    let c = a.clone(&mut heap);
    assert_eq!(VRc::strong_count(&a, &heap), 3);
    let weak = VRc::downgrade(&a, &mut heap);
    let spare = weak.clone(&mut heap);
    assert_eq!(heap.weak_count(0), Some(3));

    a.drop(&mut heap);
    assert_eq!(drops.get(), 0);
    b.drop(&mut heap);
    assert_eq!(drops.get(), 0);
    assert!(heap.alive(0));
    c.drop(&mut heap);
    assert_eq!(drops.get(), 1);

    assert!(heap.allocated(0));
    assert!(!heap.alive(0));
    assert_eq!(heap.strong_count(0), Some(0));
    assert_eq!(heap.weak_count(0), Some(2));
    assert_eq!(heap.stored_layout(0), Some(Layout { size: 64, align: 8 }));
    assert_eq!(heap.freed_layout(0), None);

    assert!(spare.upgrade(&mut heap).is_none());
    assert_eq!(heap.strong_count(0), Some(0));
    assert_eq!(heap.weak_count(0), Some(2));

    spare.drop(&mut heap);
    assert!(heap.allocated(0));
    assert_eq!(heap.weak_count(0), Some(1));
    weak.drop(&mut heap);
    assert!(!heap.allocated(0));
    assert_eq!(heap.freed_layout(0), Some(Layout { size: 64, align: 8 }));
    assert_eq!(drops.get(), 1);
}

#[test]
fn weak_handles_do_not_delay_the_destructor() {
    let drops = Rc::new(Cell::new(0));
    let mut heap: Heap<Probe> = Heap::new();
    let a = VRc::new(&mut heap, Probe::new(1, &drops));
    let w1 = VRc::downgrade(&a, &mut heap);
    let w2 = VRc::downgrade(&a, &mut heap);
    let w3 = w2.clone(&mut heap);
    assert_eq!(heap.weak_count(0), Some(4));
    a.drop(&mut heap);
    assert_eq!(drops.get(), 1);
    assert!(heap.allocated(0));
    assert_eq!(heap.weak_count(0), Some(3));
    w1.drop(&mut heap);
    w3.drop(&mut heap);
    assert!(heap.allocated(0));
    assert!(heap.weakly_held(0));
    w2.drop(&mut heap);
    assert!(!heap.allocated(0));
    assert_eq!(drops.get(), 1);
}

#[test]
fn weak_drop_before_the_strong_one_leaves_the_block_to_it() {
    let drops = Rc::new(Cell::new(0));
    let mut heap: Heap<Probe> = Heap::new();
    let a = VRc::new(&mut heap, Probe::new(1, &drops));
    let w = VRc::downgrade(&a, &mut heap);
    assert!(heap.weakly_held(0));
    w.drop(&mut heap);
    assert!(heap.alive(0));
    assert_eq!(heap.weak_count(0), Some(1));
    assert_eq!(drops.get(), 0);
    a.drop(&mut heap);
    assert_eq!(drops.get(), 1);
    assert!(!heap.allocated(0));
}

#[test]
fn upgrade_follows_the_strong_count() {
    let drops = Rc::new(Cell::new(0));
    let mut heap: Heap<Probe> = Heap::new();
    let a = VRc::new(&mut heap, Probe::new(5, &drops));
    let w = VRc::downgrade(&a, &mut heap);
    assert_eq!(w.as_ptr(), Some(0));
    let b = w.upgrade(&mut heap).unwrap();
    assert!(VRc::ptr_eq(&a, &b));
    assert_eq!(VRc::strong_count(&a, &heap), 2);
    assert_eq!(b.deref(&heap).id, 5);
    a.drop(&mut heap);
    let c = w.upgrade(&mut heap).unwrap();
    assert!(VRc::ptr_eq(&b, &c));
    assert_eq!(VRc::strong_count(&c, &heap), 2);
    b.drop(&mut heap);
    c.drop(&mut heap);
    assert_eq!(drops.get(), 1);
    assert!(w.upgrade(&mut heap).is_none());
    assert!(w.upgrade(&mut heap).is_none());
    assert_eq!(heap.strong_count(0), Some(0));
    w.drop(&mut heap);
    assert!(!heap.allocated(0));
}

#[test]
fn upgrade_after_the_last_drop_never_gives_a_handle() {
    let drops = Rc::new(Cell::new(0));
    let mut heap: Heap<Probe> = Heap::new();
    for round in 0..200usize {
        let a = VRc::new(&mut heap, Probe::new(round as u64, &drops));
        let w = VRc::downgrade(&a, &mut heap);
        if round % 2 == 0 {
            let got = w.upgrade(&mut heap);
            a.drop(&mut heap);
            let got = got.unwrap();
            assert_eq!(got.deref(&heap).id, round as u64);
            assert_eq!(drops.get() as usize, round);
            got.drop(&mut heap);
        } else {
            a.drop(&mut heap);
            assert!(w.upgrade(&mut heap).is_none());
        }
        assert_eq!(drops.get() as usize, round + 1);
        w.drop(&mut heap);
        assert!(!heap.allocated(round));
    }
}

#[test]
fn detached_weak_handle_does_nothing() {
    let drops = Rc::new(Cell::new(0));
    let mut heap: Heap<Probe> = Heap::new();
    let a = VRc::new(&mut heap, Probe::new(1, &drops));
    let w: VWeak<Probe> = VWeak::default();
    assert_eq!(w.as_ptr(), None);
    let w2 = w.clone(&mut heap);
    assert_eq!(w2.as_ptr(), None);
    assert!(w.upgrade(&mut heap).is_none());
    let erased: VWeak<Dyn> = w2.into_dyn();
    assert_eq!(erased.as_ptr(), None);
    erased.drop(&mut heap);
    w.drop(&mut heap);
    assert_eq!(heap.strong_count(0), Some(1));
    assert_eq!(heap.weak_count(0), Some(1));
    assert_eq!(VRc::strong_count(&a, &heap), 1);
}

#[test]
fn into_dyn_keeps_the_block_and_the_counts() {
    let drops = Rc::new(Cell::new(0));
    let mut heap: Heap<Probe> = Heap::new();
    let first = VRc::new(&mut heap, Probe::new(1, &drops));
    let a = VRc::new(&mut heap, Probe::new(2, &drops));
    let before = VRc::as_ptr(&a);
    let w = VRc::downgrade(&a, &mut heap);
    let erased: VRc<Dyn> = VRc::into_dyn(a);
    assert_eq!(VRc::as_ptr(&erased), before);
    assert_eq!(VRc::as_ptr(&erased), 1);
    assert_eq!(VRc::strong_count(&erased, &heap), 1);
    assert_eq!(heap.weak_count(1), Some(2));
    let weak_erased: VWeak<Dyn> = w.into_dyn();
    assert_eq!(weak_erased.as_ptr(), Some(1));
    assert_eq!(heap.weak_count(1), Some(2));
    assert_eq!(drops.get(), 0);
    let again = weak_erased.upgrade(&mut heap).unwrap();
    assert!(VRc::ptr_eq(&erased, &again));
    again.drop(&mut heap);
    erased.drop(&mut heap);
    assert_eq!(drops.get(), 1);
    weak_erased.drop(&mut heap);
    assert!(!heap.allocated(1));
    assert_eq!(VRc::strong_count(&first, &heap), 1);
}

#[test]
fn borrow_gives_the_descriptor_and_the_payload_address() {
    let drops = Rc::new(Cell::new(0));
    let mut heap: Heap<Probe> = Heap::new();
    let _first = VRc::new(&mut heap, Probe::new(1, &drops));
    let a = VRc::new(&mut heap, Probe::new(2, &drops));
    let expected =
        VRef { vtable: VTableRef { addr: 0x1000 }, ptr: Address { block: 1, offset: 24 } };
    assert_eq!(VRc::borrow(&a, &heap), expected);
    assert_eq!(VRc::borrow_pin(&a, &heap), expected);
    let erased = VRc::into_dyn(a);
    assert_eq!(VRc::borrow(&erased, &heap), expected);
    assert_eq!(VRc::borrow_pin(&erased, &heap), expected);
}

#[test]
fn as_pin_ref_reads_the_payload_in_place() {
    let drops = Rc::new(Cell::new(0));
    let mut heap: Heap<Probe> = Heap::new();
    let a = VRc::new(&mut heap, Probe::new(9, &drops));
    let _b = VRc::new(&mut heap, Probe::new(10, &drops));
    assert_eq!(a.as_pin_ref(&heap).id, 9);
    assert_eq!(a.as_pin_ref(&heap).name, "probe 9");
    assert_eq!(a.deref(&heap).id, 9);
}

#[test]
fn small_payload_gets_a_block_that_holds_a_layout() {
    let mut heap: Heap<Small> = Heap::new();
    let a = VRc::new(&mut heap, Small(3));
    assert_eq!(a.deref(&heap).0, 3);
    assert_eq!(heap.data_offset(0), Some(24));
    assert_eq!(heap.allocated_layout(0), Some(Layout { size: 40, align: 8 }));
    let w = VRc::downgrade(&a, &mut heap);
    a.drop(&mut heap);
    assert_eq!(heap.stored_layout(0), Some(Layout { size: 40, align: 8 }));
    assert_eq!(heap.allocated_layout(0), Some(Layout { size: 40, align: 8 }));
    w.drop(&mut heap);
    assert_eq!(heap.freed_layout(0), Some(Layout { size: 40, align: 8 }));
    assert_eq!(heap.allocated_layout(0), None);
}

#[test]
fn try_new_gives_the_value_back_where_no_block_fits() {
    let mut heap: Heap<Page> = Heap::new();
    match VRc::try_new(&mut heap, Page(11)) {
        Ok(_) => panic!("a block was laid out"),
        Err(page) => assert_eq!(page.0, 11),
    }
    assert_eq!(heap.len(), 0);
}

#[test]
fn try_new_allocates_where_a_block_fits() {
    let drops = Rc::new(Cell::new(0));
    let mut heap: Heap<Probe> = Heap::new();
    let a = match VRc::try_new(&mut heap, Probe::new(4, &drops)) {
        Ok(a) => a,
        Err(_) => panic!("no block was laid out"),
    };
    assert_eq!(VRc::as_ptr(&a), 0);
    assert_eq!(heap.strong_count(0), Some(1));
    assert_eq!(heap.weak_count(0), Some(1));
    assert_eq!(a.deref(&heap).id, 4);
}

#[test]
fn one_byte_payload_is_allocated_and_freed_with_forty_bytes() {
    let mut heap: Heap<Small> = Heap::new();
    let a = VRc::new(&mut heap, Small(0));
    assert_eq!(heap.allocated_layout(0), Some(Layout { size: 40, align: 8 }));
    a.drop(&mut heap);
    assert_eq!(heap.freed_layout(0), Some(Layout { size: 40, align: 8 }));
    assert!(!heap.allocated(0));
}

#[test]
fn block_is_freed_with_the_layout_it_was_allocated_with() {
    let drops = Rc::new(Cell::new(0));
    let mut heap: Heap<Probe> = Heap::new();
    let a = VRc::new(&mut heap, Probe::new(1, &drops));
    let b = VRc::new(&mut heap, Probe::new(2, &drops));
    let w = VRc::downgrade(&b, &mut heap);
    let at_first = heap.allocated_layout(0);
    let at_second = heap.allocated_layout(1);
    assert_eq!(at_first, Some(Layout { size: 64, align: 8 }));
    assert_eq!(at_second, at_first);
    a.drop(&mut heap);
    assert_eq!(heap.freed_layout(0), at_first);
    b.drop(&mut heap);
    assert_eq!(heap.stored_layout(1), at_second);
    assert_eq!(heap.allocated_layout(1), at_second);
    w.drop(&mut heap);
    assert_eq!(heap.freed_layout(1), at_second);
}

#[test]
fn holds_in_payload_bounds_the_payload() {
    let drops = Rc::new(Cell::new(0));
    let mut heap: Heap<Probe> = Heap::new();
    let _a = VRc::new(&mut heap, Probe::new(1, &drops));
    let _b = VRc::new(&mut heap, Probe::new(2, &drops));
    assert!(heap.holds_in_payload(1, Address { block: 1, offset: 24 }));
    assert!(heap.holds_in_payload(1, Address { block: 1, offset: 40 }));
    assert!(heap.holds_in_payload(1, Address { block: 1, offset: 64 }));
    assert!(!heap.holds_in_payload(1, Address { block: 1, offset: 65 }));
    assert!(!heap.holds_in_payload(1, Address { block: 1, offset: 23 }));
    assert!(!heap.holds_in_payload(1, Address { block: 1, offset: 0 }));
    assert!(!heap.holds_in_payload(1, Address { block: 0, offset: 24 }));
    assert!(!heap.holds_in_payload(1, Address { block: 1, offset: usize::MAX }));
    assert_eq!(heap.payload_ref(1).id, 2);
}
