use std::sync::Mutex;
use vrc::{HasStaticVTable, Heap, Layout, VRc, VTableMetaDropInPlace, VTableRef};

static FREED: Mutex<Vec<(usize, Layout)>> = Mutex::new(Vec::new());

struct Logged(u16);

impl HasStaticVTable for Logged {
    fn vtable_spec() -> VTableRef {
        VTableRef { addr: 0x6000 }
    }

    fn static_vtable() -> VTableRef {
        VTableRef { addr: 0x6000 }
    }
}

impl VTableMetaDropInPlace for Logged {
    fn layout_spec() -> Layout {
        Layout { size: 2, align: 2 }
    }

    fn static_layout() -> Layout {
        Layout { size: 2, align: 2 }
    }

    fn drop_in_place(self) -> Layout {
        Layout { size: 2, align: 2 }
    }

    fn dealloc(block: usize, layout: Layout) {
        FREED.lock().unwrap().push((block, layout));
    }
}

#[test]
fn descriptor_frees_each_block_once_with_its_layout() {
    let mut heap: Heap<Logged> = Heap::new();
    let a = VRc::new(&mut heap, Logged(1));
    let b = VRc::new(&mut heap, Logged(2));
    let a2 = a.clone(&mut heap);
    let w = VRc::downgrade(&b, &mut heap);
    assert_eq!(b.deref(&heap).0, 2);
    assert_eq!(heap.allocated_layout(0), Some(Layout { size: 40, align: 8 }));
    assert_eq!(heap.allocated_layout(1), Some(Layout { size: 40, align: 8 }));
    a.drop(&mut heap);
    assert!(FREED.lock().unwrap().is_empty());
    b.drop(&mut heap);
    assert!(FREED.lock().unwrap().is_empty());
    a2.drop(&mut heap);
    assert_eq!(*FREED.lock().unwrap(), vec![(0, Layout { size: 40, align: 8 })]);
    w.drop(&mut heap);
    assert_eq!(
        *FREED.lock().unwrap(),
        vec![(0, Layout { size: 40, align: 8 }), (1, Layout { size: 40, align: 8 })]
    );
}
