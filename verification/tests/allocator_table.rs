use wordboy::allocator::{ObjAttrAllocator, SpriteTable};
use wordboy::video::{ObjAttr, TileSize};

#[test]
fn sequential_writes_occupy_slots_in_call_order() {
    let mut table = SpriteTable::new();
    let mut alloc = ObjAttrAllocator::new();
    let descriptors = [
        ObjAttr::new().tile(1).x(10).y(20),
        ObjAttr::new().tile(2).x(30).y(40),
        ObjAttr::new().tile(3).size(TileSize::size_16x16()),
    ];
    for (i, d) in descriptors.iter().enumerate() {
        let slot = alloc.allocate_and_write(&mut table, *d).unwrap();
        assert_eq!(slot, i);
    }
    for (i, d) in descriptors.iter().enumerate() {
        assert!(table.slot(i) == *d);
    }
    // Slots never written still hold the degenerate descriptor.
    assert!(table.slot(3) == ObjAttr::new());
    assert!(table.slot(127) == ObjAttr::new());
}

#[test]
fn write_past_capacity_is_an_error() {
    let mut table = SpriteTable::new();
    let mut alloc = ObjAttrAllocator::new();
    let d = ObjAttr::new().tile(7);
    for i in 0..128 {
        assert_eq!(alloc.allocate_and_write(&mut table, d).unwrap(), i);
    }
    let e = alloc.allocate_and_write(&mut table, d).unwrap_err();
    assert_eq!(e.index, 128);
    assert_eq!(e.count, 128);
    // The failed call touched nothing: the last slot keeps its descriptor
    // and the counter stays put.
    assert!(table.slot(127) == d);
}

#[test]
fn allocate_alone_counts_up_and_stops_at_capacity() {
    let mut alloc = ObjAttrAllocator::new();
    assert_eq!(alloc.allocate().unwrap(), 0);
    assert_eq!(alloc.allocate().unwrap(), 1);
    let mut alloc = ObjAttrAllocator(127);
    assert_eq!(alloc.allocate().unwrap(), 127);
    assert!(alloc.allocate().is_err());
}

#[test]
fn clear_resets_every_slot() {
    let mut table = SpriteTable::new();
    let mut alloc = ObjAttrAllocator::new();
    for _ in 0..10 {
        alloc.allocate_and_write(&mut table, ObjAttr::new().tile(9).palette(2)).unwrap();
    }
    table.clear();
    for i in 0..128 {
        assert!(table.slot(i) == ObjAttr::new());
    }
}

#[test]
fn write_slot_replaces_exactly_one_slot() {
    let mut table = SpriteTable::new();
    let d = ObjAttr::new().tile(42).x(5);
    table.write_slot(64, d);
    assert!(table.slot(64) == d);
    assert!(table.slot(63) == ObjAttr::new());
    assert!(table.slot(65) == ObjAttr::new());
}
