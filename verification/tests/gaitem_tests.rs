use eldenring::gaitem::{
    CSGaitemImp, CSGaitemImpEntry, CSGaitemImpExt, CSGaitemIns, GaitemCategory, GaitemHandle,
    GaitemHandleError,
};

#[test]
fn handle_from_parts_layout() {
    let h = GaitemHandle::from_parts(0x0080_0012, GaitemCategory::Weapon);
    assert_eq!(h.0, 0x8080_0012);
    let g = GaitemHandle::from_parts(0xFF12_3456, GaitemCategory::Gem);
    assert_eq!(g.0, 0xC012_3456);
    assert_eq!(g.selector(), 0x12_3456);
    assert_eq!(g.index(), 0x3456);
    assert!(!g.is_indexed());
    assert_eq!(g.category(), Ok(GaitemCategory::Gem));
}

#[test]
fn handle_round_trip_every_category() {
    let cats = [
        GaitemCategory::Weapon,
        GaitemCategory::Protector,
        GaitemCategory::Accessory,
        GaitemCategory::Goods,
        GaitemCategory::Gem,
    ];
    for c in cats {
        let h = GaitemHandle::from_parts(0x00AB_CDEF, c);
        assert_eq!(h.category(), Ok(c));
        assert_eq!(h.selector(), 0xAB_CDEF);
        assert!(h.is_indexed());
        assert_eq!(h.index(), 0xCDEF);
    }
}

#[test]
fn category_from_u8() {
    assert_eq!(GaitemCategory::from_u8(&0), Ok(GaitemCategory::Weapon));
    assert_eq!(GaitemCategory::from_u8(&3), Ok(GaitemCategory::Goods));
    assert_eq!(GaitemCategory::from_u8(&4), Ok(GaitemCategory::Gem));
    assert_eq!(GaitemCategory::from_u8(&5), Err(GaitemHandleError::InvalidCategory(5)));
    assert_eq!(GaitemCategory::from_u8(&255), Err(GaitemHandleError::InvalidCategory(255)));
}

#[test]
fn invalid_category_in_handle() {
    let h = GaitemHandle(0xF000_0001);
    assert_eq!(h.category(), Err(GaitemHandleError::InvalidCategory(7)));
}

fn empty_imp() -> Box<CSGaitemImp> {
    Box::new(CSGaitemImp {
        vftable: 0,
        gaitems: std::array::from_fn(|_| None),
        gaitem_descriptors: std::array::from_fn(|_| CSGaitemImpEntry {
            unindexed_gaitem_handle: 0,
            ref_count: 0,
        }),
        indexes: [0; 5120],
        write_index: 0,
        read_index: 0,
        rand_xorshift: [0; 0x18],
        unk23028: [0; 8],
        is_being_serialized: false,
        unk23038: [0; 7],
    })
}

#[test]
fn gaitem_lookup_by_handle() {
    let mut imp = empty_imp();
    let handle = GaitemHandle::from_parts(0x0080_0007, GaitemCategory::Weapon);
    imp.gaitems[7] = Some(Box::new(CSGaitemIns {
        vftable: 0,
        gaitem_handle: handle,
        item_id: 1_000_000,
    }));
    let found = imp.gaitem_ins_by_handle(&handle).expect("indexed item");
    assert_eq!(found.item_id, 1_000_000);
    // unindexed handles are never looked up
    let unindexed = GaitemHandle::from_parts(0x0000_0007, GaitemCategory::Goods);
    assert!(imp.gaitem_ins_by_handle(&unindexed).is_none());
    // an empty slot
    let other = GaitemHandle::from_parts(0x0080_0008, GaitemCategory::Weapon);
    assert!(imp.gaitem_ins_by_handle(&other).is_none());
    // an index past the store
    let past = GaitemHandle::from_parts(0x0080_FFFF, GaitemCategory::Weapon);
    assert!(imp.gaitem_ins_by_handle(&past).is_none());
}

#[test]
fn gaitem_lookup_mut_changes_the_slot() {
    let mut imp = empty_imp();
    let handle = GaitemHandle::from_parts(0x0080_0002, GaitemCategory::Protector);
    imp.gaitems[2] = Some(Box::new(CSGaitemIns { vftable: 0, gaitem_handle: handle, item_id: 5 }));
    if let Some(g) = imp.gaitem_ins_by_handle_mut(&handle) {
        g.item_id = 6;
    }
    assert_eq!(imp.gaitems[2].as_ref().unwrap().item_id, 6);
}

#[test]
fn handle_text() {
    let indexed = GaitemHandle::from_parts(0x0080_0012, GaitemCategory::Weapon);
    assert_eq!(indexed.to_string(), "GaitemHandle(18,0x800012,Weapon)");
    let unindexed = GaitemHandle::from_parts(0x1234, GaitemCategory::Goods);
    assert_eq!(unindexed.to_string(), "GaitemHandle(-1,4660,Goods)");
    let invalid = GaitemHandle(0xF000_0001);
    assert_eq!(invalid.to_string(), "GaitemHandle(0xf0000001,InvalidCategory(7))");
}
