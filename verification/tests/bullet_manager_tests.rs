use eldenring::bullet_manager::{
    CSBulletIns, CSBulletList, CSBulletManager, CSBulletManagerExt, FieldInsHandle,
    FieldInsSelector, MapId,
};

fn handle(selector: u32, map: i32) -> FieldInsHandle {
    FieldInsHandle { selector: FieldInsSelector(selector), map_id: MapId(map) }
}

fn bullet(h: FieldInsHandle, next: Option<usize>) -> CSBulletIns {
    CSBulletIns { field_ins_handle: h, next_bullet: next }
}

fn manager() -> CSBulletManager {
    let empty = bullet(handle(0xffff_ffff, -1), None);
    let mut prealloc_buffer = [empty; 128];
    prealloc_buffer[5] = bullet(handle(0x0100_0005, 10), None);
    // List: 2 -> 0 -> 1
    let spawned = vec![
        bullet(handle(0x0200_00fe, 11), Some(1)),
        bullet(handle(0x0300_00fe, 11), None),
        bullet(handle(0x0100_00fe, 11), Some(0)),
    ];
    CSBulletManager { bullets: CSBulletList { prealloc_buffer, spawned, head: Some(2) } }
}

#[test]
fn buffer_bullet_is_found_by_its_slot() {
    let mut m = manager();
    let h = handle(0x0100_0005, 10);
    let found = m.bullet_ins_by_handle(&h).expect("bullet in slot 5");
    assert_eq!(found.field_ins_handle, h);
    found.next_bullet = Some(7);
    assert_eq!(m.bullets.prealloc_buffer[5].next_bullet, Some(7));
}

#[test]
fn buffer_slot_with_another_handle_gives_nothing() {
    let mut m = manager();
    assert!(m.bullet_ins_by_handle(&handle(0x0100_0005, 99)).is_none());
    assert!(m.bullet_ins_by_handle(&handle(0x0100_0006, 10)).is_none());
}

#[test]
fn listed_bullet_is_found_by_walking_the_list() {
    let mut m = manager();
    let h = handle(0x0300_00fe, 11);
    let found = m.bullet_ins_by_handle(&h).expect("bullet at the end of the list");
    assert_eq!(found.field_ins_handle, h);
    found.field_ins_handle = handle(0x0400_00fe, 11);
    assert_eq!(m.bullets.spawned[1].field_ins_handle, handle(0x0400_00fe, 11));
    assert!(m.bullet_ins_by_handle(&handle(0x0500_00fe, 11)).is_none());
}

#[test]
fn other_selectors_give_nothing() {
    let mut m = manager();
    // Present in the list, but the selector names neither the buffer nor the list.
    m.bullets.spawned[0].field_ins_handle = handle(0x0200_0090, 11);
    assert!(m.bullet_ins_by_handle(&handle(0x0200_0090, 11)).is_none());
    assert!(m.bullet_ins_by_handle(&handle(0x0200_00ff, 11)).is_none());
}
