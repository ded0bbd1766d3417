use vstd::prelude::*;

verus! {

/// Selects a field instance within its map: the low byte says where the instance is kept.
#[derive(Clone, Copy, Debug, PartialEq, Eq, Hash, Structural)]
pub struct FieldInsSelector(pub u32);

/// Identifies a map block.
#[derive(Clone, Copy, Debug, PartialEq, Eq, Hash, Structural)]
pub struct MapId(pub i32);

/// Handle of a field instance: its selector and the map it belongs to.
#[derive(Clone, Copy, Debug, PartialEq, Eq, Hash, Structural)]
pub struct FieldInsHandle {
    pub selector: FieldInsSelector,
    pub map_id: MapId,
}

/// A bullet. `next_bullet` links the bullets that live outside the preallocated buffer; it
/// is a position in the manager's `spawned` storage.
#[derive(Clone, Copy)]
pub struct CSBulletIns {
    pub field_ins_handle: FieldInsHandle,
    pub next_bullet: Option<usize>,
}

/// The bullets of the bullet manager: 128 preallocated slots, and a linked list, starting at
/// `head`, of the bullets kept in `spawned`.
pub struct CSBulletList {
    pub prealloc_buffer: [CSBulletIns; 128],
    pub spawned: Vec<CSBulletIns>,
    pub head: Option<usize>,
}

pub struct CSBulletManager {
    pub bullets: CSBulletList,
}

/// Whether the list that starts at `current` ends within `fuel` steps, every link inside
/// `spawned`.
pub open spec fn list_ends(spawned: Seq<CSBulletIns>, current: Option<usize>, fuel: nat) -> bool
    decreases fuel,
{
    match current {
        None => true,
        Some(i) => fuel > 0 && i < spawned.len() && list_ends(
            spawned,
            spawned[i as int].next_bullet,
            (fuel - 1) as nat,
        ),
    }
}

/// The first bullet, in list order from `current`, whose handle is `handle`, looking at no
/// more than `fuel` bullets.
pub open spec fn first_match(
    spawned: Seq<CSBulletIns>,
    current: Option<usize>,
    handle: FieldInsHandle,
    fuel: nat,
) -> Option<usize>
    decreases fuel,
{
    match current {
        None => None,
        Some(i) => if fuel == 0 || i >= spawned.len() {
            None
        } else if spawned[i as int].field_ins_handle == handle {
            Some(i)
        } else {
            first_match(spawned, spawned[i as int].next_bullet, handle, (fuel - 1) as nat)
        },
    }
}

/// Where a bullet was found.
pub enum BulletSlot {
    /// A slot of the preallocated buffer.
    Buffer(usize),
    /// A position in the list's storage.
    Spawned(usize),
}

/// The low byte of a handle's selector, which says where the bullet is kept: below 128 the
/// buffer slot, 254 the linked list.
pub open spec fn slot_code(handle: FieldInsHandle) -> u32 {
    handle.selector.0 & 0xff
}

/// Where the bullet with a handle is: the buffer slot named by the selector if that slot
/// holds the handle; for selectors that name the list, the first bullet there with the
/// handle; nothing otherwise.
pub open spec fn bullet_slot(bullets: CSBulletList, handle: FieldInsHandle) -> Option<BulletSlot> {
    let code = slot_code(handle);
    if code < 0x80 {
        if bullets.prealloc_buffer@[code as int].field_ins_handle == handle {
            Some(BulletSlot::Buffer(code as usize))
        } else {
            None
        }
    } else if code == 254 {
        match first_match(bullets.spawned@, bullets.head, handle, bullets.spawned@.len()) {
            Some(i) => Some(BulletSlot::Spawned(i)),
            None => None,
        }
    } else {
        None
    }
}

impl CSBulletList {
    /// The linked list ends, and only links to bullets in `spawned`.
    pub open spec fn wf(&self) -> bool {
        list_ends(self.spawned@, self.head, self.spawned@.len())
    }
}

proof fn lemma_first_match_found(
    spawned: Seq<CSBulletIns>,
    current: Option<usize>,
    handle: FieldInsHandle,
    fuel: nat,
)
    ensures
        first_match(spawned, current, handle, fuel) matches Some(i) ==> i < spawned.len()
            && spawned[i as int].field_ins_handle == handle,
    decreases fuel,
{
    if let Some(i) = current {
        if fuel > 0 && i < spawned.len() && spawned[i as int].field_ins_handle != handle {
            lemma_first_match_found(spawned, spawned[i as int].next_bullet, handle, (fuel - 1) as nat);
        }
    }
}

/// The bullet a handle refers to: what `bullet_slot` names.
pub open spec fn bullet_at(bullets: CSBulletList, slot: BulletSlot) -> CSBulletIns {
    match slot {
        BulletSlot::Buffer(i) => bullets.prealloc_buffer@[i as int],
        BulletSlot::Spawned(i) => bullets.spawned@[i as int],
    }
}

proof fn lemma_first_match_fuel(
    spawned: Seq<CSBulletIns>,
    current: Option<usize>,
    handle: FieldInsHandle,
    fuel: nat,
    more: nat,
)
    requires
        list_ends(spawned, current, fuel),
        fuel <= more,
    ensures
        first_match(spawned, current, handle, fuel) == first_match(spawned, current, handle, more),
    decreases fuel,
{
    if let Some(i) = current {
        if spawned[i as int].field_ins_handle != handle {
            lemma_first_match_fuel(
                spawned,
                spawned[i as int].next_bullet,
                handle,
                (fuel - 1) as nat,
                (more - 1) as nat,
            );
        }
    }
}

/// Where a lookup by handle finds its bullet, by the low byte of the handle's selector: below
/// 0x80 it is the buffer slot of that number, found exactly when that slot holds the handle;
/// 254 sends it to the linked list, walked from its head: the head when it has the handle,
/// else what the rest of the list gives; whatever it finds has the handle. Any other number
/// finds nothing.
pub proof fn lemma_bullet_slot_by_selector(bullets: CSBulletList, handle: FieldInsHandle)
    ensures
        (handle.selector.0 & 0xff) < 0x80 && bullets.prealloc_buffer@[(handle.selector.0 & 0xff) as int].field_ins_handle == handle
            ==> bullet_slot(bullets, handle) == Some(BulletSlot::Buffer((handle.selector.0 & 0xff) as usize)),
        (handle.selector.0 & 0xff) < 0x80 && bullets.prealloc_buffer@[(handle.selector.0 & 0xff) as int].field_ins_handle != handle
            ==> bullet_slot(bullets, handle) is None,
        (handle.selector.0 & 0xff) >= 0x80 && (handle.selector.0 & 0xff) != 254 ==> bullet_slot(bullets, handle) is None,
        (handle.selector.0 & 0xff) != 254 ==> !(bullet_slot(bullets, handle) matches Some(BulletSlot::Spawned(_))),
        bullet_slot(bullets, handle) matches Some(BulletSlot::Spawned(i)) ==> i < bullets.spawned@.len()
            && bullets.spawned@[i as int].field_ins_handle == handle,
        bullets.head matches Some(h) ==> ((handle.selector.0 & 0xff) == 254 && h
            < bullets.spawned@.len() && bullets.spawned@[h as int].field_ins_handle == handle
            ==> bullet_slot(bullets, handle) == Some(BulletSlot::Spawned(h))),
        bullets.head matches Some(h) ==> ((handle.selector.0 & 0xff) == 254 && bullets.wf()
            && bullets.spawned@[h as int].field_ins_handle != handle ==> bullet_slot(
            bullets,
            handle,
        ) == bullet_slot(
            CSBulletList {
                prealloc_buffer: bullets.prealloc_buffer,
                spawned: bullets.spawned,
                head: bullets.spawned@[h as int].next_bullet,
            },
            handle,
        )),
{
    lemma_first_match_found(bullets.spawned@, bullets.head, handle, bullets.spawned@.len());
    if let Some(h) = bullets.head {
        if bullets.wf() && bullets.spawned@[h as int].field_ins_handle != handle {
            let n = bullets.spawned@.len();
            lemma_first_match_fuel(
                bullets.spawned@,
                bullets.spawned@[h as int].next_bullet,
                handle,
                (n - 1) as nat,
                n,
            );
        }
    }
}

/// Lookups of bullets by handle.
pub trait CSBulletManagerExt {
    fn bullet_ins_by_handle(&mut self, handle: &FieldInsHandle) -> Option<&mut CSBulletIns>
        requires
            old(self).list_wf(),
    ;

    /// Whether the lookup comes to an end.
    spec fn list_wf(&self) -> bool;
}

impl CSBulletList {
    /// Finds the first bullet of the linked list with the handle.
    fn find_spawned(&self, handle: &FieldInsHandle) -> (r: Option<usize>)
        requires
            self.wf(),
        ensures
            r == first_match(self.spawned@, self.head, *handle, self.spawned@.len()),
            r matches Some(i) ==> i < self.spawned@.len(),
    {
        let mut current = self.head;
        let ghost mut fuel: nat = self.spawned@.len();
        proof {
            lemma_first_match_found(self.spawned@, self.head, *handle, fuel);
        }
        loop
            invariant
                list_ends(self.spawned@, current, fuel),
                first_match(self.spawned@, current, *handle, fuel) == first_match(
                    self.spawned@,
                    self.head,
                    *handle,
                    self.spawned@.len(),
                ),
            decreases fuel,
        {
            match current {
                None => {
                    return None;
                },
                Some(i) => {
                    let bullet = &self.spawned[i];
                    if bullet.field_ins_handle == *handle {
                        return Some(i);
                    }
                    current = bullet.next_bullet;
                    proof {
                        fuel = (fuel - 1) as nat;
                    }
                },
            }
        }
    }
}

impl CSBulletManagerExt for CSBulletManager {
    open spec fn list_wf(&self) -> bool {
        self.bullets.wf()
    }

    /// The bullet a handle refers to, for changing it.
    fn bullet_ins_by_handle(&mut self, handle: &FieldInsHandle) -> (r: Option<&mut CSBulletIns>)
        ensures
            match bullet_slot(old(self).bullets, *handle) {
                Some(BulletSlot::Buffer(i)) => r matches Some(x) && *x == old(
                    self,
                ).bullets.prealloc_buffer@[i as int] && final(self).bullets.prealloc_buffer@
                    == old(self).bullets.prealloc_buffer@.update(i as int, *final(x))
                    && final(self).bullets.spawned@ == old(self).bullets.spawned@,
                Some(BulletSlot::Spawned(i)) => r matches Some(x) && *x == old(
                    self,
                ).bullets.spawned@[i as int] && final(self).bullets.spawned@ == old(
                    self,
                ).bullets.spawned@.update(i as int, *final(x))
                    && final(self).bullets.prealloc_buffer@ == old(self).bullets.prealloc_buffer@,
                None => r is None && final(self).bullets.prealloc_buffer@ == old(
                    self,
                ).bullets.prealloc_buffer@ && final(self).bullets.spawned@ == old(
                    self,
                ).bullets.spawned@,
            },
            final(self).bullets.head == old(self).bullets.head,
            r matches Some(x) ==> x.field_ins_handle == *handle,
    {
        proof {
            lemma_first_match_found(
                self.bullets.spawned@,
                self.bullets.head,
                *handle,
                self.bullets.spawned@.len(),
            );
        }
        let index = handle.selector.0 & 0xFF;
        if index < 0x80 {
            // In buffer, array access
            let bullet = &mut self.bullets.prealloc_buffer[index as usize];
            if bullet.field_ins_handle == *handle {
                return Some(bullet);
            }
            None
        } else if index == 254 {
            // Not in buffer, walk the linked list
            match self.bullets.find_spawned(handle) {
                Some(i) => Some(&mut self.bullets.spawned[i]),
                None => None,
            }
        } else {
            None
        }
    }
}

} // verus!
