use vstd::prelude::*;
use crate::stl::Tree;
use vstd::std_specs::convert::IntoSpec;

verus! {

/// An event flag id: flags are grouped by thousands, and within a group each id names one
/// bit of a 125-byte block, most significant bit first.
pub struct EventFlag(u32);

impl View for EventFlag {
    type V = u32;

    closed spec fn view(&self) -> u32 {
        self.0
    }
}

impl From<u32> for EventFlag {
    fn from(value: u32) -> (r: Self)
        ensures
            r@ == value,
    {
        EventFlag(value)
    }
}

impl vstd::std_specs::convert::FromSpecImpl<u32> for EventFlag {
    open spec fn obeys_from_spec() -> bool {
        true
    }

    closed spec fn from_spec(v: u32) -> Self {
        EventFlag(v)
    }
}

/// The flag that an id converts to names that id.
pub broadcast proof fn lemma_flag_from_id(v: u32)
    ensures
        #[trigger] <EventFlag as vstd::std_specs::convert::FromSpec<u32>>::from_spec(v)@ == v,
{
}

/// The group of a flag id.
pub open spec fn flag_group(id: u32) -> u32 {
    id / 1000
}

/// The byte of its group's block that holds a flag id's bit.
pub open spec fn flag_byte(id: u32) -> u32 {
    (id % 1000) / 8
}

/// The bit (counted from the least significant) of its byte that holds a flag id.
pub open spec fn flag_bit(id: u32) -> u32 {
    (7 - ((id % 1000) % 8)) as u32
}

/// Whether two flag ids name the same bit of a block.
pub open spec fn same_bit(a: u32, b: u32) -> bool {
    flag_byte(a) == flag_byte(b) && flag_bit(a) == flag_bit(b)
}

impl EventFlag {
    pub fn group(&self) -> (r: u32)
        ensures
            r == flag_group(self@),
    {
        self.0 / 1000
    }

    pub fn byte(&self) -> (r: u32)
        ensures
            r == flag_byte(self@),
            r < 125,
    {
        (self.0 % 1000) / 8
    }

    pub fn bit(&self) -> (r: u32)
        ensures
            r == flag_bit(self@),
            r < 8,
    {
        7 - ((self.0 % 1000) % 8)
    }
}

/// A flag id is its group's thousand plus its place in the group's block: the group is the
/// id's thousands, and within the thousand the id counts bytes of eight flags, most
/// significant bit first. So every id is found under group `id / 1000`, at byte
/// `(id % 1000) / 8`, bit `7 - id % 8`, and two ids share a group, byte and bit only when they
/// are equal.
pub proof fn lemma_flag_id_layout(id: u32)
    ensures
        flag_group(id) as int * 1000 <= id < flag_group(id) as int * 1000 + 1000,
        flag_byte(id) < 125,
        flag_bit(id) < 8,
        id as int == flag_group(id) as int * 1000 + flag_byte(id) as int * 8 + (7 - flag_bit(
            id,
        ) as int),
{
}

/// Two flag ids with the same group, byte and bit are the same id.
pub proof fn lemma_flag_place_identifies_id(a: u32, b: u32)
    requires
        flag_group(a) == flag_group(b),
        flag_byte(a) == flag_byte(b),
        flag_bit(a) == flag_bit(b),
    ensures
        a == b,
{
    lemma_flag_id_layout(a);
    lemma_flag_id_layout(b);
}

/// Whether bit `bit` of byte `byte` of a block is set.
pub open spec fn bytes_bit(bytes: Seq<u8>, byte: u32, bit: u32) -> bool {
    bytes[byte as int] & ((1u8 << bit) as u8) != 0
}

/// Whether the bit of a flag id is set in a block's bytes.
pub open spec fn block_flag(bytes: Seq<u8>, id: u32) -> bool {
    bytes_bit(bytes, flag_byte(id), flag_bit(id))
}

/// Within its byte a flag is counted from the most significant bit: the flag whose id leaves
/// remainder `k` after the byte's first id is the bit `0x80 >> k`.
pub proof fn lemma_block_flag_msb_first(bytes: Seq<u8>, id: u32)
    ensures
        block_flag(bytes, id) == (bytes[flag_byte(id) as int] & (0x80u8 >> ((id % 8) as u8)) != 0),
{
    let b = bytes[flag_byte(id) as int];
    let k = (id % 8) as u32;
    assert(flag_bit(id) == 7 - k);
    assert((b & ((1u8 << ((7 - k) as u32)) as u8) != 0) == (b & (0x80u8 >> (k as u8)) != 0)) by (bit_vector)
        requires
            k < 8,
    ;
}

/// A byte with one bit set to `state` and the others kept.
pub open spec fn with_bit(byte: u8, bit: u32, state: bool) -> u8 {
    if state {
        byte | ((1u8 << bit) as u8)
    } else {
        byte & !((1u8 << bit) as u8)
    }
}

/// Setting bit `i` of a byte sets bit `i` to `state` and leaves every other bit.
pub proof fn lemma_with_bit(byte: u8, i: u32, j: u32, state: bool)
    requires
        i < 8,
        j < 8,
    ensures
        (with_bit(byte, i, state) & ((1u8 << j) as u8) != 0) == (if i == j {
            state
        } else {
            byte & ((1u8 << j) as u8) != 0
        }),
{
    if state {
        assert((byte | ((1u8 << i) as u8)) & ((1u8 << j) as u8) != 0 == (if i == j {
            true
        } else {
            byte & ((1u8 << j) as u8) != 0
        })) by (bit_vector)
            requires
                i < 8,
                j < 8,
        ;
    } else {
        assert((byte & !((1u8 << i) as u8)) & ((1u8 << j) as u8) != 0 == (if i == j {
            false
        } else {
            byte & ((1u8 << j) as u8) != 0
        })) by (bit_vector)
            requires
                i < 8,
                j < 8,
        ;
    }
}

/// The bits of the event flags of one group.
pub struct FlagBlock {
    pub bytes: [u8; 125],
}

impl FlagBlock {
    pub fn set(&mut self, flag: EventFlag, state: bool)
        ensures
            final(self).bytes@ == old(self).bytes@.update(
                flag_byte(flag@) as int,
                with_bit(old(self).bytes@[flag_byte(flag@) as int], flag_bit(flag@), state),
            ),
    {
        let index = flag.byte() as usize;
        let byte = self.bytes[index];
        let mask: u8 = 0b00000001u8 << flag.bit();
        let updated = match state {
            true => byte | mask,
            false => byte & !mask,
        };
        self.bytes[index] = updated;
    }

    pub fn get(&self, flag: EventFlag) -> (r: bool)
        ensures
            r == block_flag(self.bytes@, flag@),
    {
        let byte = self.bytes[flag.byte() as usize];
        let mask: u8 = 0b00000001u8 << flag.bit();
        (byte & mask) != 0
    }
}

/// After `set(flag, state)`, the block reads `state` for `flag` and what it read before for
/// every flag on another bit.
pub proof fn lemma_flag_block_set_get(before: Seq<u8>, flag: u32, other: u32, state: bool)
    requires
        before.len() == 125,
    ensures
        ({
            let after = before.update(
                flag_byte(flag) as int,
                with_bit(before[flag_byte(flag) as int], flag_bit(flag), state),
            );
            &&& block_flag(after, flag) == state
            &&& !same_bit(flag, other) ==> block_flag(after, other) == block_flag(before, other)
        }),
{
    lemma_with_bit(before[flag_byte(flag) as int], flag_bit(flag), flag_bit(flag), state);
    lemma_with_bit(before[flag_byte(flag) as int], flag_bit(flag), flag_bit(other), state);
}

/// Where a descriptor's flag block lies.
#[derive(Clone, Copy)]
pub enum FlagBlockLocation {
    /// At this position among the holder blocks.
    HolderOffset(u32),
    /// At this position among the blocks that lie outside the holder.
    External(usize),
}

/// Describes where to find the flag block of a group.
pub struct FlagBlockDescriptor {
    pub group: u32,
    pub unk4: u32,
    /// 1 when the block lies in the holder, 2 when it lies outside it.
    pub location_mode: u32,
    pub unkc: u32,
    pub location: FlagBlockLocation,
}

/// Which block a flag lives in.
pub ghost enum FlagBlockId {
    Holder(int),
    External(int),
}

/// The event flag store: the holder blocks, the blocks outside the holder, and a tree of
/// descriptors that says for each group where its block lies.
pub struct CSFD4VirtualMemoryFlag {
    pub vftable: usize,
    pub allocator: usize,
    pub unk10: u32,
    pub unk14: u32,
    pub unk18: u32,
    /// Used to determine the event flag group.
    pub event_flag_divisor: u32,
    /// Size of an event flag group in bytes.
    pub event_flag_holder_size: u32,
    /// Amount of event flag groups.
    pub event_flag_holder_count: u32,
    /// The blocks of the holder, which holder offsets index.
    pub flag_blocks: Vec<FlagBlock>,
    /// The blocks that lie outside the holder, which external locations index.
    pub external_flag_blocks: Vec<FlagBlock>,
    /// Describes where to find a flag block.
    pub flag_block_descriptors: Tree<FlagBlockDescriptor>,
    pub unk38: [u8; 0x30],
}

/// The position of the first of `vals` that has group `group`.
pub open spec fn first_with_group(vals: Seq<FlagBlockDescriptor>, group: u32) -> Option<int>
    decreases vals.len(),
{
    if vals.len() == 0 {
        None
    } else if vals[0].group == group {
        Some(0)
    } else {
        match first_with_group(vals.drop_first(), group) {
            Some(k) => Some(k + 1),
            None => None,
        }
    }
}

/// The first descriptor with a group is the earliest one with it.
pub proof fn lemma_first_with_group_spec(vals: Seq<FlagBlockDescriptor>, group: u32)
    ensures
        match first_with_group(vals, group) {
            Some(k) => 0 <= k < vals.len() && vals[k].group == group && forall|j: int|
                0 <= j < k ==> (#[trigger] vals[j]).group != group,
            None => forall|j: int| 0 <= j < vals.len() ==> (#[trigger] vals[j]).group != group,
        },
    decreases vals.len(),
{
    if vals.len() > 0 && vals[0].group != group {
        let rest = vals.drop_first();
        lemma_first_with_group_spec(rest, group);
        match first_with_group(rest, group) {
            Some(k) => {
                assert forall|j: int| 0 <= j < k + 1 implies (#[trigger] vals[j]).group != group by {
                    if j > 0 {
                        assert(vals[j] == rest[j - 1]);
                    }
                }
                assert(vals[k + 1] == rest[k]);
            },
            None => {
                assert forall|j: int| 0 <= j < vals.len() implies (#[trigger] vals[j]).group != group by {
                    if j > 0 {
                        assert(vals[j] == rest[j - 1]);
                    }
                }
            },
        }
    }
}

pub proof fn lemma_first_with_group(vals: Seq<FlagBlockDescriptor>, group: u32, k: int)
    requires
        0 <= k < vals.len(),
        vals[k].group == group,
        forall|j: int| 0 <= j < k ==> (#[trigger] vals[j]).group != group,
    ensures
        first_with_group(vals, group) == Some(k),
{
    lemma_first_with_group_spec(vals, group);
    match first_with_group(vals, group) {
        Some(c) => {
            if c < k {
                assert(vals[c].group != group);
            } else if c > k {
                assert(vals[k].group != group);
            }
        },
        None => {
            assert(vals[k].group != group);
        },
    }
}

impl CSFD4VirtualMemoryFlag {
    /// The descriptors in the order the tree is walked.
    pub open spec fn descriptors(&self) -> Seq<FlagBlockDescriptor> {
        self.flag_block_descriptors.values()
    }

    /// Whether a descriptor points at a block that exists.
    pub open spec fn descriptor_in_bounds(&self, d: FlagBlockDescriptor) -> bool {
        &&& d.location_mode == 1 ==> (d.location matches FlagBlockLocation::HolderOffset(o)
            && (o as int) < self.flag_blocks@.len())
        &&& d.location_mode == 2 ==> (d.location matches FlagBlockLocation::External(e)
            && (e as int) < self.external_flag_blocks@.len())
    }

    /// A well-formed store: a well-formed descriptor tree in which the first descriptor, in
    /// walking order, of each group points, in holder mode and in external mode, at a block
    /// that exists. Later descriptors of a group are never read, so they may point anywhere.
    pub open spec fn wf(&self) -> bool {
        &&& self.flag_block_descriptors.wf()
        &&& forall|k: int|
            0 <= k < self.descriptors().len() && #[trigger] first_with_group(
                self.descriptors(),
                self.descriptors()[k].group,
            ) == Some(k) ==> self.descriptor_in_bounds(self.descriptors()[k])
    }

    /// The block a descriptor locates.
    pub open spec fn located(d: FlagBlockDescriptor) -> Option<FlagBlockId> {
        if d.location_mode == 1 {
            match d.location {
                FlagBlockLocation::HolderOffset(o) => Some(FlagBlockId::Holder(o as int)),
                FlagBlockLocation::External(_) => None,
            }
        } else if d.location_mode == 2 {
            match d.location {
                FlagBlockLocation::External(e) => Some(FlagBlockId::External(e as int)),
                FlagBlockLocation::HolderOffset(_) => None,
            }
        } else {
            None
        }
    }

    /// The block that holds a flag: the one located by the first descriptor of its group.
    pub open spec fn block_id(&self, id: u32) -> Option<FlagBlockId> {
        match first_with_group(self.descriptors(), flag_group(id)) {
            Some(k) => Self::located(self.descriptors()[k]),
            None => None,
        }
    }

    /// Whether a block exists in the store.
    pub open spec fn block_exists(&self, b: FlagBlockId) -> bool {
        match b {
            FlagBlockId::Holder(o) => 0 <= o < self.flag_blocks@.len(),
            FlagBlockId::External(e) => 0 <= e < self.external_flag_blocks@.len(),
        }
    }

    /// In a well-formed store, the first descriptor of a group is a node of the tree and the
    /// block of every flag exists.
    pub proof fn lemma_block_exists(&self, id: u32)
        requires
            self.wf(),
        ensures
            match first_with_group(self.descriptors(), flag_group(id)) {
                Some(k) => 0 <= k < self.descriptors().len() && self.flag_block_descriptors.traversal()[k] < self.flag_block_descriptors.nodes@.len() && self.descriptors()[k] == self.flag_block_descriptors.nodes@[self.flag_block_descriptors.traversal()[k] as int].value && self.descriptor_in_bounds(self.descriptors()[k]),
                None => true,
            },
            self.block_id(id) matches Some(b) ==> self.block_exists(b),
    {
        let vals = self.descriptors();
        lemma_first_with_group_spec(vals, flag_group(id));
        self.flag_block_descriptors.lemma_traversal_in_bounds();
        match first_with_group(vals, flag_group(id)) {
            Some(k) => {
                let p = self.flag_block_descriptors.traversal()[k];
                assert(vals[k] == self.flag_block_descriptors.nodes@[p as int].value);
                assert(self.descriptor_in_bounds(self.flag_block_descriptors.nodes@[p as int].value));
            },
            None => {},
        }
    }

    /// The bytes of a block.
    pub open spec fn block_bytes(&self, b: FlagBlockId) -> Seq<u8> {
        match b {
            FlagBlockId::Holder(o) => self.flag_blocks@[o].bytes@,
            FlagBlockId::External(e) => self.external_flag_blocks@[e].bytes@,
        }
    }

    /// The state of a flag: its bit in its block, false when no block holds it.
    pub open spec fn flag_value(&self, id: u32) -> bool {
        match self.block_id(id) {
            Some(b) => block_flag(self.block_bytes(b), id),
            None => false,
        }
    }
}

/// What `set_flag(id, state)` does to the store: the descriptors and the number of blocks
/// stay, and every flag reads what it read before, except the flags on the same bit of the
/// same block as `id`, which read `state`. When no block holds `id` nothing changes.
pub open spec fn set_flag_post(
    before: CSFD4VirtualMemoryFlag,
    after: CSFD4VirtualMemoryFlag,
    id: u32,
    state: bool,
) -> bool {
    &&& after.wf()
    &&& after.flag_block_descriptors == before.flag_block_descriptors
    &&& after.flag_blocks@.len() == before.flag_blocks@.len()
    &&& after.external_flag_blocks@.len() == before.external_flag_blocks@.len()
    &&& after.vftable == before.vftable
    &&& after.allocator == before.allocator
    &&& after.unk10 == before.unk10
    &&& after.unk14 == before.unk14
    &&& after.unk18 == before.unk18
    &&& after.unk38@ == before.unk38@
    &&& after.event_flag_divisor == before.event_flag_divisor
    &&& after.event_flag_holder_size == before.event_flag_holder_size
    &&& after.event_flag_holder_count == before.event_flag_holder_count
    &&& forall|b: FlagBlockId| #[trigger] before.block_exists(b) ==> after.block_bytes(b) == if Some(b) == before.block_id(id) {
        before.block_bytes(b).update(
            flag_byte(id) as int,
            with_bit(before.block_bytes(b)[flag_byte(id) as int], flag_bit(id), state),
        )
    } else {
        before.block_bytes(b)
    }
    &&& forall|g: u32| #[trigger]
        after.flag_value(g) == if before.block_id(g) is Some && before.block_id(g)
            == before.block_id(id) && same_bit(id, g) {
            state
        } else {
            before.flag_value(g)
        }
}

/// The flags of a store in which one block, the one holding `id`, had the bit of `id` set to
/// `state`, and nothing else changed.
proof fn lemma_set_flag_effect(
    before: CSFD4VirtualMemoryFlag,
    after: CSFD4VirtualMemoryFlag,
    id: u32,
    state: bool,
    b: FlagBlockId,
)
    requires
        before.wf(),
        after.flag_block_descriptors == before.flag_block_descriptors,
        after.flag_blocks@.len() == before.flag_blocks@.len(),
        after.external_flag_blocks@.len() == before.external_flag_blocks@.len(),
        before.block_id(id) == Some(b),
        after.block_bytes(b) == before.block_bytes(b).update(
            flag_byte(id) as int,
            with_bit(before.block_bytes(b)[flag_byte(id) as int], flag_bit(id), state),
        ),
        forall|c: FlagBlockId| c != b && before.block_exists(c) ==> #[trigger] after.block_bytes(c) == before.block_bytes(c),
    ensures
        forall|g: u32| #[trigger]
            after.flag_value(g) == if before.block_id(g) is Some && before.block_id(g)
                == before.block_id(id) && same_bit(id, g) {
                state
            } else {
                before.flag_value(g)
            },
{
    assert forall|g: u32| #[trigger]
        after.flag_value(g) == if before.block_id(g) is Some && before.block_id(g)
            == before.block_id(id) && same_bit(id, g) {
            state
        } else {
            before.flag_value(g)
        } by {
        assert(after.descriptors() == before.descriptors());
        assert(after.block_id(g) == before.block_id(g));
        before.lemma_block_exists(g);
        match before.block_id(g) {
            Some(c) => {
                if c == b {
                    assert(before.block_bytes(b).len() == 125);
                    lemma_flag_block_set_get(before.block_bytes(b), id, g, state);
                } else {
                    assert(after.block_bytes(c) == before.block_bytes(c));
                }
            },
            None => {},
        }
    }
}

impl CSFD4VirtualMemoryFlag {
    /// Where the block of a descriptor lies: its location when the mode selects it.
    fn flag_block_location(descriptor: &FlagBlockDescriptor) -> (r: Option<FlagBlockLocation>)
        ensures
            match r {
                Some(FlagBlockLocation::HolderOffset(o)) => Self::located(*descriptor) == Some(
                    FlagBlockId::Holder(o as int),
                ),
                Some(FlagBlockLocation::External(e)) => Self::located(*descriptor) == Some(
                    FlagBlockId::External(e as int),
                ),
                None => Self::located(*descriptor) is None,
            },
    {
        match descriptor.location_mode {
            1 => match descriptor.location {
                FlagBlockLocation::HolderOffset(o) => Some(FlagBlockLocation::HolderOffset(o)),
                FlagBlockLocation::External(_) => None,
            },
            2 => match descriptor.location {
                FlagBlockLocation::External(e) => Some(FlagBlockLocation::External(e)),
                FlagBlockLocation::HolderOffset(_) => None,
            },
            _ => None,
        }
    }

    /// Locates the flag block of a descriptor.
    fn flag_block<'a>(&'a self, descriptor: &FlagBlockDescriptor) -> (r: Option<&'a FlagBlock>)
        requires
            self.descriptor_in_bounds(*descriptor),
        ensures
            match Self::located(*descriptor) {
                Some(b) => r matches Some(block) && block.bytes@ == self.block_bytes(b),
                None => r is None,
            },
    {
        match Self::flag_block_location(descriptor) {
            Some(FlagBlockLocation::HolderOffset(o)) => Some(&self.flag_blocks[o as usize]),
            Some(FlagBlockLocation::External(e)) => Some(&self.external_flag_blocks[e]),
            None => None,
        }
    }

    /// The position of the node of the first descriptor, in walking order, of `group`.
    fn find_descriptor(&self, group: u32) -> (r: Option<usize>)
        requires
            self.wf(),
        ensures
            match first_with_group(self.descriptors(), group) {
                Some(k) => r == Some(self.flag_block_descriptors.traversal()[k]),
                None => r is None,
            },
            r matches Some(p) ==> p < self.flag_block_descriptors.nodes@.len(),
    {
        let tree = &self.flag_block_descriptors;
        let positions = tree.traversal_positions();
        let ghost vals = self.descriptors();
        let mut k: usize = 0;
        while k < positions.len()
            invariant
                self.wf(),
                positions@ == tree.traversal(),
                vals == self.descriptors(),
                tree == self.flag_block_descriptors,
                forall|j: int| 0 <= j < positions@.len() ==> #[trigger] positions@[j] < tree.nodes@.len(),
                k <= positions@.len(),
                forall|j: int| 0 <= j < k ==> (#[trigger] vals[j]).group != group,
            decreases positions@.len() - k,
        {
            let pos = positions[k];
            assert(vals[k as int] == tree.nodes@[pos as int].value);
            if tree.nodes[pos].value.group == group {
                proof {
                    lemma_first_with_group(vals, group, k as int);
                }
                return Some(pos);
            }
            k = k + 1;
        }
        proof {
            lemma_first_with_group_spec(vals, group);
            if first_with_group(vals, group) is Some {
                let w = first_with_group(vals, group).unwrap();
                assert(vals[w].group != group);
            }
        }
        None
    }

    /// Sets the bit of a flag id in the block that holds it.
    fn set_flag_id(&mut self, flag: EventFlag, state: bool)
        requires
            old(self).wf(),
        ensures
            set_flag_post(*old(self), *final(self), flag@, state),
    {
        let ghost before = *self;
        let group = flag.group();
        let pos = match self.find_descriptor(group) {
            Some(pos) => pos,
            None => {
                return;
            },
        };
        let ghost id = flag@;
        let location = Self::flag_block_location(&self.flag_block_descriptors.nodes[pos].value);
        let ghost target = before.block_id(id);
        proof {
            before.lemma_block_exists(id);
        }
        match location {
            Some(FlagBlockLocation::HolderOffset(o)) => {
                proof {
                    assert(self.descriptor_in_bounds(self.flag_block_descriptors.nodes@[pos as int].value));
                }
                self.flag_blocks[o as usize].set(flag, state);
            },
            Some(FlagBlockLocation::External(e)) => {
                proof {
                    assert(self.descriptor_in_bounds(self.flag_block_descriptors.nodes@[pos as int].value));
                }
                self.external_flag_blocks[e].set(flag, state);
            },
            None => {},
        }
        proof {
            assert(self.flag_block_descriptors == before.flag_block_descriptors);
            assert(self.descriptors() == before.descriptors());
            assert forall|k: int|
                0 <= k < self.descriptors().len() && #[trigger] first_with_group(
                    self.descriptors(),
                    self.descriptors()[k].group,
                ) == Some(k) implies self.descriptor_in_bounds(self.descriptors()[k]) by {
                assert(before.descriptor_in_bounds(before.descriptors()[k]));
            }
            match target {
                Some(b) => {
                    lemma_set_flag_effect(before, *self, id, state, b);
                },
                None => {
                    assert(self.flag_blocks@ == before.flag_blocks@);
                    assert(self.external_flag_blocks@ == before.external_flag_blocks@);
                },
            }
        }
    }

    /// Reads the bit of a flag id in the block that holds it.
    fn get_flag_id(&self, flag: EventFlag) -> (r: bool)
        requires
            self.wf(),
        ensures
            r == self.flag_value(flag@),
    {
        let group = flag.group();
        let pos = match self.find_descriptor(group) {
            Some(pos) => pos,
            None => {
                return false;
            },
        };
        let descriptor = &self.flag_block_descriptors.nodes[pos].value;
        proof {
            self.lemma_block_exists(flag@);
            assert(self.descriptor_in_bounds(self.flag_block_descriptors.nodes@[pos as int].value));
        }
        match self.flag_block(descriptor) {
            Some(location) => location.get(flag),
            None => false,
        }
    }
}

impl CSFD4VirtualMemoryFlag {
    /// Sets the event flag bit for a given event flag. Does not inherently network set flags.
    ///
    /// The flag id is what `into` makes of `flag`; for ids whose conversion follows its
    /// `From` specification (such as `u32`, see `lemma_flag_from_id`) that id is
    /// `flag.into_spec()`.
    pub fn set_flag<F: Into<EventFlag>>(&mut self, flag: F, state: bool)
        requires
            old(self).wf(),
        ensures
            exists|id: u32| #[trigger] set_flag_post(*old(self), *final(self), id, state),
            F::obeys_into_spec() ==> set_flag_post(
                *old(self),
                *final(self),
                flag.into_spec()@,
                state,
            ),
    {
        let flag: EventFlag = flag.into();
        self.set_flag_id(flag, state);
    }

    /// Retrieves the event flag current state.
    ///
    /// The flag id is what `into` makes of `flag`; for ids whose conversion follows its
    /// `From` specification (such as `u32`, see `lemma_flag_from_id`) that id is
    /// `flag.into_spec()`.
    pub fn get_flag<F: Into<EventFlag>>(&self, flag: F) -> (r: bool)
        requires
            self.wf(),
        ensures
            exists|id: u32| r == #[trigger] self.flag_value(id),
            F::obeys_into_spec() ==> r == self.flag_value(flag.into_spec()@),
    {
        let flag: EventFlag = flag.into();
        self.get_flag_id(flag)
    }
}

/// A flag that was just set reads the state it was set to, provided a block holds it.
pub proof fn lemma_set_then_get(
    before: CSFD4VirtualMemoryFlag,
    after: CSFD4VirtualMemoryFlag,
    id: u32,
    state: bool,
)
    requires
        before.wf(),
        set_flag_post(before, after, id, state),
        before.block_id(id) is Some,
    ensures
        after.flag_value(id) == state,
{
    assert(after.flag_value(id) == state);
}

/// Setting a flag leaves every flag on another bit, or in another block, as it was.
pub proof fn lemma_set_leaves_others(
    before: CSFD4VirtualMemoryFlag,
    after: CSFD4VirtualMemoryFlag,
    id: u32,
    other: u32,
    state: bool,
)
    requires
        before.wf(),
        set_flag_post(before, after, id, state),
        !same_bit(id, other) || before.block_id(other) != before.block_id(id),
    ensures
        after.flag_value(other) == before.flag_value(other),
{
    assert(after.flag_value(other) == before.flag_value(other));
}

/// Setting a flag that no block holds changes no flag.
pub proof fn lemma_set_unheld_is_noop(
    before: CSFD4VirtualMemoryFlag,
    after: CSFD4VirtualMemoryFlag,
    id: u32,
    other: u32,
    state: bool,
)
    requires
        before.wf(),
        set_flag_post(before, after, id, state),
        before.block_id(id) is None,
    ensures
        after.flag_value(other) == before.flag_value(other),
{
    assert(after.flag_value(other) == before.flag_value(other));
}

} // verus!
