use eldenring::event_flag::{
    CSFD4VirtualMemoryFlag, EventFlag, FlagBlock, FlagBlockDescriptor, FlagBlockLocation,
};
use eldenring::stl::{Tree, TreeNode};

#[test]
fn event_flag_parts() {
    let f = EventFlag::from(1_234_567u32);
    assert_eq!(f.group(), 1234);
    assert_eq!(f.byte(), 70);
    assert_eq!(f.bit(), 0);
    let g = EventFlag::from(10_000u32);
    assert_eq!(g.group(), 10);
    assert_eq!(g.byte(), 0);
    assert_eq!(g.bit(), 7);
    let h = EventFlag::from(999u32);
    assert_eq!(h.group(), 0);
    assert_eq!(h.byte(), 124);
    assert_eq!(h.bit(), 0);
}

#[test]
fn flag_block_set_and_get() {
    let mut block = FlagBlock { bytes: [0; 125] };
    block.set(EventFlag::from(3u32), true);
    assert_eq!(block.bytes[0], 0b0001_0000);
    assert!(block.get(EventFlag::from(3u32)));
    assert!(!block.get(EventFlag::from(4u32)));
    block.set(EventFlag::from(8u32), true);
    assert_eq!(block.bytes[1], 0b1000_0000);
    block.set(EventFlag::from(3u32), false);
    assert_eq!(block.bytes[0], 0);
    assert!(block.get(EventFlag::from(8u32)));
}

fn node(left: usize, parent: usize, right: usize, is_nil: u8, value: FlagBlockDescriptor) -> TreeNode<FlagBlockDescriptor> {
    TreeNode { left, parent, right, black_red: 0, is_nil, value }
}

fn descriptor(group: u32, mode: u32, location: FlagBlockLocation) -> FlagBlockDescriptor {
    FlagBlockDescriptor { group, unk4: 0, location_mode: mode, unkc: 0, location }
}

/// A store with groups 5 (holder block 1), 7 (external block 0) and 9 (unknown mode).
fn store() -> CSFD4VirtualMemoryFlag {
    // node 0: head (nil), its parent is the root (node 1)
    // node 1: group 7, children node 2 (left) and node 3 (right)
    let nodes = vec![
        node(0, 1, 0, 1, descriptor(0, 0, FlagBlockLocation::HolderOffset(0))),
        node(2, 0, 3, 0, descriptor(7, 2, FlagBlockLocation::External(0))),
        node(0, 1, 0, 0, descriptor(5, 1, FlagBlockLocation::HolderOffset(1))),
        node(0, 1, 0, 0, descriptor(9, 3, FlagBlockLocation::HolderOffset(0))),
    ];
    CSFD4VirtualMemoryFlag {
        vftable: 0,
        allocator: 0,
        unk10: 0,
        unk14: 0,
        unk18: 0,
        event_flag_divisor: 1000,
        event_flag_holder_size: 125,
        event_flag_holder_count: 2,
        flag_blocks: vec![FlagBlock { bytes: [0; 125] }, FlagBlock { bytes: [0; 125] }],
        external_flag_blocks: vec![FlagBlock { bytes: [0; 125] }],
        flag_block_descriptors: Tree { allocator: 0, nodes, head: 0, size: 3 },
        unk38: [0; 0x30],
    }
}

#[test]
fn set_flag_then_get_flag() {
    let mut s = store();
    assert!(!s.get_flag(EventFlag::from(5_010u32)));
    s.set_flag(EventFlag::from(5_010u32), true);
    assert!(s.get_flag(EventFlag::from(5_010u32)));
    assert_eq!(s.flag_blocks[1].bytes[1], 0b0010_0000);
    assert_eq!(s.flag_blocks[0].bytes[1], 0);
    // external block
    s.set_flag(EventFlag::from(7_000u32), true);
    assert!(s.get_flag(EventFlag::from(7_000u32)));
    assert_eq!(s.external_flag_blocks[0].bytes[0], 0b1000_0000);
    // the same bit of another group is another flag
    assert!(!s.get_flag(EventFlag::from(5_000u32)));
    s.set_flag(EventFlag::from(5_010u32), false);
    assert!(!s.get_flag(EventFlag::from(5_010u32)));
    assert!(s.get_flag(EventFlag::from(7_000u32)));
}

#[test]
fn flags_without_a_block_read_false_and_are_not_set() {
    let mut s = store();
    // group 9 has a mode that locates no block; group 11 has no descriptor
    s.set_flag(EventFlag::from(9_001u32), true);
    assert!(!s.get_flag(EventFlag::from(9_001u32)));
    s.set_flag(EventFlag::from(11_001u32), true);
    assert!(!s.get_flag(EventFlag::from(11_001u32)));
    assert!(s.flag_blocks.iter().all(|b| b.bytes.iter().all(|x| *x == 0)));
    assert!(s.external_flag_blocks.iter().all(|b| b.bytes.iter().all(|x| *x == 0)));
}

#[test]
fn first_descriptor_in_walking_order_wins() {
    let mut s = store();
    // a second descriptor of group 5, deeper in the tree, pointing at holder block 0
    s.flag_block_descriptors.nodes[2].left = 4;
    s.flag_block_descriptors.nodes.push(TreeNode {
        left: 0,
        parent: 2,
        right: 0,
        black_red: 0,
        is_nil: 0,
        value: FlagBlockDescriptor {
            group: 5,
            unk4: 0,
            location_mode: 1,
            unkc: 0,
            location: FlagBlockLocation::HolderOffset(0),
        },
    });
    s.flag_block_descriptors.size = 4;
    s.set_flag(EventFlag::from(5_000u32), true);
    assert_eq!(s.flag_blocks[1].bytes[0], 0b1000_0000);
    assert_eq!(s.flag_blocks[0].bytes[0], 0);
}

#[test]
fn flags_can_be_given_as_plain_ids() {
    let mut s = store();
    s.set_flag(5_017u32, true);
    assert!(s.get_flag(5_017u32));
    assert!(s.get_flag(EventFlag::from(5_017u32)));
    assert_eq!(s.flag_blocks[1].bytes[2], 0b0100_0000);
    s.set_flag(5_017u32, false);
    assert!(!s.get_flag(5_017u32));
}

#[test]
fn later_descriptors_of_a_group_are_never_read() {
    let mut s = store();
    // a second descriptor of group 5 that points at no block at all
    s.flag_block_descriptors.nodes[2].left = 4;
    s.flag_block_descriptors.nodes.push(TreeNode {
        left: 0,
        parent: 2,
        right: 0,
        black_red: 0,
        is_nil: 0,
        value: FlagBlockDescriptor {
            group: 5,
            unk4: 0,
            location_mode: 1,
            unkc: 0,
            location: FlagBlockLocation::HolderOffset(99),
        },
    });
    s.flag_block_descriptors.size = 4;
    s.set_flag(5_003u32, true);
    assert!(s.get_flag(5_003u32));
    assert_eq!(s.flag_blocks[1].bytes[0], 0b0001_0000);
}
