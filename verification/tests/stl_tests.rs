use eldenring::stl::{
    DLFixedVector, DoublyLinkedList, DoublyLinkedListNode, Tree, TreeNode, Vector,
};

fn tn(left: usize, parent: usize, right: usize, is_nil: u8, value: u32) -> TreeNode<u32> {
    TreeNode { left, parent, right, black_red: 0, is_nil, value }
}

#[test]
fn tree_walks_breadth_first() {
    //        1:10
    //       /    \
    //    2:20    3:30
    //     /        \
    //   4:40       5:50
    let nodes = vec![
        tn(0, 1, 0, 1, 0),
        tn(2, 0, 3, 0, 10),
        tn(4, 1, 0, 0, 20),
        tn(0, 1, 5, 0, 30),
        tn(0, 2, 0, 0, 40),
        tn(0, 3, 0, 0, 50),
    ];
    let tree = Tree { allocator: 0, nodes, head: 0, size: 5 };
    assert_eq!(tree.len(), 5);
    assert!(!tree.is_empty());
    let values: Vec<u32> = tree.iter().into_iter().copied().collect();
    assert_eq!(values, vec![10, 20, 30, 40, 50]);
    assert_eq!(tree.traversal_positions(), vec![1, 2, 3, 4, 5]);
}

#[test]
fn empty_tree_yields_nothing() {
    let tree = Tree { allocator: 0, nodes: vec![tn(0, 0, 0, 1, 0)], head: 0, size: 0 };
    assert!(tree.is_empty());
    assert!(tree.iter().is_empty());
}

#[test]
fn linked_list_follows_next_links() {
    let nodes = vec![
        DoublyLinkedListNode { next: 2, previous: 1, value: 0 },
        DoublyLinkedListNode { next: 0, previous: 2, value: 7 },
        DoublyLinkedListNode { next: 1, previous: 0, value: 9 },
    ];
    let list = DoublyLinkedList { allocator: 0, nodes, head: 0, count: 2 };
    assert_eq!(list.len(), 2);
    assert!(!list.is_empty());
    let values: Vec<i32> = list.iter().into_iter().copied().collect();
    assert_eq!(values, vec![9, 7]);
}

#[test]
fn empty_linked_list() {
    let list = DoublyLinkedList {
        allocator: 0,
        nodes: vec![DoublyLinkedListNode { next: 0, previous: 0, value: 0u8 }],
        head: 0,
        count: 0,
    };
    assert!(list.is_empty());
    assert!(list.iter().is_empty());
}

#[test]
fn vector_length_from_addresses() {
    let v: Vector<u32> = Vector {
        allocator: 0,
        begin: Some(0x1000),
        end: Some(0x1010),
        capacity: Some(0x1020),
        storage: vec![1, 2, 3, 4, 5, 6, 7, 8],
    };
    assert_eq!(v.len(), 4);
    assert!(!v.is_empty());
    assert_eq!(v.items(), &[1, 2, 3, 4]);
    let e: Vector<u64> = Vector { allocator: 0, begin: None, end: Some(8), capacity: None, storage: vec![] };
    assert_eq!(e.len(), 0);
    assert!(e.is_empty());
    assert!(e.items().is_empty());
}

#[test]
fn fixed_vector_iterates_used_elements() {
    let v = DLFixedVector { elements: [1u8, 2, 3, 4], unk1: 0, count: 2 };
    assert_eq!(v.iter(), &[1, 2]);
    let w = DLFixedVector { elements: [1u8, 2, 3, 4], unk1: 0, count: 4 };
    assert_eq!(w.iter().iter().copied().collect::<Vec<u8>>(), vec![1, 2, 3, 4]);
}

#[test]
fn vector_items_for_changing() {
    let mut v: Vector<u32> = Vector {
        allocator: 0,
        begin: Some(0x1000),
        end: Some(0x1008),
        capacity: Some(0x1010),
        storage: vec![1, 2, 3, 4],
    };
    let items = v.items_mut();
    assert_eq!(items.len(), 2);
    items[1] = 20;
    assert_eq!(v.storage, vec![1, 20, 3, 4]);
    let mut e: Vector<u32> = Vector { allocator: 0, begin: None, end: None, capacity: None, storage: vec![5] };
    assert!(e.items_mut().is_empty());
}
