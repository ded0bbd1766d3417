use vstd::prelude::*;
use std::collections::VecDeque;

verus! {

// ---------------------------------------------------------------------------------------------
// Red-black tree (MSVC `std::map` / `std::set` layout)
// ---------------------------------------------------------------------------------------------

/// A node of the game's red-black trees. Links are positions in the tree's node storage.
pub struct TreeNode<T> {
    pub left: usize,
    pub parent: usize,
    pub right: usize,
    pub black_red: u8,
    pub is_nil: u8,
    pub value: T,
}

/// A red-black tree laid out as MSVC lays out `std::map`: a head node whose `parent` is the
/// root, and nil nodes (with `is_nil` set) in place of missing children. Links are positions
/// in `nodes`.
pub struct Tree<T> {
    pub allocator: usize,
    pub nodes: Vec<TreeNode<T>>,
    pub head: usize,
    pub size: usize,
}

/// The children of node `i` that are not nil, left before right.
pub open spec fn tree_children<T>(nodes: Seq<TreeNode<T>>, i: int) -> Seq<usize> {
    let n = nodes[i];
    (if nodes[n.left as int].is_nil == 0 { seq![n.left] } else { Seq::<usize>::empty() }) + (if nodes[n.right as int].is_nil == 0 { seq![n.right] } else { Seq::<usize>::empty() })
}

/// Breadth-first traversal from the nodes in `queue`, taking at most `fuel` nodes; `None`
/// when the queue has not emptied by then.
pub open spec fn bfs_order<T>(nodes: Seq<TreeNode<T>>, queue: Seq<usize>, fuel: nat) -> Option<Seq<usize>>
    decreases fuel,
{
    if queue.len() == 0 {
        Some(Seq::empty())
    } else if fuel == 0 {
        None
    } else {
        match bfs_order(nodes, queue.drop_first() + tree_children(nodes, queue[0] as int), (fuel - 1) as nat) {
            Some(rest) => Some(seq![queue[0]] + rest),
            None => None,
        }
    }
}

/// Breadth-first traversal only visits nodes inside the storage when it starts from such
/// nodes and every link stays inside it.
pub proof fn lemma_bfs_in_bounds<T>(nodes: Seq<TreeNode<T>>, queue: Seq<usize>, fuel: nat)
    requires
        forall|i: int| 0 <= i < nodes.len() ==> (#[trigger] nodes[i]).left < nodes.len() && nodes[i].right < nodes.len(),
        forall|k: int| 0 <= k < queue.len() ==> #[trigger] queue[k] < nodes.len(),
        bfs_order(nodes, queue, fuel) is Some,
    ensures
        forall|k: int| 0 <= k < bfs_order(nodes, queue, fuel).unwrap().len() ==> #[trigger] bfs_order(nodes, queue, fuel).unwrap()[k] < nodes.len(),
    decreases fuel,
{
    if queue.len() > 0 && fuel > 0 {
        let next = queue.drop_first() + tree_children(nodes, queue[0] as int);
        assert(nodes[queue[0] as int].left < nodes.len());
        assert forall|k: int| 0 <= k < next.len() implies #[trigger] next[k] < nodes.len() by {
            if k < queue.len() - 1 {
                assert(next[k] == queue[k + 1]);
            }
        }
        lemma_bfs_in_bounds(nodes, next, (fuel - 1) as nat);
        let rest = bfs_order(nodes, next, (fuel - 1) as nat).unwrap();
        let all = bfs_order(nodes, queue, fuel).unwrap();
        assert(all == seq![queue[0]] + rest);
        assert forall|k: int| 0 <= k < all.len() implies #[trigger] all[k] < nodes.len() by {
            if k > 0 {
                assert(all[k] == rest[k - 1]);
            }
        }
    }
}

impl<T> Tree<T> {
    /// The root node: the head's parent.
    pub open spec fn root(&self) -> usize {
        self.nodes@[self.head as int].parent
    }

    /// Whether every link stays inside the node storage.
    pub open spec fn links_in_bounds(&self) -> bool {
        &&& self.head < self.nodes@.len()
        &&& forall|i: int| 0 <= i < self.nodes@.len() ==> {
            &&& (#[trigger] self.nodes@[i]).left < self.nodes@.len()
            &&& self.nodes@[i].right < self.nodes@.len()
            &&& self.nodes@[i].parent < self.nodes@.len()
        }
    }

    /// Whether breadth-first traversal from the root comes to an end.
    pub open spec fn traversal_ends(&self) -> bool {
        exists|fuel: nat| #[trigger] bfs_order(self.nodes@, seq![self.root()], fuel) is Some
    }

    /// A well-formed tree: links in bounds and, unless it is empty, a finite traversal.
    pub open spec fn wf(&self) -> bool {
        &&& self.links_in_bounds()
        &&& (self.size != 0 ==> self.traversal_ends())
    }

    /// The nodes in the order the tree is walked: breadth first from the root, left child
    /// before right, nil nodes skipped; nothing when the size is zero.
    pub open spec fn traversal(&self) -> Seq<usize> {
        if self.size == 0 {
            Seq::empty()
        } else {
            let fuel = choose|fuel: nat| #[trigger] bfs_order(self.nodes@, seq![self.root()], fuel) is Some;
            bfs_order(self.nodes@, seq![self.root()], fuel).unwrap()
        }
    }

    /// Walking a well-formed tree only visits nodes inside the storage.
    pub proof fn lemma_traversal_in_bounds(&self)
        requires
            self.wf(),
        ensures
            forall|k: int| 0 <= k < self.traversal().len() ==> #[trigger] self.traversal()[k] < self.nodes@.len(),
    {
        if self.size != 0 {
            let fuel = choose|fuel: nat| #[trigger] bfs_order(self.nodes@, seq![self.root()], fuel) is Some;
            assert(self.nodes@[self.head as int].parent < self.nodes@.len());
            assert forall|i: int| 0 <= i < self.nodes@.len() implies (#[trigger] self.nodes@[i]).left < self.nodes@.len() && self.nodes@[i].right < self.nodes@.len() by {}
            lemma_bfs_in_bounds(self.nodes@, seq![self.root()], fuel);
        }
    }

    /// The values in the order the tree is walked.
    pub open spec fn values(&self) -> Seq<T> {
        self.traversal().map_values(|i: usize| self.nodes@[i as int].value)
    }

    pub fn len(&self) -> (r: usize)
        ensures
            r == self.size,
    {
        self.size
    }

    pub fn is_empty(&self) -> (r: bool)
        ensures
            r == (self.size == 0),
    {
        self.len() == 0
    }

    /// The positions of the nodes in the order the tree is walked.
    pub fn traversal_positions(&self) -> (r: Vec<usize>)
        requires
            self.wf(),
        ensures
            r@ == self.traversal(),
            forall|k: int| 0 <= k < r@.len() ==> #[trigger] r@[k] < self.nodes@.len(),
    {
        let mut out: Vec<usize> = Vec::new();
        if self.size == 0 {
            return out;
        }
        let mut pending: VecDeque<usize> = VecDeque::new();
        let start = self.nodes[self.head].parent;
        pending.push_back(start);
        let ghost fuel0 = choose|fuel: nat| #[trigger] bfs_order(self.nodes@, seq![self.root()], fuel) is Some;
        let ghost mut fuel: nat = fuel0;
        proof {
            assert(pending@ =~= seq![self.root()]);
            assert(out@ + bfs_order(self.nodes@, pending@, fuel).unwrap() =~= self.traversal());
        }
        while pending.len() > 0
            invariant
                self.wf(),
                self.size != 0,
                bfs_order(self.nodes@, pending@, fuel) is Some,
                out@ + bfs_order(self.nodes@, pending@, fuel).unwrap() == self.traversal(),
                forall|k: int| 0 <= k < pending@.len() ==> #[trigger] pending@[k] < self.nodes@.len(),
                forall|k: int| 0 <= k < out@.len() ==> #[trigger] out@[k] < self.nodes@.len(),
            decreases fuel,
        {
            let ghost q = pending@;
            let entry = pending.pop_front().unwrap();
            let left = self.nodes[entry].left;
            let right = self.nodes[entry].right;
            if self.nodes[left].is_nil == 0 {
                pending.push_back(left);
            }
            if self.nodes[right].is_nil == 0 {
                pending.push_back(right);
            }
            out.push(entry);
            proof {
                assert(self.nodes@[entry as int].left == left);
                assert(pending@ =~= q.drop_first() + tree_children(self.nodes@, q[0] as int));
                fuel = (fuel - 1) as nat;
            }
        }
        proof {
            assert(out@ + Seq::<usize>::empty() =~= out@);
        }
        out
    }

    /// The values in the order the tree is walked.
    pub fn iter(&self) -> (r: Vec<&T>)
        requires
            self.wf(),
        ensures
            r@.len() == self.values().len(),
            forall|k: int| 0 <= k < r@.len() ==> *#[trigger] r@[k] == self.values()[k],
    {
        let positions = self.traversal_positions();
        let mut out: Vec<&T> = Vec::new();
        let mut k: usize = 0;
        while k < positions.len()
            invariant
                self.wf(),
                positions@ == self.traversal(),
                k <= positions@.len(),
                out@.len() == k,
                forall|j: int| 0 <= j < k ==> *#[trigger] out@[j] == self.values()[j],
                forall|j: int| 0 <= j < positions@.len() ==> #[trigger] positions@[j] < self.nodes@.len(),
            decreases positions@.len() - k,
        {
            out.push(&self.nodes[positions[k]].value);
            k = k + 1;
        }
        out
    }
}


// ---------------------------------------------------------------------------------------------
// Doubly linked list (MSVC `std::list` layout)
// ---------------------------------------------------------------------------------------------

/// A node of the game's doubly linked lists. Links are positions in the list's node storage.
pub struct DoublyLinkedListNode<T> {
    pub next: usize,
    pub previous: usize,
    pub value: T,
}

/// A doubly linked list laid out as MSVC lays out `std::list`: a head node, followed by
/// `count` nodes along the `next` links. Links are positions in `nodes`.
pub struct DoublyLinkedList<T> {
    pub allocator: usize,
    pub nodes: Vec<DoublyLinkedListNode<T>>,
    pub head: usize,
    pub count: u64,
}

/// The node reached from `start` after following `steps` `next` links.
pub open spec fn list_walk<T>(nodes: Seq<DoublyLinkedListNode<T>>, start: usize, steps: nat) -> usize
    decreases steps,
{
    if steps == 0 {
        start
    } else {
        nodes[list_walk(nodes, start, (steps - 1) as nat) as int].next
    }
}

impl<T> DoublyLinkedList<T> {
    /// Whether the head and every `next` link stay inside the node storage.
    pub open spec fn wf(&self) -> bool {
        &&& self.head < self.nodes@.len()
        &&& forall|i: int| 0 <= i < self.nodes@.len() ==> (#[trigger] self.nodes@[i]).next < self.nodes@.len()
    }

    /// The values of the `count` nodes after the head, in `next` order.
    pub open spec fn values(&self) -> Seq<T> {
        Seq::new(self.count as nat, |k: int| self.nodes@[list_walk(self.nodes@, self.head, (k + 1) as nat) as int].value)
    }

    /// The values of the `count` nodes after the head, in `next` order.
    pub fn iter(&self) -> (r: Vec<&T>)
        requires
            self.wf(),
            self.count <= usize::MAX,
        ensures
            r@.len() == self.values().len(),
            forall|k: int| 0 <= k < r@.len() ==> *#[trigger] r@[k] == self.values()[k],
    {
        let mut count = self.count;
        let mut current = self.head;
        let mut out: Vec<&T> = Vec::new();
        while count != 0
            invariant
                self.wf(),
                count <= self.count,
                self.count <= usize::MAX,
                out@.len() == self.count - count,
                current == list_walk(self.nodes@, self.head, (self.count - count) as nat),
                current < self.nodes@.len(),
                forall|j: int| 0 <= j < out@.len() ==> *#[trigger] out@[j] == self.values()[j],
            decreases count,
        {
            current = self.nodes[current].next;
            count = count - 1;
            out.push(&self.nodes[current].value);
        }
        out
    }

    pub fn len(&self) -> (r: usize)
        ensures
            r == self.count as usize,
    {
        self.count as usize
    }

    pub fn is_empty(&self) -> (r: bool)
        ensures
            r == (self.count as usize == 0),
    {
        self.len() == 0
    }
}

// ---------------------------------------------------------------------------------------------
// Vector (MSVC `std::vector` layout)
// ---------------------------------------------------------------------------------------------

/// A vector laid out as MSVC lays out `std::vector`: the addresses of its first element, of
/// the end of its elements and of the end of its storage, and the elements stored from the
/// first address on.
pub struct Vector<T> {
    pub allocator: usize,
    pub begin: Option<usize>,
    pub end: Option<usize>,
    pub capacity: Option<usize>,
    /// The elements in the memory that `begin` points at.
    pub storage: Vec<T>,
}

impl<T> Vector<T> {
    /// The number of elements between `begin` and `end`; zero when either is missing.
    pub open spec fn spec_len(&self) -> int {
        match (self.begin, self.end) {
            (Some(b), Some(e)) => (e - b) / (vstd::layout::size_of::<T>() as int),
            _ => 0,
        }
    }

    /// Whether the element count can be computed: a sized element type and an end that does
    /// not lie before the beginning.
    pub open spec fn addresses_ordered(&self) -> bool {
        &&& vstd::layout::size_of::<T>() > 0
        &&& match (self.begin, self.end) {
            (Some(b), Some(e)) => b <= e,
            _ => true,
        }
    }

    pub fn len(&self) -> (r: usize)
        requires
            self.addresses_ordered(),
        ensures
            r == self.spec_len(),
    {
        let end = match self.end {
            Some(end) => end,
            None => {
                return 0;
            },
        };
        let start = match self.begin {
            Some(start) => start,
            None => {
                return 0;
            },
        };
        (end - start) / core::mem::size_of::<T>()
    }

    pub fn is_empty(&self) -> (r: bool)
        requires
            self.addresses_ordered(),
        ensures
            r == (self.spec_len() == 0),
    {
        self.len() == 0
    }

    /// The elements between `begin` and `end`; none when there is no `begin`.
    pub fn items(&self) -> (r: &[T])
        requires
            self.addresses_ordered(),
            self.begin is Some ==> self.end is Some,
            self.spec_len() <= self.storage@.len(),
        ensures
            r@ == (if self.begin is Some { self.storage@.take(self.spec_len()) } else { Seq::empty() }),
    {
        let start = match self.begin {
            Some(start) => start,
            None => {
                return &[];
            },
        };
        let end = self.end.unwrap();
        let count = (end - start) / core::mem::size_of::<T>();
        vstd::slice::slice_subrange(self.storage.as_slice(), 0, count)
    }

    /// The elements between `begin` and `end`, for changing them; none when there is no
    /// `begin`. What is written through the slice lands in those elements.
    pub fn items_mut(&mut self) -> (r: &mut [T])
        requires
            old(self).addresses_ordered(),
            old(self).begin is Some ==> old(self).end is Some,
            old(self).spec_len() <= old(self).storage@.len(),
        ensures
            r@ == (if old(self).begin is Some {
                old(self).storage@.take(old(self).spec_len())
            } else {
                Seq::empty()
            }),
            final(self).storage@ == (if old(self).begin is Some {
                final(r)@ + old(self).storage@.skip(old(self).spec_len())
            } else {
                old(self).storage@
            }),
            final(self).begin == old(self).begin,
            final(self).end == old(self).end,
            final(self).capacity == old(self).capacity,
            final(self).allocator == old(self).allocator,
    {
        let start = match self.begin {
            Some(start) => start,
            None => {
                return &mut [];
            },
        };
        let end = self.end.unwrap();
        let count = (end - start) / core::mem::size_of::<T>();
        let all = self.storage.as_mut_slice();
        let (items, _rest) = all.split_at_mut(count);
        items
    }
}

// ---------------------------------------------------------------------------------------------
// Fixed-capacity containers
// ---------------------------------------------------------------------------------------------

/// A vector with inline storage for `N` elements, of which the first `count` are in use.
pub struct DLFixedVector<T, const N: usize> {
    pub elements: [T; N],
    pub unk1: usize,
    pub count: usize,
}

impl<T, const N: usize> DLFixedVector<T, N> {
    /// The elements in use.
    pub fn iter(&self) -> (r: &[T])
        requires
            self.count <= N,
        ensures
            r@ == self.elements@.take(self.count as int),
    {
        let all = self.elements.as_slice();
        vstd::slice::slice_subrange(all, 0, self.count)
    }
}

/// An entry of a `CSFixedList`. Links are positions in the list's storage.
pub struct CSFixedListEntry<T> {
    pub data: T,
    pub next: Option<usize>,
    pub previous: Option<usize>,
    pub index: usize,
}

/// A linked list over inline storage for `N` entries.
pub struct CSFixedList<T, const N: usize> {
    pub vftable: usize,
    pub data: [CSFixedListEntry<T>; N],
    pub unk1: u32,
    pub unk2: u32,
    pub head_ptr: usize,
    pub head: CSFixedListEntry<T>,
}

} // verus!
