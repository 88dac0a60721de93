//! The parts of a spliced object: which node hangs below which.

use std::collections::VecDeque;
use vstd::prelude::*;
use vstd::seq_lib::*;
use vstd::set_lib::*;

verus! {

/// A scene hierarchy. Nodes are numbered from zero; `children[i]` lists the
/// nodes directly below node `i`. A number that names no node is ignored.
#[derive(Debug)]
pub struct Hierarchy {
    pub children: Vec<Vec<usize>>,
}

impl Hierarchy {
    /// The number of nodes.
    pub open spec fn len(&self) -> int {
        self.children@.len() as int
    }

    /// Whether `child` hangs directly below `parent`.
    pub open spec fn is_child(&self, parent: int, child: int) -> bool {
        &&& 0 <= parent < self.len()
        &&& 0 <= child < self.len()
        &&& exists|j: int|
            0 <= j < self.children@[parent]@.len() && #[trigger] self.children@[parent]@[j] == child
    }

    /// Whether each node of `path` hangs directly below the one before it.
    pub open spec fn is_path(&self, path: Seq<int>) -> bool {
        &&& path.len() >= 2
        &&& forall|i: int| 0 <= i < path.len() - 1 ==> self.is_child(#[trigger] path[i], path[i + 1])
    }

    /// Whether `node` hangs below `root`, directly or at any depth.
    pub open spec fn is_descendant(&self, root: int, node: int) -> bool {
        exists|path: Seq<int>| #[trigger] self.is_path(path) && path[0] == root && path.last() == node
    }

    /// A child is a descendant.
    pub proof fn lemma_child_is_descendant(&self, root: int, child: int)
        requires
            self.is_child(root, child),
        ensures
            self.is_descendant(root, child),
    {
        let path = seq![root, child];
        assert(self.is_path(path));
        assert(path[0] == root && path.last() == child);
    }

    /// A child of a descendant is a descendant.
    pub proof fn lemma_descendant_step(&self, root: int, node: int, child: int)
        requires
            self.is_descendant(root, node),
            self.is_child(node, child),
        ensures
            self.is_descendant(root, child),
    {
        let path = choose|path: Seq<int>| #[trigger]
            self.is_path(path) && path[0] == root && path.last() == node;
        let longer = path.push(child);
        assert forall|i: int| 0 <= i < longer.len() - 1 implies self.is_child(
            #[trigger] longer[i],
            longer[i + 1],
        ) by {
            if i < path.len() - 1 {
                assert(self.is_child(path[i], path[i + 1]));
            }
        }
        assert(self.is_path(longer));
        assert(longer[0] == root && longer.last() == child);
    }

    /// A set of nodes that holds the children of `root` and, with each node, that
    /// node's children holds every node at the end of a path from `root`.
    pub proof fn lemma_closed_set_holds_path(&self, root: int, closed: Set<int>, path: Seq<int>)
        requires
            forall|c: int| self.is_child(root, c) ==> closed.contains(c),
            forall|p: int, c: int| closed.contains(p) && self.is_child(p, c) ==> closed.contains(c),
            self.is_path(path),
            path[0] == root,
        ensures
            closed.contains(path.last()),
        decreases path.len(),
    {
        if path.len() == 2 {
            assert(self.is_child(path[0], path[1]));
        } else {
            let shorter = path.drop_last();
            assert forall|i: int| 0 <= i < shorter.len() - 1 implies self.is_child(
                #[trigger] shorter[i],
                shorter[i + 1],
            ) by {
                assert(self.is_child(path[i], path[i + 1]));
            }
            self.lemma_closed_set_holds_path(root, closed, shorter);
            assert(self.is_child(path[path.len() - 2], path[path.len() - 2 + 1]));
            assert(shorter.last() == path[path.len() - 2]);
        }
    }
}

/// Whether `marks` tells of each node whether `order` lists it, and `order`
/// lists nodes only, each once.
pub open spec fn marks_match(marks: Seq<bool>, order: Seq<usize>) -> bool {
    &&& order.no_duplicates()
    &&& forall|i: int| 0 <= i < order.len() ==> (#[trigger] order[i]) < marks.len()
    &&& forall|node: int| 0 <= node < marks.len() ==> (#[trigger] marks[node] <==> order.contains(
        node as usize,
    ))
}

/// A list of distinct nodes is no longer than there are nodes.
pub proof fn lemma_order_is_short(order: Seq<usize>, nodes: nat)
    requires
        order.no_duplicates(),
        forall|i: int| 0 <= i < order.len() ==> (#[trigger] order[i]) < nodes,
    ensures
        order.len() <= nodes,
{
    let numbers = Seq::new(order.len(), |i: int| order[i] as int);
    assert(numbers.no_duplicates()) by {
        assert forall|i: int, j: int|
            0 <= i < numbers.len() && 0 <= j < numbers.len() && i != j implies numbers[i]
            != numbers[j] by {
            assert(order[i] != order[j]);
        }
    }
    numbers.unique_seq_to_set();
    lemma_int_range(0, nodes as int);
    assert(numbers.to_set().subset_of(set_int_range(0, nodes as int))) by {
        assert forall|v: int| numbers.to_set().contains(v) implies set_int_range(
            0,
            nodes as int,
        ).contains(v) by {
            let i = choose|i: int| 0 <= i < numbers.len() && numbers[i] == v;
            assert(order[i] < nodes);
        }
    }
    lemma_len_subset(numbers.to_set(), set_int_range(0, nodes as int));
}

/// Whether `queue` holds the nodes of `order` that are still to be looked at:
/// its last ones, in their order.
pub open spec fn is_pending(queue: Seq<usize>, order: Seq<usize>) -> bool {
    &&& queue.len() <= order.len()
    &&& queue == order.subrange(order.len() - queue.len(), order.len() as int)
}

impl Hierarchy {
    /// Adds the children of `node` that `order` does not list yet to `order` and
    /// to the nodes still to be looked at.
    fn enqueue_children(
        &self,
        node: usize,
        marks: &mut Vec<bool>,
        queue: &mut VecDeque<usize>,
        order: &mut Vec<usize>,
    )
        requires
            node < self.len(),
            old(marks)@.len() == self.len(),
            marks_match(old(marks)@, old(order)@),
            is_pending(old(queue)@, old(order)@),
        ensures
            final(marks)@.len() == self.len(),
            marks_match(final(marks)@, final(order)@),
            is_pending(final(queue)@, final(order)@),
            final(order)@.len() - final(queue)@.len() == old(order)@.len() - old(queue)@.len(),
            old(order)@.len() <= final(order)@.len(),
            final(order)@.subrange(0, old(order)@.len() as int) == old(order)@,
            forall|i: int|
                old(order)@.len() <= i < final(order)@.len() ==> self.is_child(
                    node as int,
                    #[trigger] final(order)@[i] as int,
                ),
            forall|c: int| self.is_child(node as int, c) ==> final(order)@.contains(c as usize),
    {
        let ghost before = order@;
        let ghost looked_at = order@.len() - queue@.len();
        let total = self.children.len();
        let below = &self.children[node];
        let mut j: usize = 0;
        while j < below.len()
            invariant
                j <= below.len(),
                node < self.len(),
                total == self.len(),
                below == self.children@[node as int],
                marks@.len() == self.len(),
                marks_match(marks@, order@),
                is_pending(queue@, order@),
                order@.len() - queue@.len() == looked_at,
                before.len() <= order@.len(),
                order@.subrange(0, before.len() as int) == before,
                forall|i: int|
                    before.len() <= i < order@.len() ==> self.is_child(
                        node as int,
                        #[trigger] order@[i] as int,
                    ),
                forall|k: int|
                    0 <= k < j && below@[k] < self.len() ==> order@.contains(#[trigger] below@[k]),
            decreases below.len() - j,
        {
            let child = below[j];
            if child < total && !marks[child] {
                let ghost earlier = order@;
                let ghost earlier_queue = queue@;
                marks.set(child, true);
                queue.push_back(child);
                order.push(child);
                proof {
                    assert(!earlier.contains(child));
                    assert(order@ == earlier.push(child));
                    assert(queue@ =~= order@.subrange(
                        order@.len() - queue@.len(),
                        order@.len() as int,
                    ));
                    assert(self.is_child(node as int, child as int));
                    assert forall|node2: int| 0 <= node2 < marks@.len() implies (
                    #[trigger] marks@[node2] <==> order@.contains(node2 as usize)) by {
                        if node2 == child {
                            assert(order@[order@.len() - 1] == child);
                        } else {
                            if earlier.contains(node2 as usize) {
                                let i = choose|i: int|
                                    0 <= i < earlier.len() && earlier[i] == node2 as usize;
                                assert(order@[i] == node2 as usize);
                            }
                            if order@.contains(node2 as usize) {
                                let i = choose|i: int|
                                    0 <= i < order@.len() && order@[i] == node2 as usize;
                                assert(i < earlier.len());
                                assert(earlier[i] == node2 as usize);
                            }
                        }
                    }
                    assert(order@.subrange(0, before.len() as int) =~= earlier.subrange(
                        0,
                        before.len() as int,
                    ));
                    assert forall|k: int|
                        0 <= k < j + 1 && below@[k] < self.len() implies order@.contains(
                        #[trigger] below@[k],
                    ) by {
                        if k < j {
                            let i = choose|i: int| 0 <= i < earlier.len() && earlier[i] == below@[k];
                            assert(order@[i] == below@[k]);
                        } else {
                            assert(order@[order@.len() - 1] == child);
                        }
                    }
                }
            } else {
                proof {
                    if child < total {
                        assert(marks@[child as int]);
                        assert(order@.contains(child));
                    }
                }
            }
            j += 1;
        }
        proof {
            assert forall|c: int| self.is_child(node as int, c) implies order@.contains(
                c as usize,
            ) by {
                let k = choose|k: int|
                    0 <= k < self.children@[node as int]@.len() && #[trigger] self.children@[node as int]@[k]
                        == c;
                assert(below@[k] == c as usize);
            }
        }
    }

    /// The nodes below `root`, at any depth, each node once. A `root` that names
    /// no node has none.
    pub fn descendants(&self, root: usize) -> (order: Vec<usize>)
        ensures
            order@.no_duplicates(),
            forall|node: usize|
                order@.contains(node) <==> self.is_descendant(root as int, node as int),
    {
        let total = self.children.len();
        let mut order: Vec<usize> = Vec::new();
        if root >= total {
            proof {
                assert forall|node: usize| !self.is_descendant(root as int, node as int) by {
                    if self.is_descendant(root as int, node as int) {
                        let path = choose|path: Seq<int>| #[trigger]
                            self.is_path(path) && path[0] == root as int && path.last()
                                == node as int;
                        assert(self.is_child(path[0int], path[0int + 1]));
                    }
                }
            }
            return order;
        }
        let mut marks: Vec<bool> = Vec::new();
        while marks.len() < total
            invariant
                marks@.len() <= total,
                forall|i: int| 0 <= i < marks@.len() ==> !(#[trigger] marks@[i]),
            decreases total - marks@.len(),
        {
            marks.push(false);
        }
        let mut queue: VecDeque<usize> = VecDeque::new();
        assert(queue@ =~= order@.subrange(0, 0));
        self.enqueue_children(root, &mut marks, &mut queue, &mut order);
        proof {
            assert forall|i: int| 0 <= i < order@.len() implies self.is_descendant(
                root as int,
                #[trigger] order@[i] as int,
            ) by {
                self.lemma_child_is_descendant(root as int, order@[i] as int);
            }
        }
        while queue.len() > 0
            invariant
                total == self.len(),
                root < total,
                marks@.len() == self.len(),
                marks_match(marks@, order@),
                is_pending(queue@, order@),
                forall|i: int|
                    0 <= i < order@.len() ==> self.is_descendant(
                        root as int,
                        #[trigger] order@[i] as int,
                    ),
                forall|c: int| self.is_child(root as int, c) ==> order@.contains(c as usize),
                forall|i: int, c: int|
                    0 <= i < order@.len() - queue@.len() && self.is_child(
                        #[trigger] order@[i] as int,
                        c,
                    ) ==> #[trigger] order@.contains(c as usize),
            decreases total - (order@.len() - queue@.len()),
        {
            proof {
                lemma_order_is_short(order@, total as nat);
            }
            let ghost head = order@.len() - queue@.len();
            let ghost earlier = order@;
            let ghost waiting = queue@;
            match queue.pop_front() {
                None => {
                    assert(false);
                },
                Some(node) => {
                    proof {
                        assert(node == waiting[0]);
                        assert(waiting[0] == earlier[head]);
                        assert(queue@ =~= earlier.subrange(
                            earlier.len() - queue@.len(),
                            earlier.len() as int,
                        ));
                    }
                    self.enqueue_children(node, &mut marks, &mut queue, &mut order);
                    proof {
                        assert forall|i: int| 0 <= i < earlier.len() implies order@[i]
                            == earlier[i] by {
                            assert(order@.subrange(0, earlier.len() as int)[i] == earlier[i]);
                        }
                        assert forall|v: usize| earlier.contains(v) implies order@.contains(v) by {
                            let i = choose|i: int| 0 <= i < earlier.len() && earlier[i] == v;
                            assert(order@[i] == v);
                        }
                        assert forall|i: int| 0 <= i < order@.len() implies self.is_descendant(
                            root as int,
                            #[trigger] order@[i] as int,
                        ) by {
                            if i >= earlier.len() {
                                assert(self.is_descendant(root as int, earlier[head] as int));
                                assert(self.is_child(node as int, order@[i] as int));
                                self.lemma_descendant_step(
                                    root as int,
                                    node as int,
                                    order@[i] as int,
                                );
                            } else {
                                assert(order@[i] == earlier[i]);
                                assert(self.is_descendant(root as int, earlier[i] as int));
                            }
                        }
                        assert forall|i: int, c: int|
                            0 <= i < order@.len() - queue@.len() && self.is_child(
                                #[trigger] order@[i] as int,
                                c,
                            ) implies #[trigger] order@.contains(c as usize) by {
                            if i < head {
                                assert(self.is_child(earlier[i] as int, c));
                                assert(earlier.contains(c as usize));
                            }
                        }
                    }
                },
            }
        }
        proof {
            let closed = Set::new(|v: int| 0 <= v < total && order@.contains(v as usize));
            assert forall|p: int, c: int| closed.contains(p) && self.is_child(p, c) implies closed.contains(
                c,
            ) by {
                let i = choose|i: int| 0 <= i < order@.len() && order@[i] == p as usize;
                assert(self.is_child(order@[i] as int, c));
            }
            assert forall|node: usize| self.is_descendant(root as int, node as int) implies order@.contains(
                node,
            ) by {
                let path = choose|path: Seq<int>| #[trigger]
                    self.is_path(path) && path[0] == root as int && path.last() == node as int;
                self.lemma_closed_set_holds_path(root as int, closed, path);
            }
            assert forall|node: usize| order@.contains(node) implies self.is_descendant(
                root as int,
                node as int,
            ) by {
                let i = choose|i: int| 0 <= i < order@.len() && order@[i] == node;
                assert(self.is_descendant(root as int, order@[i] as int));
            }
        }
        order
    }
}

} // verus!
