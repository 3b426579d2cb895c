//! The node tree: node identity, per-node style, children, computed
//! layouts and caches. Nodes are created before any parent references
//! them, so every child's id is strictly below its parent's — the
//! structural fact all recursive tree walks decrease on.

use vstd::prelude::*;
use crate::style::Style;
use crate::layout::Layout;
use crate::cache::Cache;
use crate::measure::FixedMeasure;

verus! {

/// The id of a single node in a tree of nodes: a wrapper around a `u64`.
#[derive(Copy, Clone, Debug, PartialEq, Eq, Structural)]
pub struct NodeId(pub u64);

impl NodeId {
    /// Create a new id from a `u64` value.
    pub fn new(val: u64) -> (r: Self)
        ensures
            r.0 == val,
    {
        NodeId(val)
    }

    /// The id of the node stored at a given index.
    pub fn from_usize(raw: usize) -> (r: Self)
        ensures
            r.0 == raw as u64,
    {
        NodeId(raw as u64)
    }

    /// The raw value.
    pub fn as_u64(self) -> (r: u64)
        ensures
            r == self.0,
    {
        self.0
    }

    /// The id as a storage index.
    pub fn as_usize(self) -> (r: usize)
        requires
            self.0 <= usize::MAX,
        ensures
            r == self.0 as usize,
            r as u64 == self.0,
    {
        self.0 as usize
    }
}

/// Everything stored for one node.
#[derive(Clone, Debug)]
pub struct NodeData {
    /// The node's resolved style.
    pub style: Style,
    /// The result of the last layout computation.
    pub layout: Layout,
    /// The intrinsic content measurement, for leaves that have content.
    pub measure: Option<FixedMeasure>,
    /// The memoized results of earlier size computations.
    pub cache: Cache,
}

impl NodeData {
    /// The data for a new node: the style, a zero layout, no content and an
    /// empty cache.
    pub fn new(style: Style) -> (r: Self)
        ensures
            r.style == style,
            r.layout == Layout::spec_zero(),
            r.measure is None,
            r.cache.spec_entries().len() == 0,
            r.cache.wf(),
    {
        Self { style, layout: Layout::zero(), measure: None, cache: Cache::new() }
    }

    /// Marks the node as dirty: clears its cached data, signalling that its
    /// size must be recomputed.
    pub fn mark_dirty(&mut self)
        ensures
            final(self).cache.spec_entries().len() == 0,
            final(self).cache.wf(),
            final(self).style == old(self).style,
            final(self).layout == old(self).layout,
            final(self).measure == old(self).measure,
    {
        self.cache.clear()
    }
}

/// The id ordering every tree keeps: each node's children were created
/// before it, so their ids are strictly below its own.
pub open spec fn spec_children_ordered(children: Seq<Vec<NodeId>>) -> bool {
    forall|i: int, j: int|
        0 <= i < children.len() && 0 <= j < children[i]@.len() ==> (#[trigger] children[i]@[j]).0
            < i
}

/// No node appears twice among the child lists: every node has at most one
/// parent slot, so its sibling index is well-defined.
pub open spec fn spec_children_unique(children: Seq<Vec<NodeId>>) -> bool {
    forall|p1: int, j1: int, p2: int, j2: int|
        0 <= p1 < children.len() && 0 <= j1 < children[p1]@.len() && 0 <= p2 < children.len() && 0
            <= j2 < children[p2]@.len() && #[trigger] children[p1]@[j1] == #[trigger] children[p2]@[j2]
            ==> p1 == p2 && j1 == j2
}

/// Whether some child list holds the node: the node has a parent.
pub open spec fn spec_has_parent(children: Seq<Vec<NodeId>>, c: NodeId) -> bool {
    exists|pk: (int, int)|
        0 <= pk.0 < children.len() && 0 <= pk.1 < children[pk.0]@.len()
            && #[trigger] children[pk.0]@[pk.1] == c
}

/// The parent slot of a node: the pair of its parent's id and its sibling
/// index there. Meaningful when the node has a parent and the child lists
/// are unique.
pub open spec fn spec_parent_slot(children: Seq<Vec<NodeId>>, c: NodeId) -> (int, int) {
    choose|pk: (int, int)|
        0 <= pk.0 < children.len() && 0 <= pk.1 < children[pk.0]@.len()
            && #[trigger] children[pk.0]@[pk.1] == c
}

/// The sibling index of a node under its unique parent.
pub open spec fn spec_sibling_index(children: Seq<Vec<NodeId>>, c: NodeId) -> int {
    spec_parent_slot(children, c).1
}

/// With unique child lists, the slot that holds a node is its parent slot.
pub proof fn lemma_parent_slot_is(children: Seq<Vec<NodeId>>, c: NodeId, p: int, k: int)
    requires
        spec_children_unique(children),
        0 <= p < children.len(),
        0 <= k < children[p]@.len(),
        children[p]@[k] == c,
    ensures
        spec_parent_slot(children, c) == (p, k),
        spec_sibling_index(children, c) == k,
{
    let witness: (int, int) = (p, k);
    assert(0 <= witness.0 < children.len() && 0 <= witness.1 < children[witness.0]@.len()
        && children[witness.0]@[witness.1] == c);
    let pk = spec_parent_slot(children, c);
    assert(0 <= pk.0 < children.len() && 0 <= pk.1 < children[pk.0]@.len()
        && children[pk.0]@[pk.1] == c) by {
        assert(spec_has_parent(children, c));
    }
}

/// Whether `node` is a strict descendant of `anc`: a child of `anc`, or a
/// descendant of one. Well-founded because children's ids are below their
/// parent's.
pub open spec fn spec_descendant(children: Seq<Vec<NodeId>>, node: int, anc: int) -> bool
    decreases anc,
    when spec_children_ordered(children) && 0 <= anc < children.len()
{
    exists|j: int|
        0 <= j < children[anc]@.len() && {
            let c = (#[trigger] children[anc]@[j]).0 as int;
            c == node || spec_descendant(children, node, c)
        }
}

/// Every member of a subtree has an id at or below the subtree root's.
pub proof fn lemma_descendant_id_below(children: Seq<Vec<NodeId>>, node: int, anc: int)
    requires
        spec_children_ordered(children),
        0 <= anc < children.len(),
        spec_descendant(children, node, anc),
    ensures
        node < anc,
    decreases anc,
{
    let j = choose|j: int|
        0 <= j < children[anc]@.len() && {
            let c = (#[trigger] children[anc]@[j]).0 as int;
            c == node || spec_descendant(children, node, c)
        };
    let c = children[anc]@[j].0 as int;
    if c != node {
        lemma_descendant_id_below(children, node, c);
    }
}

/// A complete tree of styled nodes: the storage the layout algorithms read
/// node identity, styles and children from, and write layouts into.
pub struct Taffy {
    /// Per-node data, indexed by node id.
    pub nodes: Vec<NodeData>,
    /// Per-node child lists, indexed by node id.
    pub children: Vec<Vec<NodeId>>,
}

impl Taffy {
    /// The child lists as sequences.
    pub open spec fn spec_children(self) -> Seq<Vec<NodeId>> {
        self.children@
    }

    /// How many nodes the tree holds.
    pub open spec fn spec_node_count(self) -> int {
        self.nodes@.len() as int
    }

    /// Well-formed: one child list per node, every child id strictly below
    /// its parent's id, and every node a child of at most one parent slot.
    pub open spec fn wf(self) -> bool {
        self.nodes@.len() == self.children@.len() && spec_children_ordered(self.children@)
            && spec_children_unique(self.children@)
    }

    /// Whether an id names a node of this tree.
    pub open spec fn spec_is_node(self, node: NodeId) -> bool {
        (node.0 as int) < self.nodes@.len()
    }

    /// The storage index of a node id.
    fn index_of(&self, node: NodeId) -> (r: usize)
        requires
            self.wf(),
            self.spec_is_node(node),
        ensures
            r as u64 == node.0,
            r < self.nodes@.len(),
    {
        let n = self.nodes.len();
        assert((node.0 as int) < (n as int));
        node.as_usize()
    }

    /// An empty tree.
    pub fn new() -> (r: Taffy)
        ensures
            r.wf(),
            r.spec_node_count() == 0,
    {
        Taffy { nodes: Vec::new(), children: Vec::new() }
    }

    /// How many nodes the tree holds.
    pub fn node_count(&self) -> (r: usize)
        ensures
            r == self.spec_node_count(),
    {
        self.nodes.len()
    }

    /// Create a new leaf node with the given style and no content.
    pub fn new_leaf(&mut self, style: Style) -> (r: NodeId)
        requires
            old(self).wf(),
        ensures
            final(self).wf(),
            r.0 == old(self).spec_node_count(),
            final(self).spec_node_count() == old(self).spec_node_count() + 1,
            forall|i: int|
                0 <= i < old(self).nodes@.len() ==> #[trigger] final(self).nodes@[i] == old(
                    self,
                ).nodes@[i] && final(self).children@[i] == old(self).children@[i],
            final(self).nodes@[r.0 as int].style == style,
            final(self).nodes@[r.0 as int].layout == Layout::spec_zero(),
            final(self).nodes@[r.0 as int].measure is None,
            final(self).children@[r.0 as int]@.len() == 0,
    {
        let id = NodeId::from_usize(self.nodes.len());
        self.nodes.push(NodeData::new(style));
        self.children.push(Vec::new());
        proof {
            let cs = self.children@;
            let prev = old(self).children@;
            assert(cs[cs.len() - 1]@.len() == 0);
            assert forall|p1: int, j1: int, p2: int, j2: int|
                0 <= p1 < cs.len() && 0 <= j1 < cs[p1]@.len() && 0 <= p2 < cs.len() && 0 <= j2
                    < cs[p2]@.len() && #[trigger] cs[p1]@[j1] == #[trigger] cs[p2]@[j2] implies p1
                == p2 && j1 == j2 by {
                assert(p1 < prev.len() && p2 < prev.len());
                assert(cs[p1] == prev[p1] && cs[p2] == prev[p2]);
            }
        }
        id
    }

    /// Create a new leaf node with the given style and intrinsic content.
    pub fn new_leaf_with_measure(&mut self, style: Style, measure: FixedMeasure) -> (r: NodeId)
        requires
            old(self).wf(),
        ensures
            final(self).wf(),
            r.0 == old(self).spec_node_count(),
            final(self).spec_node_count() == old(self).spec_node_count() + 1,
            forall|i: int|
                0 <= i < old(self).nodes@.len() ==> #[trigger] final(self).nodes@[i] == old(
                    self,
                ).nodes@[i] && final(self).children@[i] == old(self).children@[i],
            final(self).nodes@[r.0 as int].style == style,
            final(self).nodes@[r.0 as int].layout == Layout::spec_zero(),
            final(self).nodes@[r.0 as int].measure == Some(measure),
            final(self).children@[r.0 as int]@.len() == 0,
    {
        let id = NodeId::from_usize(self.nodes.len());
        let mut data = NodeData::new(style);
        data.measure = Some(measure);
        self.nodes.push(data);
        self.children.push(Vec::new());
        proof {
            let cs = self.children@;
            let prev = old(self).children@;
            assert(cs[cs.len() - 1]@.len() == 0);
            assert forall|p1: int, j1: int, p2: int, j2: int|
                0 <= p1 < cs.len() && 0 <= j1 < cs[p1]@.len() && 0 <= p2 < cs.len() && 0 <= j2
                    < cs[p2]@.len() && #[trigger] cs[p1]@[j1] == #[trigger] cs[p2]@[j2] implies p1
                == p2 && j1 == j2 by {
                assert(p1 < prev.len() && p2 < prev.len());
                assert(cs[p1] == prev[p1] && cs[p2] == prev[p2]);
            }
        }
        id
    }

    /// Create a new node with the given style and the given existing nodes
    /// as its children. Each child must not yet have a parent, and the list
    /// must not repeat a node, so that every node keeps a single parent
    /// slot.
    pub fn new_with_children(&mut self, style: Style, children: Vec<NodeId>) -> (r: NodeId)
        requires
            old(self).wf(),
            forall|j: int|
                0 <= j < children@.len() ==> (#[trigger] children@[j]).0 < old(
                    self,
                ).spec_node_count(),
            forall|j1: int, j2: int|
                0 <= j1 < j2 < children@.len() ==> #[trigger] children@[j1] != #[trigger] children@[j2],
            forall|j: int|
                0 <= j < children@.len() ==> !spec_has_parent(
                    old(self).children@,
                    #[trigger] children@[j],
                ),
        ensures
            final(self).wf(),
            r.0 == old(self).spec_node_count(),
            final(self).spec_node_count() == old(self).spec_node_count() + 1,
            forall|i: int|
                0 <= i < old(self).nodes@.len() ==> #[trigger] final(self).nodes@[i] == old(
                    self,
                ).nodes@[i] && final(self).children@[i] == old(self).children@[i],
            final(self).nodes@[r.0 as int].style == style,
            final(self).nodes@[r.0 as int].layout == Layout::spec_zero(),
            final(self).nodes@[r.0 as int].measure is None,
            final(self).children@[r.0 as int] == children,
    {
        let id = NodeId::from_usize(self.nodes.len());
        self.nodes.push(NodeData::new(style));
        self.children.push(children);
        proof {
            let cs = self.children@;
            let prev = old(self).children@;
            let last = cs.len() - 1;
            assert forall|p1: int, j1: int, p2: int, j2: int|
                0 <= p1 < cs.len() && 0 <= j1 < cs[p1]@.len() && 0 <= p2 < cs.len() && 0 <= j2
                    < cs[p2]@.len() && #[trigger] cs[p1]@[j1] == #[trigger] cs[p2]@[j2] implies p1
                == p2 && j1 == j2 by {
                if p1 < last {
                    assert(cs[p1] == prev[p1]);
                }
                if p2 < last {
                    assert(cs[p2] == prev[p2]);
                }
                if p1 == last && p2 == last {
                    if j1 != j2 {
                        assert(cs[last]@[j1] != cs[last]@[j2]);
                    }
                } else if p1 == last && p2 < last {
                    let w: (int, int) = (p2, j2);
                    assert(0 <= w.0 < prev.len() && 0 <= w.1 < prev[w.0]@.len()
                        && prev[w.0]@[w.1] == cs[last]@[j1]);
                    assert(spec_has_parent(prev, cs[last]@[j1]));
                    assert(false);
                } else if p2 == last && p1 < last {
                    let w: (int, int) = (p1, j1);
                    assert(0 <= w.0 < prev.len() && 0 <= w.1 < prev[w.0]@.len()
                        && prev[w.0]@[w.1] == cs[last]@[j2]);
                    assert(spec_has_parent(prev, cs[last]@[j2]));
                    assert(false);
                }
            }
        }
        id
    }

    /// How many children a node has.
    pub fn child_count(&self, node: NodeId) -> (r: usize)
        requires
            self.wf(),
            self.spec_is_node(node),
        ensures
            r == self.spec_children()[node.0 as int]@.len(),
    {
        self.children[self.index_of(node)].len()
    }

    /// The id of the `index`th child of a node.
    pub fn child(&self, node: NodeId, index: usize) -> (r: NodeId)
        requires
            self.wf(),
            self.spec_is_node(node),
            index < self.spec_children()[node.0 as int]@.len(),
        ensures
            r == self.spec_children()[node.0 as int]@[index as int],
            r.0 < node.0,
    {
        self.children[self.index_of(node)][index]
    }

    /// The style of a node.
    pub fn style(&self, node: NodeId) -> (r: &Style)
        requires
            self.wf(),
            self.spec_is_node(node),
        ensures
            *r == self.nodes@[node.0 as int].style,
    {
        &self.nodes[self.index_of(node)].style
    }

    /// The computed layout of a node.
    pub fn layout(&self, node: NodeId) -> (r: Layout)
        requires
            self.wf(),
            self.spec_is_node(node),
        ensures
            r == self.nodes@[node.0 as int].layout,
    {
        self.nodes[self.index_of(node)].layout
    }

    /// Mark a node as dirty after a style or child-list mutation: clear its
    /// cache and, since a node's size can affect every ancestor's layout,
    /// the cache of every node whose subtree holds it — and of no other
    /// node, so descendants keep their caches. One upward pass suffices
    /// because every ancestor's id is above the node's own.
    pub fn mark_dirty(&mut self, node: NodeId)
        requires
            old(self).wf(),
            old(self).spec_is_node(node),
        ensures
            final(self).wf(),
            final(self).spec_node_count() == old(self).spec_node_count(),
            final(self).children@ == old(self).children@,
            forall|m: int|
                0 <= m < old(self).nodes@.len() && (m == node.0 as int || spec_descendant(
                    old(self).children@,
                    node.0 as int,
                    m,
                )) ==> (#[trigger] final(self).nodes@[m]) == (NodeData {
                    cache: final(self).nodes@[m].cache,
                    ..old(self).nodes@[m]
                }) && final(self).nodes@[m].cache.spec_entries().len() == 0 && final(self).nodes@[m].cache.wf(),
            forall|m: int|
                0 <= m < old(self).nodes@.len() && !(m == node.0 as int || spec_descendant(
                    old(self).children@,
                    node.0 as int,
                    m,
                )) ==> (#[trigger] final(self).nodes@[m]) == old(self).nodes@[m],
    {
        let n = self.nodes.len();
        let idx = self.index_of(node);
        let ghost target = node.0 as int;
        let mut affected: Vec<bool> = Vec::new();
        let mut i: usize = 0;
        while i < n
            invariant
                0 <= i <= n,
                affected@.len() == i,
                forall|k: int| 0 <= k < i ==> !affected@[k],
            decreases n - i,
        {
            affected.push(false);
            i = i + 1;
        }
        affected[idx] = true;
        self.nodes[idx].cache.clear();
        proof {
            assert forall|k: int|
                0 <= k <= target && k < n implies (affected@[k] == (k == target || spec_descendant(
                old(self).children@,
                target,
                k,
            ))) by {
                if k != target && spec_descendant(old(self).children@, target, k) {
                    lemma_descendant_id_below(old(self).children@, target, k);
                }
            }
        }
        let mut m: usize = idx + 1;
        while m < n
            invariant
                idx < m <= n || (idx + 1 > n && m == idx + 1),
                idx as int == target,
                0 <= target < n,
                n == self.nodes@.len(),
                n == old(self).nodes@.len(),
                affected@.len() == n,
                self.wf(),
                self.children@ == old(self).children@,
                affected@[target],
                forall|k: int|
                    0 <= k < m && k < n ==> (#[trigger] affected@[k] == (k == target
                        || spec_descendant(old(self).children@, target, k))),
                forall|k: int|
                    m <= k < n ==> !(#[trigger] affected@[k]),
                forall|k: int|
                    0 <= k < n && affected@[k] ==> (#[trigger] self.nodes@[k]) == (NodeData {
                        cache: self.nodes@[k].cache,
                        ..old(self).nodes@[k]
                    }) && self.nodes@[k].cache.spec_entries().len() == 0
                        && self.nodes@[k].cache.wf(),
                forall|k: int|
                    0 <= k < n && !affected@[k] ==> (#[trigger] self.nodes@[k]) == old(
                        self,
                    ).nodes@[k],
            decreases n - m,
        {
            let child_count = self.children[m].len();
            let mut hit = false;
            let mut j: usize = 0;
            while j < child_count
                invariant
                    0 <= j <= child_count,
                    m < n,
                    n == self.nodes@.len(),
                    self.wf(),
                    affected@.len() == n,
                    child_count == self.children@[m as int]@.len(),
                    idx as int == target,
                    0 <= target < n,
                    self.children@ == old(self).children@,
                    forall|k: int|
                        0 <= k < m ==> (#[trigger] affected@[k] == (k == target
                            || spec_descendant(old(self).children@, target, k))),
                    hit == exists|p: int|
                        0 <= p < j && {
                            let c = (#[trigger] self.children@[m as int]@[p]).0 as int;
                            c == target || spec_descendant(old(self).children@, target, c)
                        },
                decreases child_count - j,
            {
                let child = self.children[m][j];
                proof {
                    assert(child.0 < m);
                }
                if affected[child.as_usize()] {
                    proof {
                        let c = child.0 as int;
                        assert(affected@[c]);
                        assert(c == target || spec_descendant(old(self).children@, target, c));
                    }
                    hit = true;
                }
                j = j + 1;
            }
            if hit {
                proof {
                    assert(spec_descendant(old(self).children@, target, m as int));
                }
                affected[m] = true;
                self.nodes[m].cache.clear();
            } else {
                proof {
                    if spec_descendant(old(self).children@, target, m as int) {
                        let p = choose|p: int|
                            0 <= p < old(self).children@[m as int]@.len() && {
                                let c = (#[trigger] old(self).children@[m as int]@[p]).0 as int;
                                c == target || spec_descendant(old(self).children@, target, c)
                            };
                        assert(0 <= p < self.children@[m as int]@.len());
                        assert(false);
                    }
                }
            }
            m = m + 1;
        }
        proof {
            assert forall|k: int|
                0 <= k < n && !(k == target || spec_descendant(
                    old(self).children@,
                    target,
                    k,
                )) implies !affected@[k] by {}
            assert forall|k: int|
                0 <= k < n && (k == target || spec_descendant(
                    old(self).children@,
                    target,
                    k,
                )) implies affected@[k] by {
                if k != target && k < target {
                    lemma_descendant_id_below(old(self).children@, target, k);
                }
            }
        }
    }

    /// Write a node's computed layout.
    pub fn set_layout(&mut self, node: NodeId, new_layout: Layout)
        requires
            old(self).wf(),
            old(self).spec_is_node(node),
        ensures
            final(self).wf(),
            final(self).spec_node_count() == old(self).spec_node_count(),
            final(self).children@ == old(self).children@,
            forall|i: int|
                0 <= i < old(self).nodes@.len() && i != node.0 as int
                    ==> #[trigger] final(self).nodes@[i] == old(self).nodes@[i],
            final(self).nodes@[node.0 as int] == (NodeData {
                layout: new_layout,
                ..old(self).nodes@[node.0 as int]
            }),
    {
        let idx = self.index_of(node);
        self.nodes[idx].layout = new_layout;
    }
}

} // verus!
