//! The layout algorithms' common interface, and the hidden-node algorithm:
//! a node with a hidden display produces zero size at the origin for
//! itself and, recursively, for every descendant, whatever their styles.

use vstd::prelude::*;
use crate::unit::Unit;
use crate::geometry::{Line, Point, Size};
use crate::style::AvailableSpace;
use crate::layout::{CollapsibleMarginSet, Layout, SizeBaselinesAndMargins, SizingMode};
use crate::tree::{NodeId, Taffy, lemma_descendant_id_below, lemma_parent_slot_is, spec_descendant, spec_sibling_index};

verus! {

/// Whether a node belongs to the subtree rooted at `root`: the root itself
/// or a strict descendant of it.
pub open spec fn spec_in_subtree(children: Seq<Vec<NodeId>>, root: int, i: int) -> bool {
    i == root || spec_descendant(children, i, root)
}

/// The order hidden layout assigns a node: its sibling index under its
/// unique parent, truncated to the width of the order field.
pub open spec fn spec_sibling_order(children: Seq<Vec<NodeId>>, d: int) -> u32 {
    spec_sibling_index(children, NodeId(d as u64)) as u32
}

/// Everything but the stored layouts is the same in both trees: node count,
/// children, styles, content and caches.
pub open spec fn spec_same_shape(a: Taffy, b: Taffy) -> bool {
    &&& b.nodes@.len() == a.nodes@.len()
    &&& b.children@ == a.children@
    &&& forall|i: int|
        0 <= i < a.nodes@.len() ==> (#[trigger] b.nodes@[i]).style == a.nodes@[i].style
            && b.nodes@[i].measure == a.nodes@[i].measure && b.nodes@[i].cache == a.nodes@[i].cache
}

/// The node count, children, styles and content are the same in both trees
/// (layouts and caches may differ).
pub open spec fn spec_same_styles(a: Taffy, b: Taffy) -> bool {
    &&& b.nodes@.len() == a.nodes@.len()
    &&& b.children@ == a.children@
    &&& forall|i: int|
        0 <= i < a.nodes@.len() ==> (#[trigger] b.nodes@[i]).style == a.nodes@[i].style
            && b.nodes@[i].measure == a.nodes@[i].measure
}

/// Write the hidden layout for one subtree: the root of the subtree gets a
/// zero-sized layout at the origin with the given order, and every
/// descendant gets a zero-sized layout at the origin with its own sibling
/// index as order; nothing outside the subtree changes.
fn perform_hidden_layout_inner(tree: &mut Taffy, node: NodeId, order: u32)
    requires
        old(tree).wf(),
        old(tree).spec_is_node(node),
    ensures
        final(tree).wf(),
        spec_same_shape(*old(tree), *final(tree)),
        forall|d: int|
            0 <= d < old(tree).nodes@.len() && spec_in_subtree(
                old(tree).children@,
                node.0 as int,
                d,
            ) ==> (#[trigger] final(tree).nodes@[d]).layout.size == (Layout::spec_zero().size)
                && final(tree).nodes@[d].layout.location == (Layout::spec_zero().location),
        forall|d: int|
            0 <= d < old(tree).nodes@.len() && !spec_in_subtree(
                old(tree).children@,
                node.0 as int,
                d,
            ) ==> (#[trigger] final(tree).nodes@[d]).layout == old(tree).nodes@[d].layout,
        forall|d: int|
            0 <= d < old(tree).nodes@.len() && spec_descendant(
                old(tree).children@,
                d,
                node.0 as int,
            ) ==> (#[trigger] final(tree).nodes@[d]).layout == (Layout {
                order: spec_sibling_order(old(tree).children@, d),
                ..Layout::spec_zero()
            }),
        final(tree).nodes@[node.0 as int].layout == (Layout { order, ..Layout::spec_zero() }),
    decreases node.0,
{
    tree.set_layout(node, Layout::with_order(order));
    let n = tree.child_count(node);
    let mut i: usize = 0;
    while i < n
        invariant
            tree.wf(),
            old(tree).wf(),
            old(tree).spec_is_node(node),
            spec_same_shape(*old(tree), *tree),
            n == tree.children@[node.0 as int]@.len(),
            0 <= i <= n,
            tree.nodes@[node.0 as int].layout == (Layout { order, ..Layout::spec_zero() }),
            forall|d: int|
                0 <= d < tree.nodes@.len() && (exists|k: int|
                    0 <= k < i && spec_in_subtree(
                        tree.children@,
                        (#[trigger] tree.children@[node.0 as int]@[k]).0 as int,
                        d,
                    )) ==> (#[trigger] tree.nodes@[d]).layout.size == (Layout::spec_zero().size)
                    && tree.nodes@[d].layout.location == (Layout::spec_zero().location),
            forall|d: int|
                0 <= d < tree.nodes@.len() && (exists|k: int|
                    0 <= k < i && spec_in_subtree(
                        tree.children@,
                        (#[trigger] tree.children@[node.0 as int]@[k]).0 as int,
                        d,
                    )) ==> (#[trigger] tree.nodes@[d]).layout == (Layout {
                    order: spec_sibling_order(tree.children@, d),
                    ..Layout::spec_zero()
                }),
            forall|d: int|
                0 <= d < tree.nodes@.len() && d != node.0 as int && !(exists|k: int|
                    0 <= k < i && spec_in_subtree(
                        tree.children@,
                        (#[trigger] tree.children@[node.0 as int]@[k]).0 as int,
                        d,
                    )) ==> (#[trigger] tree.nodes@[d]).layout == old(tree).nodes@[d].layout,
        decreases n - i,
    {
        let child = tree.child(node, i);
        proof {
            if spec_in_subtree(tree.children@, child.0 as int, node.0 as int) {
                if node.0 as int != child.0 as int {
                    lemma_descendant_id_below(tree.children@, node.0 as int, child.0 as int);
                }
                assert(false);
            }
            lemma_parent_slot_is(tree.children@, child, node.0 as int, i as int);
        }
        perform_hidden_layout_inner(tree, child, i as u32);
        proof {
            assert(tree.nodes@[child.0 as int].layout == (Layout {
                order: spec_sibling_order(tree.children@, child.0 as int),
                ..Layout::spec_zero()
            }));
        }
        i = i + 1;
    }
    proof {
        let cs = tree.children@;
        let nd = node.0 as int;
        assert forall|d: int|
            0 <= d < old(tree).nodes@.len() && spec_in_subtree(
                old(tree).children@,
                nd,
                d,
            ) implies (#[trigger] tree.nodes@[d]).layout.size == (Layout::spec_zero().size)
            && tree.nodes@[d].layout.location == (Layout::spec_zero().location) by {
            if d != nd {
                assert(spec_descendant(cs, d, nd));
                let j = choose|j: int|
                    0 <= j < cs[nd]@.len() && {
                        let c = (#[trigger] cs[nd]@[j]).0 as int;
                        c == d || spec_descendant(cs, d, c)
                    };
                assert(spec_in_subtree(cs, cs[nd]@[j].0 as int, d));
            }
        }
        assert forall|d: int|
            0 <= d < old(tree).nodes@.len() && !spec_in_subtree(
                old(tree).children@,
                nd,
                d,
            ) implies (#[trigger] tree.nodes@[d]).layout == old(tree).nodes@[d].layout by {
            if exists|k: int|
                0 <= k < n && spec_in_subtree(cs, (#[trigger] cs[nd]@[k]).0 as int, d) {
                let k = choose|k: int|
                    0 <= k < n && spec_in_subtree(cs, (#[trigger] cs[nd]@[k]).0 as int, d);
                assert(spec_descendant(cs, d, nd));
            }
        }
        assert forall|d: int|
            0 <= d < old(tree).nodes@.len() && spec_descendant(
                old(tree).children@,
                d,
                nd,
            ) implies (#[trigger] tree.nodes@[d]).layout == (Layout {
            order: spec_sibling_order(old(tree).children@, d),
            ..Layout::spec_zero()
        }) by {
            let j = choose|j: int|
                0 <= j < cs[nd]@.len() && {
                    let c = (#[trigger] cs[nd]@[j]).0 as int;
                    c == d || spec_descendant(cs, d, c)
                };
            assert(spec_in_subtree(cs, cs[nd]@[j].0 as int, d));
        }
    }
}

/// Creates a layout for this node's descendants, recursively: each hidden
/// node has zero size and is placed at the origin, whatever its own style;
/// the order of each is its sibling index, assigned depth-first. The node's
/// own stored layout, and every node outside its subtree, are untouched.
pub fn perform_hidden_layout(tree: &mut Taffy, node: NodeId)
    requires
        old(tree).wf(),
        old(tree).spec_is_node(node),
    ensures
        final(tree).wf(),
        spec_same_shape(*old(tree), *final(tree)),
        forall|d: int|
            0 <= d < old(tree).nodes@.len() && spec_descendant(
                old(tree).children@,
                d,
                node.0 as int,
            ) ==> (#[trigger] final(tree).nodes@[d]).layout.size == (Layout::spec_zero().size)
                && final(tree).nodes@[d].layout.location == (Layout::spec_zero().location),
        forall|d: int|
            0 <= d < old(tree).nodes@.len() && !spec_descendant(
                old(tree).children@,
                d,
                node.0 as int,
            ) ==> (#[trigger] final(tree).nodes@[d]).layout == old(tree).nodes@[d].layout,
        forall|d: int|
            0 <= d < old(tree).nodes@.len() && spec_descendant(
                old(tree).children@,
                d,
                node.0 as int,
            ) ==> (#[trigger] final(tree).nodes@[d]).layout == (Layout {
                order: spec_sibling_order(old(tree).children@, d),
                ..Layout::spec_zero()
            }),
{
    let n = tree.child_count(node);
    let mut i: usize = 0;
    while i < n
        invariant
            tree.wf(),
            old(tree).wf(),
            old(tree).spec_is_node(node),
            spec_same_shape(*old(tree), *tree),
            n == tree.children@[node.0 as int]@.len(),
            0 <= i <= n,
            forall|d: int|
                0 <= d < tree.nodes@.len() && (exists|k: int|
                    0 <= k < i && spec_in_subtree(
                        tree.children@,
                        (#[trigger] tree.children@[node.0 as int]@[k]).0 as int,
                        d,
                    )) ==> (#[trigger] tree.nodes@[d]).layout.size == (Layout::spec_zero().size)
                    && tree.nodes@[d].layout.location == (Layout::spec_zero().location),
            forall|d: int|
                0 <= d < tree.nodes@.len() && (exists|k: int|
                    0 <= k < i && spec_in_subtree(
                        tree.children@,
                        (#[trigger] tree.children@[node.0 as int]@[k]).0 as int,
                        d,
                    )) ==> (#[trigger] tree.nodes@[d]).layout == (Layout {
                    order: spec_sibling_order(tree.children@, d),
                    ..Layout::spec_zero()
                }),
            forall|d: int|
                0 <= d < tree.nodes@.len() && !(exists|k: int|
                    0 <= k < i && spec_in_subtree(
                        tree.children@,
                        (#[trigger] tree.children@[node.0 as int]@[k]).0 as int,
                        d,
                    )) ==> (#[trigger] tree.nodes@[d]).layout == old(tree).nodes@[d].layout,
        decreases n - i,
    {
        let child = tree.child(node, i);
        proof {
            lemma_parent_slot_is(tree.children@, child, node.0 as int, i as int);
        }
        perform_hidden_layout_inner(tree, child, i as u32);
        proof {
            assert(tree.nodes@[child.0 as int].layout == (Layout {
                order: spec_sibling_order(tree.children@, child.0 as int),
                ..Layout::spec_zero()
            }));
        }
        i = i + 1;
    }
    proof {
        let cs = tree.children@;
        let nd = node.0 as int;
        assert forall|d: int|
            0 <= d < old(tree).nodes@.len() && spec_descendant(
                old(tree).children@,
                d,
                nd,
            ) implies (#[trigger] tree.nodes@[d]).layout.size == (Layout::spec_zero().size)
            && tree.nodes@[d].layout.location == (Layout::spec_zero().location) by {
            let j = choose|j: int|
                0 <= j < cs[nd]@.len() && {
                    let c = (#[trigger] cs[nd]@[j]).0 as int;
                    c == d || spec_descendant(cs, d, c)
                };
            assert(spec_in_subtree(cs, cs[nd]@[j].0 as int, d));
        }
        assert forall|d: int|
            0 <= d < old(tree).nodes@.len() && !spec_descendant(
                old(tree).children@,
                d,
                nd,
            ) implies (#[trigger] tree.nodes@[d]).layout == old(tree).nodes@[d].layout by {
            if exists|k: int|
                0 <= k < n && spec_in_subtree(cs, (#[trigger] cs[nd]@[k]).0 as int, d) {
                let k = choose|k: int|
                    0 <= k < n && spec_in_subtree(cs, (#[trigger] cs[nd]@[k]).0 as int, d);
                assert(spec_descendant(cs, d, nd));
            }
        }
        assert forall|d: int|
            0 <= d < old(tree).nodes@.len() && spec_descendant(
                old(tree).children@,
                d,
                nd,
            ) implies (#[trigger] tree.nodes@[d]).layout == (Layout {
            order: spec_sibling_order(old(tree).children@, d),
            ..Layout::spec_zero()
        }) by {
            let j = choose|j: int|
                0 <= j < cs[nd]@.len() && {
                    let c = (#[trigger] cs[nd]@[j]).0 as int;
                    c == d || spec_descendant(cs, d, c)
                };
            assert(spec_in_subtree(cs, cs[nd]@[j].0 as int, d));
        }
    }
}

/// Hidden layout is idempotent: given the layouts one run leaves (a zero
/// layout with the sibling-index order throughout the subtree, untouched
/// elsewhere — the contract of `perform_hidden_layout`), a second run over
/// the unmodified tree leaves every node's stored layout exactly as the
/// first run left it.
pub proof fn lemma_hidden_layout_idempotent(t0: Taffy, t1: Taffy, t2: Taffy, node: NodeId)
    requires
        t0.wf(),
        t0.spec_is_node(node),
        spec_same_shape(t0, t1),
        forall|d: int|
            0 <= d < t0.nodes@.len() && spec_descendant(t0.children@, d, node.0 as int) ==> (
            #[trigger] t1.nodes@[d]).layout == (Layout {
                order: spec_sibling_order(t0.children@, d),
                ..Layout::spec_zero()
            }),
        forall|d: int|
            0 <= d < t0.nodes@.len() && !spec_descendant(t0.children@, d, node.0 as int) ==> (
            #[trigger] t1.nodes@[d]).layout == t0.nodes@[d].layout,
        spec_same_shape(t1, t2),
        forall|d: int|
            0 <= d < t1.nodes@.len() && spec_descendant(t1.children@, d, node.0 as int) ==> (
            #[trigger] t2.nodes@[d]).layout == (Layout {
                order: spec_sibling_order(t1.children@, d),
                ..Layout::spec_zero()
            }),
        forall|d: int|
            0 <= d < t1.nodes@.len() && !spec_descendant(t1.children@, d, node.0 as int) ==> (
            #[trigger] t2.nodes@[d]).layout == t1.nodes@[d].layout,
    ensures
        forall|d: int|
            0 <= d < t0.nodes@.len() ==> (#[trigger] t2.nodes@[d]).layout
                == t1.nodes@[d].layout,
{
    assert(t1.children@ == t0.children@);
}

/// A common interface that all layout algorithms conform to. Measuring a
/// size is pure with respect to the stored layouts; performing a layout
/// may write layouts and caches but never styles, children or content.
pub trait LayoutAlgorithm {
    /// Compute the size of the node given the specified constraints,
    /// without writing any layout result.
    fn measure_size(
        tree: &mut Taffy,
        node: NodeId,
        known_dimensions: Size<Option<Unit>>,
        parent_size: Size<Option<Unit>>,
        available_space: Size<AvailableSpace>,
        sizing_mode: SizingMode,
        vertical_margins_are_collapsible: Line<bool>,
    ) -> (r: Size<Unit>)
        requires
            old(tree).wf(),
            old(tree).spec_is_node(node),
        ensures
            final(tree).wf(),
            spec_same_styles(*old(tree), *final(tree)),
            forall|i: int|
                0 <= i < old(tree).nodes@.len() ==> (#[trigger] final(tree).nodes@[i]).layout
                    == old(tree).nodes@[i].layout,
    ;

    /// Perform a full layout on the node given the specified constraints,
    /// committing layouts for it and its descendants into the tree.
    fn perform_layout(
        tree: &mut Taffy,
        node: NodeId,
        known_dimensions: Size<Option<Unit>>,
        parent_size: Size<Option<Unit>>,
        available_space: Size<AvailableSpace>,
        sizing_mode: SizingMode,
        vertical_margins_are_collapsible: Line<bool>,
    ) -> (r: SizeBaselinesAndMargins)
        requires
            old(tree).wf(),
            old(tree).spec_is_node(node),
        ensures
            final(tree).wf(),
            spec_same_styles(*old(tree), *final(tree)),
    ;
}

/// The hidden node algorithm: zero size for the node, and a zero layout
/// for every descendant.
pub struct HiddenAlgorithm;

impl LayoutAlgorithm for HiddenAlgorithm {
    fn measure_size(
        tree: &mut Taffy,
        node: NodeId,
        known_dimensions: Size<Option<Unit>>,
        parent_size: Size<Option<Unit>>,
        available_space: Size<AvailableSpace>,
        sizing_mode: SizingMode,
        vertical_margins_are_collapsible: Line<bool>,
    ) -> (r: Size<Unit>)
        ensures
            r == (Size { width: Unit { repr: 0 }, height: Unit { repr: 0 } }),
            *final(tree) == *old(tree),
    {
        Size::zero()
    }

    fn perform_layout(
        tree: &mut Taffy,
        node: NodeId,
        known_dimensions: Size<Option<Unit>>,
        parent_size: Size<Option<Unit>>,
        available_space: Size<AvailableSpace>,
        sizing_mode: SizingMode,
        vertical_margins_are_collapsible: Line<bool>,
    ) -> (r: SizeBaselinesAndMargins)
        ensures
            r == spec_leaf_result_hidden(),
            spec_same_shape(*old(tree), *final(tree)),
            forall|d: int|
                0 <= d < old(tree).nodes@.len() && spec_descendant(
                    old(tree).children@,
                    d,
                    node.0 as int,
                ) ==> (#[trigger] final(tree).nodes@[d]).layout.size == (Layout::spec_zero().size)
                    && final(tree).nodes@[d].layout.location == (Layout::spec_zero().location),
            forall|d: int|
                0 <= d < old(tree).nodes@.len() && !spec_descendant(
                    old(tree).children@,
                    d,
                    node.0 as int,
                ) ==> (#[trigger] final(tree).nodes@[d]).layout == old(tree).nodes@[d].layout,
            forall|d: int|
                0 <= d < old(tree).nodes@.len() && spec_descendant(
                    old(tree).children@,
                    d,
                    node.0 as int,
                ) ==> (#[trigger] final(tree).nodes@[d]).layout == (Layout {
                    order: spec_sibling_order(old(tree).children@, d),
                    ..Layout::spec_zero()
                }),
    {
        perform_hidden_layout(tree, node);
        SizeBaselinesAndMargins::hidden()
    }
}

/// The all-zero result a hidden node reports upward.
pub open spec fn spec_leaf_result_hidden() -> SizeBaselinesAndMargins {
    SizeBaselinesAndMargins {
        size: Size { width: Unit { repr: 0 }, height: Unit { repr: 0 } },
        first_baselines: Point { x: None, y: None },
        top_margin: CollapsibleMarginSet::spec_zero(),
        bottom_margin: CollapsibleMarginSet::spec_zero(),
        margins_can_collapse_through: false,
    }
}

} // verus!
