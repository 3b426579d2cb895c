//! Tests of the tree, the hidden-node algorithm, the per-node cache and
//! the geometry helpers.

use boxlayout::unit::Unit;
use boxlayout::geometry::{AbsoluteAxis, AbstractAxis, Line, Point, Rect, Size};
use boxlayout::style::{AvailableSpace, Display, Style};
use boxlayout::layout::{Layout, RunMode, SizeBaselinesAndMargins, SizingMode};
use boxlayout::cache::Cache;
use boxlayout::compute::{perform_hidden_layout, HiddenAlgorithm, LayoutAlgorithm};
use boxlayout::tree::{NodeData, NodeId, Taffy};

fn u(v: i64) -> Unit {
    Unit::from_int(v)
}

#[test]
fn hidden_layout_should_hide_recursively() {
    let mut taffy = Taffy::new();

    let style: Style = Style {
        display: Display::Flex,
        size: Size::from_lengths(u(50), u(50)),
        ..Default::default()
    };

    let grandchild_00 = taffy.new_leaf(style);
    let grandchild_01 = taffy.new_leaf(style);
    let child_00 = taffy.new_with_children(style, vec![grandchild_00, grandchild_01]);

    let grandchild_02 = taffy.new_leaf(style);
    let child_01 = taffy.new_with_children(style, vec![grandchild_02]);

    let root = taffy.new_with_children(
        Style { display: Display::Hidden, size: Size::from_lengths(u(50), u(50)), ..Default::default() },
        vec![child_00, child_01],
    );

    perform_hidden_layout(&mut taffy, root);

    // Whatever size and display mode the nodes had previously, all layouts
    // should resolve to zero due to the root's hidden display.
    for node in [grandchild_00, grandchild_01, grandchild_02, child_00, child_01] {
        let layout = taffy.layout(node);
        assert_eq!(layout.size, Size::zero());
        assert_eq!(layout.location, Point::zero());
    }
}

#[test]
fn hidden_layout_is_idempotent() {
    let mut taffy = Taffy::new();
    let style = Style::default();
    let leaf_a = taffy.new_leaf(style);
    let leaf_b = taffy.new_leaf(style);
    let mid = taffy.new_with_children(style, vec![leaf_a, leaf_b]);
    let root = taffy.new_with_children(
        Style { display: Display::Hidden, ..Default::default() },
        vec![mid],
    );
    perform_hidden_layout(&mut taffy, root);
    let first: Vec<Layout> = [leaf_a, leaf_b, mid, root].iter().map(|n| taffy.layout(*n)).collect();
    perform_hidden_layout(&mut taffy, root);
    let second: Vec<Layout> = [leaf_a, leaf_b, mid, root].iter().map(|n| taffy.layout(*n)).collect();
    assert_eq!(first, second);
}

#[test]
fn hidden_layout_orders_children_by_sibling_index() {
    let mut taffy = Taffy::new();
    let style = Style::default();
    let first = taffy.new_leaf(style);
    let second = taffy.new_leaf(style);
    let third = taffy.new_leaf(style);
    let root = taffy.new_with_children(style, vec![first, second, third]);
    perform_hidden_layout(&mut taffy, root);
    assert_eq!(taffy.layout(first).order, 0);
    assert_eq!(taffy.layout(second).order, 1);
    assert_eq!(taffy.layout(third).order, 2);
}

#[test]
fn hidden_layout_leaves_nodes_outside_the_subtree_alone() {
    let mut taffy = Taffy::new();
    let style = Style::default();
    let inside = taffy.new_leaf(style);
    let outside = taffy.new_leaf(style);
    let root = taffy.new_with_children(style, vec![inside]);
    taffy.set_layout(
        outside,
        Layout { order: 9, size: Size { width: u(3), height: u(4) }, location: Point::zero() },
    );
    perform_hidden_layout(&mut taffy, root);
    assert_eq!(taffy.layout(inside).size, Size::zero());
    assert_eq!(taffy.layout(outside).size, Size { width: u(3), height: u(4) });
    assert_eq!(taffy.layout(outside).order, 9);
}

#[test]
fn hidden_algorithm_reports_a_zero_result() {
    let mut taffy = Taffy::new();
    let child = taffy.new_leaf(Style::default());
    let root = taffy.new_with_children(
        Style { display: Display::Hidden, ..Default::default() },
        vec![child],
    );
    let result = <HiddenAlgorithm as LayoutAlgorithm>::perform_layout(
        &mut taffy,
        root,
        Size::none(),
        Size::none(),
        Size::max_content(),
        SizingMode::InherentSize,
        Line { start: false, end: false },
    );
    assert_eq!(result.size, Size::zero());
    assert!(!result.margins_can_collapse_through);
    assert_eq!(taffy.layout(child).size, Size::zero());
    let measured = <HiddenAlgorithm as LayoutAlgorithm>::measure_size(
        &mut taffy,
        root,
        Size::none(),
        Size::none(),
        Size::max_content(),
        SizingMode::InherentSize,
        Line { start: false, end: false },
    );
    assert_eq!(measured, Size::zero());
}

#[test]
fn cache_returns_exactly_what_was_stored() {
    let mut cache = Cache::new();
    let known = Size { width: Some(u(10)), height: None };
    let avail = Size { width: AvailableSpace::Definite(u(100)), height: AvailableSpace::MaxContent };
    let result = SizeBaselinesAndMargins::from_size(Size { width: u(10), height: u(20) });
    assert_eq!(cache.get(known, avail, RunMode::ComputeSize), None);
    cache.store(known, avail, RunMode::ComputeSize, result);
    assert_eq!(cache.get(known, avail, RunMode::ComputeSize), Some(result));
    // A different run mode is a different call shape.
    assert_eq!(cache.get(known, avail, RunMode::PerformLayout), None);
    // Storing the same shape again overwrites.
    let other = SizeBaselinesAndMargins::from_size(Size { width: u(1), height: u(2) });
    cache.store(known, avail, RunMode::ComputeSize, other);
    assert_eq!(cache.get(known, avail, RunMode::ComputeSize), Some(other));
    cache.clear();
    assert!(cache.is_empty());
    assert_eq!(cache.get(known, avail, RunMode::ComputeSize), None);
}

#[test]
fn cache_evicts_the_oldest_entry_when_full() {
    let mut cache = Cache::new();
    let avail = Size::<AvailableSpace>::max_content();
    let result = SizeBaselinesAndMargins::from_size(Size::zero());
    for i in 0..9i64 {
        let known = Size { width: Some(u(i)), height: None };
        cache.store(known, avail, RunMode::ComputeSize, result);
    }
    // Capacity is eight: the first stored shape is gone, the rest answer.
    assert_eq!(cache.get(Size { width: Some(u(0)), height: None }, avail, RunMode::ComputeSize), None);
    for i in 1..9i64 {
        let known = Size { width: Some(u(i)), height: None };
        assert_eq!(cache.get(known, avail, RunMode::ComputeSize), Some(result));
    }
}

#[test]
fn node_data_mark_dirty_clears_only_the_cache() {
    let mut data = NodeData::new(Style::default());
    data.cache.store(
        Size::none(),
        Size::<AvailableSpace>::max_content(),
        RunMode::ComputeSize,
        SizeBaselinesAndMargins::from_size(Size::zero()),
    );
    data.layout = Layout::with_order(3);
    data.mark_dirty();
    assert!(data.cache.is_empty());
    assert_eq!(data.layout.order, 3);
    assert_eq!(data.style, Style::default());
}

#[test]
fn mark_dirty_clears_ancestors_but_not_descendants() {
    let mut taffy = Taffy::new();
    let style = Style::default();
    let leaf = taffy.new_leaf(style);
    let sibling = taffy.new_leaf(style);
    let mid = taffy.new_with_children(style, vec![leaf, sibling]);
    let unrelated = taffy.new_leaf(style);
    let root = taffy.new_with_children(style, vec![mid, unrelated]);
    let entry = SizeBaselinesAndMargins::from_size(Size::zero());
    let avail = Size::<AvailableSpace>::max_content();
    for node in [leaf, sibling, mid, unrelated, root] {
        let idx = node.as_u64() as usize;
        taffy.nodes[idx].cache.store(Size::none(), avail, RunMode::ComputeSize, entry);
    }
    taffy.mark_dirty(mid);
    // The node itself and its ancestors lose their caches...
    assert!(taffy.nodes[mid.as_u64() as usize].cache.is_empty());
    assert!(taffy.nodes[root.as_u64() as usize].cache.is_empty());
    // ...while its descendants and unrelated nodes keep theirs.
    assert!(!taffy.nodes[leaf.as_u64() as usize].cache.is_empty());
    assert!(!taffy.nodes[sibling.as_u64() as usize].cache.is_empty());
    assert!(!taffy.nodes[unrelated.as_u64() as usize].cache.is_empty());
}

#[test]
fn node_ids_are_assigned_in_creation_order() {
    let mut taffy = Taffy::new();
    let a = taffy.new_leaf(Style::default());
    let b = taffy.new_leaf(Style::default());
    assert_eq!(a, NodeId::new(0));
    assert_eq!(b.as_u64(), 1);
    assert_eq!(NodeId::from_usize(7).as_u64(), 7);
    let parent = taffy.new_with_children(Style::default(), vec![a, b]);
    assert_eq!(taffy.child_count(parent), 2);
    assert_eq!(taffy.child(parent, 0), a);
    assert_eq!(taffy.child(parent, 1), b);
    assert_eq!(taffy.node_count(), 3);
    assert_eq!(*taffy.style(parent), Style::default());
}

#[test]
fn geometry_axis_helpers() {
    assert_eq!(AbsoluteAxis::Horizontal.other_axis(), AbsoluteAxis::Vertical);
    assert_eq!(AbsoluteAxis::Vertical.other_axis(), AbsoluteAxis::Horizontal);
    assert_eq!(AbstractAxis::Inline.other(), AbstractAxis::Block);
    assert_eq!(AbstractAxis::Block.other(), AbstractAxis::Inline);
    let size = Size { width: u(3), height: u(4) };
    assert_eq!(size.get_abs(AbsoluteAxis::Horizontal), u(3));
    assert_eq!(size.get_abs(AbsoluteAxis::Vertical), u(4));
    assert_eq!(size.get(AbstractAxis::Block), u(4));
    let point = Point { x: u(1), y: u(2) };
    assert_eq!(point.transpose(), Point { x: u(2), y: u(1) });
    assert_eq!(point.get(AbstractAxis::Inline), u(1));
}

#[test]
fn rect_sums_and_lines() {
    let rect = Rect { left: u(1), right: u(2), top: u(3), bottom: u(4) };
    assert_eq!(rect.horizontal_axis_sum(), u(3));
    assert_eq!(rect.vertical_axis_sum(), u(7));
    assert_eq!(rect.sum_axes(), Size { width: u(3), height: u(7) });
    assert_eq!(rect.grid_axis_sum(AbsoluteAxis::Horizontal), u(3));
    assert_eq!(rect.horizontal_components(), Line { start: u(1), end: u(2) });
    assert_eq!(rect.vertical_components().sum(), u(7));
    let doubled = rect.map(|v: Unit| v.add(v));
    assert_eq!(doubled.bottom, u(8));
}

#[test]
fn size_option_helpers() {
    let some = Size::new(u(5), u(6));
    assert!(some.both_axis_defined());
    let none: Size<Option<Unit>> = Size::none();
    assert!(!none.both_axis_defined());
    assert_eq!(none.unwrap_or(Size { width: u(1), height: u(2) }), Size { width: u(1), height: u(2) });
    assert_eq!(none.or(some), some);
    let ratio = Size { width: Some(u(100)), height: None }.maybe_apply_aspect_ratio(Some(u(4)));
    assert_eq!(ratio, Size::new(u(100), u(25)));
    let no_ratio = Size { width: Some(u(100)), height: None }.maybe_apply_aspect_ratio(None);
    assert_eq!(no_ratio.height, None);
}
