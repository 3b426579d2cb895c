//! The leaf sizing resolver: computes the size of a node with no children
//! from its style, an optional content measurement, and the constraints
//! handed down by the parent.

use vstd::prelude::*;
use crate::unit::Unit;
use crate::geometry::{Line, Point, Rect, Size};
use crate::style::{AvailableSpace, Display, Overflow, Position, Style};
use crate::layout::{CollapsibleMarginSet, SizeBaselinesAndMargins, SizingMode};
use crate::measure::Measurable;

verus! {

/// The node's preferred, minimum and maximum sizes and aspect ratio after
/// resolving style against the parent size. Content-box sizing ignores the
/// node's own size styles; inherent sizing applies them, with known
/// dimensions overriding the preferred size axis by axis.
pub open spec fn spec_node_sizes(
    style: Style,
    known_dimensions: Size<Option<Unit>>,
    parent_size: Size<Option<Unit>>,
    sizing_mode: SizingMode,
) -> (Size<Option<Unit>>, Size<Option<Unit>>, Size<Option<Unit>>, Option<Unit>) {
    match sizing_mode {
        SizingMode::ContentSize => (
            known_dimensions,
            Size { width: None, height: None },
            Size { width: None, height: None },
            None,
        ),
        SizingMode::InherentSize => {
            let aspect_ratio = style.aspect_ratio;
            let style_size = style.size.spec_maybe_resolve_size(
                parent_size,
            ).spec_apply_aspect_ratio(aspect_ratio);
            let style_min_size = style.min_size.spec_maybe_resolve_size(
                parent_size,
            ).spec_apply_aspect_ratio(aspect_ratio);
            let style_max_size = style.max_size.spec_maybe_resolve_size(parent_size);
            (known_dimensions.spec_or(style_size), style_min_size, style_max_size, aspect_ratio)
        },
    }
}

/// The scrollbar gutter reserved on each axis: scrolling on one axis
/// reserves space on the transpose axis.
pub open spec fn spec_scrollbar_gutter(style: Style) -> Point<Unit> {
    Point {
        x: if style.overflow.y is Scroll {
            style.scrollbar_width
        } else {
            Unit { repr: 0 }
        },
        y: if style.overflow.x is Scroll {
            style.scrollbar_width
        } else {
            Unit { repr: 0 }
        },
    }
}

/// Padding plus border per edge, percentages resolved against the parent's
/// inline size for every edge.
pub open spec fn spec_padding_border(style: Style, parent_width: Option<Unit>) -> Rect<Unit> {
    style.padding.spec_resolve_or_zero(parent_width).spec_plus(
        style.border.spec_resolve_or_zero(parent_width),
    )
}

/// The content-box inset: padding plus border, with the scrollbar gutter
/// added to the right and bottom edges.
pub open spec fn spec_content_box_inset(style: Style, parent_width: Option<Unit>) -> Rect<Unit> {
    let pb = spec_padding_border(style, parent_width);
    let gutter = spec_scrollbar_gutter(style);
    Rect {
        left: pb.left,
        right: pb.right.spec_plus(gutter.x),
        top: pb.top,
        bottom: pb.bottom.spec_plus(gutter.y),
    }
}

/// Whether anything about the node's styling prevents margins collapsing
/// through it: a non-block display, being a scroll container, absolute
/// positioning, or nonzero top or bottom padding or border.
pub open spec fn spec_prevents_collapse_through(style: Style, parent_width: Option<Unit>) -> bool {
    let padding = style.padding.spec_resolve_or_zero(parent_width);
    let border = style.border.spec_resolve_or_zero(parent_width);
    !(style.display is Block) || (style.overflow.x is Hidden || style.overflow.x is Scroll) || (
    style.overflow.y is Hidden || style.overflow.y is Scroll) || style.position is Absolute
        || padding.top.repr > 0 || padding.bottom.repr > 0 || border.top.repr > 0
        || border.bottom.repr > 0
}

/// The padding-plus-border floor as optional bounds: a leaf never ends up
/// smaller than its own border and padding (border-box behaviour).
pub open spec fn spec_padding_border_floor(pb: Rect<Unit>) -> Size<Option<Unit>> {
    Size { width: Some(pb.spec_horizontal_axis_sum()), height: Some(pb.spec_vertical_axis_sum()) }
}

/// The constrained available space handed to the content measurement:
/// each axis pinned by the node size or max size where known, and definite
/// amounts clamped to min/max and shrunk by the content-box inset.
pub open spec fn spec_measure_available(
    style: Style,
    known_dimensions: Size<Option<Unit>>,
    parent_size: Size<Option<Unit>>,
    available_space: Size<AvailableSpace>,
    sizing_mode: SizingMode,
) -> Size<AvailableSpace> {
    let sizes = spec_node_sizes(style, known_dimensions, parent_size, sizing_mode);
    let node_size = sizes.0;
    let node_min_size = sizes.1;
    let node_max_size = sizes.2;
    let inset = spec_content_box_inset(style, parent_size.width);
    Size {
        width: match available_space.width.spec_maybe_set(node_size.width).spec_maybe_set(
            node_max_size.width,
        ) {
            AvailableSpace::Definite(s) => AvailableSpace::Definite(
                s.spec_maybe_clamp(node_min_size.width, node_max_size.width).spec_minus(
                    inset.spec_horizontal_axis_sum(),
                ),
            ),
            other => other,
        },
        height: match available_space.height.spec_maybe_set(node_size.height).spec_maybe_set(
            node_max_size.height,
        ) {
            AvailableSpace::Definite(s) => AvailableSpace::Definite(
                s.spec_maybe_clamp(node_min_size.height, node_max_size.height).spec_minus(
                    inset.spec_vertical_axis_sum(),
                ),
            ),
            other => other,
        },
    }
}

/// A leaf result: the size, no baselines, empty margin sets, and the given
/// collapse-through eligibility.
pub open spec fn spec_leaf_result(size: Size<Unit>, can_collapse_through: bool) -> SizeBaselinesAndMargins {
    SizeBaselinesAndMargins {
        size,
        first_baselines: Point { x: None, y: None },
        top_margin: CollapsibleMarginSet::spec_zero(),
        bottom_margin: CollapsibleMarginSet::spec_zero(),
        margins_can_collapse_through: can_collapse_through,
    }
}

/// The leaf rule when both dimensions are already known: clamp them to
/// min/max and floor them by padding plus border, without measuring.
pub open spec fn spec_leaf_known(
    width: Unit,
    height: Unit,
    node_min_size: Size<Option<Unit>>,
    node_max_size: Size<Option<Unit>>,
    pb: Rect<Unit>,
    prevented: bool,
    has_measure: bool,
) -> SizeBaselinesAndMargins {
    let size = (Size { width, height }).spec_maybe_clamp(node_min_size, node_max_size).spec_maybe_max(
        spec_padding_border_floor(pb),
    );
    spec_leaf_result(size, !prevented && size.height.repr == 0 && !has_measure)
}

/// The leaf rule for a node with intrinsic content: the explicit size wins
/// where present, else the measured size plus the content-box inset; clamp
/// to min/max, apply the aspect-ratio height floor, and floor by padding
/// plus border. Margins collapse through only if the node resolved to zero
/// height and the content also measured zero height.
pub open spec fn spec_leaf_measured(
    node_size: Size<Option<Unit>>,
    node_min_size: Size<Option<Unit>>,
    node_max_size: Size<Option<Unit>>,
    aspect_ratio: Option<Unit>,
    pb: Rect<Unit>,
    inset: Rect<Unit>,
    prevented: bool,
    measured: Size<Unit>,
) -> SizeBaselinesAndMargins {
    let clamped = node_size.spec_unwrap_or(measured.spec_plus(inset.spec_sum_axes())).spec_maybe_clamp(
        node_min_size,
        node_max_size,
    );
    let height_floor = match aspect_ratio {
        Some(ratio) => clamped.width.spec_divided_by(ratio),
        None => Unit { repr: 0 },
    };
    let size = (Size {
        width: clamped.width,
        height: clamped.height.spec_maximum(height_floor),
    }).spec_maybe_max(spec_padding_border_floor(pb));
    spec_leaf_result(size, !prevented && size.height.repr == 0 && measured.height.repr == 0)
}

/// The leaf rule for an empty node without a full known size: each unknown
/// axis takes the content-box inset (border-box behaviour), clamped to
/// min/max and floored by padding plus border, and the aspect ratio is then
/// applied symmetrically, each axis never shrinking.
pub open spec fn spec_leaf_intrinsicless(
    node_size: Size<Option<Unit>>,
    node_min_size: Size<Option<Unit>>,
    node_max_size: Size<Option<Unit>>,
    aspect_ratio: Option<Unit>,
    pb: Rect<Unit>,
    inset: Rect<Unit>,
    prevented: bool,
) -> SizeBaselinesAndMargins {
    let width0 = (match node_size.width {
        Some(w) => w,
        None => inset.spec_horizontal_axis_sum(),
    }).spec_maybe_clamp(node_min_size.width, node_max_size.width).spec_maybe_max(
        Some(pb.spec_horizontal_axis_sum()),
    );
    let height0 = (match node_size.height {
        Some(h) => h,
        None => inset.spec_vertical_axis_sum(),
    }).spec_maybe_clamp(node_min_size.height, node_max_size.height).spec_maybe_max(
        Some(pb.spec_vertical_axis_sum()),
    );
    let size = Size {
        width: width0.spec_maximum(
            match aspect_ratio {
                Some(ratio) => height0.spec_times(ratio),
                None => Unit { repr: 0 },
            },
        ),
        height: height0.spec_maximum(
            match aspect_ratio {
                Some(ratio) => width0.spec_divided_by(ratio),
                None => Unit { repr: 0 },
            },
        ),
    };
    spec_leaf_result(size, !prevented && size.height.repr == 0)
}

/// The full leaf sizing rule. `measured` is the content measurement under
/// the constraints of `spec_measure_available` when the node has intrinsic
/// content, and nothing otherwise.
pub open spec fn spec_leaf_layout(
    style: Style,
    known_dimensions: Size<Option<Unit>>,
    parent_size: Size<Option<Unit>>,
    sizing_mode: SizingMode,
    measured: Option<Size<Unit>>,
) -> SizeBaselinesAndMargins {
    let sizes = spec_node_sizes(style, known_dimensions, parent_size, sizing_mode);
    let node_size = sizes.0;
    let node_min_size = sizes.1;
    let node_max_size = sizes.2;
    let aspect_ratio = sizes.3;
    let pb = spec_padding_border(style, parent_size.width);
    let inset = spec_content_box_inset(style, parent_size.width);
    let prevented = spec_prevents_collapse_through(style, parent_size.width);
    if node_size.width is Some && node_size.height is Some {
        spec_leaf_known(
            node_size.width->0,
            node_size.height->0,
            node_min_size,
            node_max_size,
            pb,
            prevented,
            measured is Some,
        )
    } else {
        match measured {
            Some(m) => spec_leaf_measured(
                node_size,
                node_min_size,
                node_max_size,
                aspect_ratio,
                pb,
                inset,
                prevented,
                m,
            ),
            None => spec_leaf_intrinsicless(
                node_size,
                node_min_size,
                node_max_size,
                aspect_ratio,
                pb,
                inset,
                prevented,
            ),
        }
    }
}

/// Resolve the node's preferred/min/max sizes and aspect ratio against the
/// parent size; content-box sizing ignores the node's own size styles.
fn resolve_node_sizes(
    style: &Style,
    known_dimensions: Size<Option<Unit>>,
    parent_size: Size<Option<Unit>>,
    sizing_mode: SizingMode,
) -> (r: (Size<Option<Unit>>, Size<Option<Unit>>, Size<Option<Unit>>, Option<Unit>))
    ensures
        r == spec_node_sizes(*style, known_dimensions, parent_size, sizing_mode),
{
    match sizing_mode {
        SizingMode::ContentSize => (known_dimensions, Size::none(), Size::none(), None),
        SizingMode::InherentSize => {
            let aspect_ratio = style.aspect_ratio;
            let style_size = style.size.maybe_resolve(parent_size).maybe_apply_aspect_ratio(
                aspect_ratio,
            );
            let style_min_size = style.min_size.maybe_resolve(parent_size).maybe_apply_aspect_ratio(
                aspect_ratio,
            );
            let style_max_size = style.max_size.maybe_resolve(parent_size);
            (known_dimensions.or(style_size), style_min_size, style_max_size, aspect_ratio)
        },
    }
}

/// Resolve padding plus border against the parent's inline size.
fn resolve_padding_border(style: &Style, parent_width: Option<Unit>) -> (r: Rect<Unit>)
    ensures
        r == spec_padding_border(*style, parent_width),
{
    style.padding.resolve_or_zero(parent_width).add(style.border.resolve_or_zero(parent_width))
}

/// Resolve the content-box inset: padding plus border plus the transposed
/// scrollbar gutter.
fn resolve_content_box_inset(style: &Style, parent_width: Option<Unit>) -> (r: Rect<Unit>)
    ensures
        r == spec_content_box_inset(*style, parent_width),
{
    let padding_border = resolve_padding_border(style, parent_width);
    let gutter_x = match style.overflow.y {
        Overflow::Scroll => style.scrollbar_width,
        _ => Unit::zero(),
    };
    let gutter_y = match style.overflow.x {
        Overflow::Scroll => style.scrollbar_width,
        _ => Unit::zero(),
    };
    Rect {
        left: padding_border.left,
        right: padding_border.right.add(gutter_x),
        top: padding_border.top,
        bottom: padding_border.bottom.add(gutter_y),
    }
}

/// Whether the node's styling prevents margins collapsing through it.
fn prevents_collapse_through(style: &Style, parent_width: Option<Unit>) -> (r: bool)
    ensures
        r == spec_prevents_collapse_through(*style, parent_width),
{
    let padding = style.padding.resolve_or_zero(parent_width);
    let border = style.border.resolve_or_zero(parent_width);
    let is_block = matches!(style.display, Display::Block);
    !is_block || style.overflow.x.is_scroll_container() || style.overflow.y.is_scroll_container()
        || matches!(style.position, Position::Absolute) || padding.top.is_positive()
        || padding.bottom.is_positive() || border.top.is_positive() || border.bottom.is_positive()
}

/// Constrain the space offered to the content measurement.
fn measure_available(
    style: &Style,
    known_dimensions: Size<Option<Unit>>,
    parent_size: Size<Option<Unit>>,
    available_space: Size<AvailableSpace>,
    sizing_mode: SizingMode,
) -> (r: Size<AvailableSpace>)
    ensures
        r == spec_measure_available(
            *style,
            known_dimensions,
            parent_size,
            available_space,
            sizing_mode,
        ),
{
    let (node_size, node_min_size, node_max_size, _aspect_ratio) = resolve_node_sizes(
        style,
        known_dimensions,
        parent_size,
        sizing_mode,
    );
    let inset = resolve_content_box_inset(style, parent_size.width);
    let width = match available_space.width.maybe_set(node_size.width).maybe_set(
        node_max_size.width,
    ) {
        AvailableSpace::Definite(s) => AvailableSpace::Definite(
            s.maybe_clamp(node_min_size.width, node_max_size.width).sub(
                inset.horizontal_axis_sum(),
            ),
        ),
        other => other,
    };
    let height = match available_space.height.maybe_set(node_size.height).maybe_set(
        node_max_size.height,
    ) {
        AvailableSpace::Definite(s) => AvailableSpace::Definite(
            s.maybe_clamp(node_min_size.height, node_max_size.height).sub(
                inset.vertical_axis_sum(),
            ),
        ),
        other => other,
    };
    Size { width, height }
}

/// Build a leaf result from a size and the collapse-through eligibility.
fn leaf_result(size: Size<Unit>, can_collapse_through: bool) -> (r: SizeBaselinesAndMargins)
    ensures
        r == spec_leaf_result(size, can_collapse_through),
{
    SizeBaselinesAndMargins {
        size,
        first_baselines: Point::none(),
        top_margin: CollapsibleMarginSet::zero(),
        bottom_margin: CollapsibleMarginSet::zero(),
        margins_can_collapse_through: can_collapse_through,
    }
}

/// The leaf rule when both dimensions are already known.
fn leaf_known(
    width: Unit,
    height: Unit,
    node_min_size: Size<Option<Unit>>,
    node_max_size: Size<Option<Unit>>,
    pb: Rect<Unit>,
    prevented: bool,
    has_measure: bool,
) -> (r: SizeBaselinesAndMargins)
    ensures
        r == spec_leaf_known(
            width,
            height,
            node_min_size,
            node_max_size,
            pb,
            prevented,
            has_measure,
        ),
{
    let size = (Size { width, height }).maybe_clamp(node_min_size, node_max_size).maybe_max(
        Size { width: Some(pb.horizontal_axis_sum()), height: Some(pb.vertical_axis_sum()) },
    );
    leaf_result(size, !prevented && size.height.repr == 0 && !has_measure)
}

/// The leaf rule for a node with intrinsic content, from the measurement.
fn leaf_measured(
    node_size: Size<Option<Unit>>,
    node_min_size: Size<Option<Unit>>,
    node_max_size: Size<Option<Unit>>,
    aspect_ratio: Option<Unit>,
    pb: Rect<Unit>,
    inset: Rect<Unit>,
    prevented: bool,
    measured: Size<Unit>,
) -> (r: SizeBaselinesAndMargins)
    ensures
        r == spec_leaf_measured(
            node_size,
            node_min_size,
            node_max_size,
            aspect_ratio,
            pb,
            inset,
            prevented,
            measured,
        ),
{
    let clamped = node_size.unwrap_or(measured.add(inset.sum_axes())).maybe_clamp(
        node_min_size,
        node_max_size,
    );
    let height_floor = match aspect_ratio {
        Some(ratio) => clamped.width.div(ratio),
        None => Unit::zero(),
    };
    let size = (Size { width: clamped.width, height: clamped.height.max(height_floor) }).maybe_max(
        Size { width: Some(pb.horizontal_axis_sum()), height: Some(pb.vertical_axis_sum()) },
    );
    leaf_result(size, !prevented && size.height.repr == 0 && measured.height.repr == 0)
}

/// The leaf rule for an empty node without a full known size.
fn leaf_intrinsicless(
    node_size: Size<Option<Unit>>,
    node_min_size: Size<Option<Unit>>,
    node_max_size: Size<Option<Unit>>,
    aspect_ratio: Option<Unit>,
    pb: Rect<Unit>,
    inset: Rect<Unit>,
    prevented: bool,
) -> (r: SizeBaselinesAndMargins)
    ensures
        r == spec_leaf_intrinsicless(
            node_size,
            node_min_size,
            node_max_size,
            aspect_ratio,
            pb,
            inset,
            prevented,
        ),
{
    let width0 = (match node_size.width {
        Some(w) => w,
        None => inset.horizontal_axis_sum(),
    }).maybe_clamp(node_min_size.width, node_max_size.width).maybe_max(
        Some(pb.horizontal_axis_sum()),
    );
    let height0 = (match node_size.height {
        Some(h) => h,
        None => inset.vertical_axis_sum(),
    }).maybe_clamp(node_min_size.height, node_max_size.height).maybe_max(
        Some(pb.vertical_axis_sum()),
    );
    let width1 = width0.max(
        match aspect_ratio {
            Some(ratio) => height0.mul(ratio),
            None => Unit::zero(),
        },
    );
    let height1 = height0.max(
        match aspect_ratio {
            Some(ratio) => width0.div(ratio),
            None => Unit::zero(),
        },
    );
    leaf_result(
        Size { width: width1, height: height1 },
        !prevented && height1.repr == 0,
    )
}

/// Compute the size of a leaf node (a node with no children).
pub fn compute<M: Measurable>(
    style: &Style,
    measurable: Option<&M>,
    known_dimensions: Size<Option<Unit>>,
    parent_size: Size<Option<Unit>>,
    available_space: Size<AvailableSpace>,
    sizing_mode: SizingMode,
) -> (r: SizeBaselinesAndMargins)
    ensures
        r == spec_leaf_layout(
            *style,
            known_dimensions,
            parent_size,
            sizing_mode,
            match measurable {
                Some(m) => Some(
                    m.spec_measure(
                        known_dimensions,
                        spec_measure_available(
                            *style,
                            known_dimensions,
                            parent_size,
                            available_space,
                            sizing_mode,
                        ),
                    ),
                ),
                None => None,
            },
        ),
{
    let (node_size, node_min_size, node_max_size, aspect_ratio) = resolve_node_sizes(
        style,
        known_dimensions,
        parent_size,
        sizing_mode,
    );
    let padding_border = resolve_padding_border(style, parent_size.width);
    let content_box_inset = resolve_content_box_inset(style, parent_size.width);
    let prevented = prevents_collapse_through(style, parent_size.width);

    // Return early if both width and height are known: no measurement call.
    if node_size.width.is_some() && node_size.height.is_some() {
        return leaf_known(
            node_size.width.unwrap(),
            node_size.height.unwrap(),
            node_min_size,
            node_max_size,
            padding_border,
            prevented,
            measurable.is_some(),
        );
    }
    match measurable {
        Some(m) => {
            let constrained = measure_available(
                style,
                known_dimensions,
                parent_size,
                available_space,
                sizing_mode,
            );
            let measured_size = m.measure(known_dimensions, constrained);
            leaf_measured(
                node_size,
                node_min_size,
                node_max_size,
                aspect_ratio,
                padding_border,
                content_box_inset,
                prevented,
                measured_size,
            )
        },
        None => leaf_intrinsicless(
            node_size,
            node_min_size,
            node_max_size,
            aspect_ratio,
            padding_border,
            content_box_inset,
            prevented,
        ),
    }
}

/// Perform full layout on a leaf node.
pub fn perform_layout<M: Measurable>(
    style: &Style,
    measurable: Option<&M>,
    known_dimensions: Size<Option<Unit>>,
    parent_size: Size<Option<Unit>>,
    available_space: Size<AvailableSpace>,
    sizing_mode: SizingMode,
    vertical_margins_are_collapsible: Line<bool>,
) -> (r: SizeBaselinesAndMargins)
    ensures
        r == spec_leaf_layout(
            *style,
            known_dimensions,
            parent_size,
            sizing_mode,
            match measurable {
                Some(m) => Some(
                    m.spec_measure(
                        known_dimensions,
                        spec_measure_available(
                            *style,
                            known_dimensions,
                            parent_size,
                            available_space,
                            sizing_mode,
                        ),
                    ),
                ),
                None => None,
            },
        ),
{
    compute(style, measurable, known_dimensions, parent_size, available_space, sizing_mode)
}

/// Measure a leaf node's size.
pub fn measure_size<M: Measurable>(
    style: &Style,
    measurable: Option<&M>,
    known_dimensions: Size<Option<Unit>>,
    parent_size: Size<Option<Unit>>,
    available_space: Size<AvailableSpace>,
    sizing_mode: SizingMode,
    vertical_margins_are_collapsible: Line<bool>,
) -> (r: Size<Unit>)
    ensures
        r == spec_leaf_layout(
            *style,
            known_dimensions,
            parent_size,
            sizing_mode,
            match measurable {
                Some(m) => Some(
                    m.spec_measure(
                        known_dimensions,
                        spec_measure_available(
                            *style,
                            known_dimensions,
                            parent_size,
                            available_space,
                            sizing_mode,
                        ),
                    ),
                ),
                None => None,
            },
        ).size,
{
    compute(style, measurable, known_dimensions, parent_size, available_space, sizing_mode).size
}

} // verus!
