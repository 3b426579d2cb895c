//! Final data structures that represent the high-level UI layout, and the
//! collapsible-margin bookkeeping used by block layout.

use vstd::prelude::*;
use crate::unit::{Unit, spec_add, min_repr, max_repr};
use crate::geometry::{Point, Size};

verus! {

/// Whether we are performing a full layout, or merely need to size the node.
#[derive(Copy, Clone, Debug, PartialEq, Eq, Structural)]
pub enum RunMode {
    /// A full layout for this node and all children should be computed.
    PerformLayout,
    /// Only an accurate container size for the node need be determined.
    ComputeSize,
}

/// Whether styles should be taken into account when computing size.
#[derive(Copy, Clone, Debug, PartialEq, Eq, Structural)]
pub enum SizingMode {
    /// Only content contributions should be taken into account.
    ContentSize,
    /// Inherent size styles count in addition to content contributions.
    InherentSize,
}

/// A set of margins available for collapsing in block layout's margin
/// collapsing: the largest positive and the most negative margin seen so
/// far in a collapsing chain.
#[derive(Copy, Clone, Debug, PartialEq, Eq, Structural)]
pub struct CollapsibleMarginSet {
    /// The largest positive margin collapsed into the set.
    pub positive: Unit,
    /// The most negative margin collapsed into the set.
    pub negative: Unit,
}

impl CollapsibleMarginSet {
    /// The empty set: no collapsible margins seen yet.
    pub open spec fn spec_zero() -> CollapsibleMarginSet {
        CollapsibleMarginSet { positive: Unit { repr: 0 }, negative: Unit { repr: 0 } }
    }

    /// What collapsing one margin into a set yields: a positive margin can
    /// only raise the positive side to itself, any other margin can only
    /// lower the negative side to itself.
    pub open spec fn spec_collapse_margin(self, margin: Unit) -> CollapsibleMarginSet {
        if margin.repr > 0 {
            CollapsibleMarginSet {
                positive: Unit { repr: max_repr(self.positive.repr as int, margin.repr as int) as i64 },
                negative: self.negative,
            }
        } else {
            CollapsibleMarginSet {
                positive: self.positive,
                negative: Unit { repr: min_repr(self.negative.repr as int, margin.repr as int) as i64 },
            }
        }
    }

    /// What collapsing two sets yields: the larger positive side and the
    /// more negative negative side.
    pub open spec fn spec_collapse_set(self, other: CollapsibleMarginSet) -> CollapsibleMarginSet {
        CollapsibleMarginSet {
            positive: Unit {
                repr: max_repr(self.positive.repr as int, other.positive.repr as int) as i64,
            },
            negative: Unit {
                repr: min_repr(self.negative.repr as int, other.negative.repr as int) as i64,
            },
        }
    }

    /// A default margin set with no collapsible margins.
    pub fn zero() -> (r: Self)
        ensures
            r.positive.repr == 0,
            r.negative.repr == 0,
    {
        Self { positive: Unit::zero(), negative: Unit::zero() }
    }

    /// Create a set from a single margin.
    pub fn from_margin(margin: Unit) -> (r: Self)
        ensures
            r == (CollapsibleMarginSet {
                positive: Unit { repr: 0 },
                negative: Unit { repr: 0 },
            }).spec_collapse_margin(margin),
    {
        if margin.is_positive() {
            Self { positive: margin, negative: Unit::zero() }
        } else {
            Self { positive: Unit::zero(), negative: margin }
        }
    }

    /// Collapse a single margin with this set.
    pub fn collapse_with_margin(self, margin: Unit) -> (r: Self)
        ensures
            r == self.spec_collapse_margin(margin),
    {
        if margin.is_positive() {
            Self { positive: self.positive.max(margin), negative: self.negative }
        } else {
            Self { positive: self.positive, negative: self.negative.min(margin) }
        }
    }

    /// Collapse another margin set with this set.
    pub fn collapse_with_set(self, other: CollapsibleMarginSet) -> (r: Self)
        ensures
            r == self.spec_collapse_set(other),
    {
        Self {
            positive: self.positive.max(other.positive),
            negative: self.negative.min(other.negative),
        }
    }

    /// Resolve the resultant margin from this set once all collapsible
    /// margins have been collapsed into it: the sum of the two sides.
    pub fn resolve(&self) -> (r: Unit)
        ensures
            r.repr as int == spec_add(self.positive.repr as int, self.negative.repr as int),
    {
        self.positive.add(self.negative)
    }
}

/// Collapsing two margins into a set commutes: the set records only the
/// extremes, so the order in which margins arrive cannot matter.
pub proof fn lemma_collapse_with_margin_commutes(s: CollapsibleMarginSet, a: Unit, b: Unit)
    ensures
        s.spec_collapse_margin(a).spec_collapse_margin(b) == s.spec_collapse_margin(
            b,
        ).spec_collapse_margin(a),
{
}

/// Collapsing the same margin twice does not double-count: the second
/// collapse leaves the set unchanged.
pub proof fn lemma_collapse_with_margin_idempotent(s: CollapsibleMarginSet, a: Unit)
    ensures
        s.spec_collapse_margin(a).spec_collapse_margin(a) == s.spec_collapse_margin(a),
{
}

/// A struct containing both the size of a node and its first baseline in
/// each dimension, if it has any, together with the block-layout margin
/// bookkeeping. A baseline is the line on which text sits; a node without
/// one reports no baselines.
#[derive(Copy, Clone, Debug, PartialEq, Eq, Structural)]
pub struct SizeBaselinesAndMargins {
    /// The size of the node.
    pub size: Size<Unit>,
    /// The first baseline of the node in each dimension, if any.
    pub first_baselines: Point<Option<Unit>>,
    /// Top margin that can be collapsed with; the empty set for layout
    /// modes without margin collapsing.
    pub top_margin: CollapsibleMarginSet,
    /// Bottom margin that can be collapsed with; the empty set for layout
    /// modes without margin collapsing.
    pub bottom_margin: CollapsibleMarginSet,
    /// Whether margins can be collapsed through this node; false for layout
    /// modes without margin collapsing.
    pub margins_can_collapse_through: bool,
}

impl SizeBaselinesAndMargins {
    /// An all-zero result for hidden nodes.
    pub fn hidden() -> (r: Self)
        ensures
            r.size.width.repr == 0,
            r.size.height.repr == 0,
            r.first_baselines.x is None,
            r.first_baselines.y is None,
            r.top_margin == (CollapsibleMarginSet {
                positive: Unit { repr: 0 },
                negative: Unit { repr: 0 },
            }),
            r.bottom_margin == (CollapsibleMarginSet {
                positive: Unit { repr: 0 },
                negative: Unit { repr: 0 },
            }),
            !r.margins_can_collapse_through,
    {
        Self {
            size: Size::zero(),
            first_baselines: Point::none(),
            top_margin: CollapsibleMarginSet::zero(),
            bottom_margin: CollapsibleMarginSet::zero(),
            margins_can_collapse_through: false,
        }
    }

    /// A result from just the size and baselines, with empty margin sets.
    pub fn from_size_and_baselines(size: Size<Unit>, first_baselines: Point<Option<Unit>>) -> (r:
        Self)
        ensures
            r.size == size,
            r.first_baselines == first_baselines,
            r.top_margin == (CollapsibleMarginSet {
                positive: Unit { repr: 0 },
                negative: Unit { repr: 0 },
            }),
            r.bottom_margin == (CollapsibleMarginSet {
                positive: Unit { repr: 0 },
                negative: Unit { repr: 0 },
            }),
            !r.margins_can_collapse_through,
    {
        Self {
            size,
            first_baselines,
            top_margin: CollapsibleMarginSet::zero(),
            bottom_margin: CollapsibleMarginSet::zero(),
            margins_can_collapse_through: false,
        }
    }

    /// A result from just the size, with no baselines and empty margin sets.
    pub fn from_size(size: Size<Unit>) -> (r: Self)
        ensures
            r.size == size,
            r.first_baselines.x is None,
            r.first_baselines.y is None,
            r.top_margin == (CollapsibleMarginSet {
                positive: Unit { repr: 0 },
                negative: Unit { repr: 0 },
            }),
            r.bottom_margin == (CollapsibleMarginSet {
                positive: Unit { repr: 0 },
                negative: Unit { repr: 0 },
            }),
            !r.margins_can_collapse_through,
    {
        Self::from_size_and_baselines(size, Point::none())
    }
}

/// The final result of a layout algorithm for a single node.
#[derive(Copy, Clone, Debug, PartialEq, Eq, Structural)]
pub struct Layout {
    /// The relative ordering of the node: nodes with a higher order should
    /// be rendered on top of those with a lower order, so an order of zero
    /// renders below all others.
    pub order: u32,
    /// The width and height of the node.
    pub size: Size<Unit>,
    /// The top-left corner of the node.
    pub location: Point<Unit>,
}

impl Layout {
    /// The zero layout: order, size and location all zero.
    pub open spec fn spec_zero() -> Layout {
        Layout {
            order: 0,
            size: Size { width: Unit { repr: 0 }, height: Unit { repr: 0 } },
            location: Point { x: Unit { repr: 0 }, y: Unit { repr: 0 } },
        }
    }

    /// A zero layout: size and location zero, and the minimum order of
    /// zero, rendering below all other layouts.
    pub fn zero() -> (r: Self)
        ensures
            r == Layout::spec_zero(),
    {
        Layout { order: 0, size: Size::zero(), location: Point::zero() }
    }

    /// Creates a new zero layout.
    pub fn new() -> (r: Self)
        ensures
            r == Layout::spec_zero(),
    {
        Self::zero()
    }

    /// A zero-sized layout at the origin with the supplied order value.
    pub fn with_order(order: u32) -> (r: Self)
        ensures
            r == (Layout { order, ..Layout::spec_zero() }),
    {
        Layout { order, size: Size::zero(), location: Point::zero() }
    }
}

} // verus!
