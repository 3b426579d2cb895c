//! Resolved-style value types: the tagged length values that every
//! algorithm turns into concrete numbers against a context size, and the
//! style flags the layout modes dispatch on.

use vstd::prelude::*;
use crate::unit::{Unit, spec_mul, spec_sub, clamp_repr, abs_repr, INF};
use crate::geometry::{Rect, Size, Point};

verus! {

/// A unit of linear measurement that still awaits resolution against a
/// context size: an absolute length, or a percentage of the context.
#[derive(Copy, Clone, Debug, PartialEq, Eq, Structural)]
pub enum LengthPercentage {
    /// An absolute length in abstract units.
    Length(Unit),
    /// A fraction of the context size (one whole unit is 100%).
    Percent(Unit),
}

impl LengthPercentage {
    /// A zero-valued absolute length.
    pub fn zero() -> (r: Self)
        ensures
            r == LengthPercentage::Length(Unit { repr: 0 }),
    {
        LengthPercentage::Length(Unit::zero())
    }

    /// An absolute length.
    pub fn from_length(value: Unit) -> (r: Self)
        ensures
            r == LengthPercentage::Length(value),
    {
        LengthPercentage::Length(value)
    }

    /// A percentage of the context size.
    pub fn from_percent(percent: Unit) -> (r: Self)
        ensures
            r == LengthPercentage::Percent(percent),
    {
        LengthPercentage::Percent(percent)
    }

    /// What resolving against an optional context yields: a length always
    /// resolves to itself, a percentage only against a known context.
    pub open spec fn spec_maybe_resolve(self, context: Option<Unit>) -> Option<Unit> {
        match self {
            LengthPercentage::Length(l) => Some(l),
            LengthPercentage::Percent(p) => match context {
                Some(c) => Some(Unit { repr: spec_mul(c.repr as int, p.repr as int) as i64 }),
                None => None,
            },
        }
    }

    /// Resolve against an optional context size; a percentage of an unknown
    /// context stays unknown.
    pub fn maybe_resolve(self, context: Option<Unit>) -> (r: Option<Unit>)
        ensures
            r == self.spec_maybe_resolve(context),
    {
        match self {
            LengthPercentage::Length(l) => Some(l),
            LengthPercentage::Percent(p) => match context {
                Some(c) => Some(c.mul(p)),
                None => None,
            },
        }
    }

    /// Resolve against an optional context size, treating an unresolvable
    /// percentage as zero.
    pub fn resolve_or_zero(self, context: Option<Unit>) -> (r: Unit)
        ensures
            r == (match self.spec_maybe_resolve(context) {
                Some(v) => v,
                None => Unit { repr: 0 },
            }),
    {
        match self.maybe_resolve(context) {
            Some(v) => v,
            None => Unit::zero(),
        }
    }

    /// Whether this is a percentage.
    pub fn uses_percentage(self) -> (r: bool)
        ensures
            r == (self is Percent),
    {
        match self {
            LengthPercentage::Percent(_) => true,
            LengthPercentage::Length(_) => false,
        }
    }
}

/// A unit of linear measurement: an absolute length, a percentage of the
/// context, or a value to be computed automatically.
#[derive(Copy, Clone, Debug, PartialEq, Eq, Structural)]
pub enum LengthPercentageAuto {
    /// An absolute length in abstract units.
    Length(Unit),
    /// A fraction of the context size (one whole unit is 100%).
    Percent(Unit),
    /// The dimension should be automatically computed.
    Auto,
}

impl LengthPercentageAuto {
    /// A zero-valued absolute length.
    pub fn zero() -> (r: Self)
        ensures
            r == LengthPercentageAuto::Length(Unit { repr: 0 }),
    {
        LengthPercentageAuto::Length(Unit::zero())
    }

    /// An absolute length.
    pub fn from_length(value: Unit) -> (r: Self)
        ensures
            r == LengthPercentageAuto::Length(value),
    {
        LengthPercentageAuto::Length(value)
    }

    /// A percentage of the context size.
    pub fn from_percent(percent: Unit) -> (r: Self)
        ensures
            r == LengthPercentageAuto::Percent(percent),
    {
        LengthPercentageAuto::Percent(percent)
    }

    /// The corresponding value without the automatic variant.
    pub fn from_length_percentage(input: LengthPercentage) -> (r: Self)
        ensures
            r == (match input {
                LengthPercentage::Length(v) => LengthPercentageAuto::Length(v),
                LengthPercentage::Percent(v) => LengthPercentageAuto::Percent(v),
            }),
    {
        match input {
            LengthPercentage::Length(v) => LengthPercentageAuto::Length(v),
            LengthPercentage::Percent(v) => LengthPercentageAuto::Percent(v),
        }
    }

    /// Resolve to a concrete value: a length resolves to itself, a
    /// percentage to the given fraction of the context, and the automatic
    /// variant to nothing.
    pub fn resolve_to_option(self, context: Unit) -> (r: Option<Unit>)
        ensures
            r == (match self {
                LengthPercentageAuto::Length(l) => Some(l),
                LengthPercentageAuto::Percent(p) => Some(
                    Unit { repr: spec_mul(context.repr as int, p.repr as int) as i64 },
                ),
                LengthPercentageAuto::Auto => None::<Unit>,
            }),
    {
        match self {
            LengthPercentageAuto::Length(l) => Some(l),
            LengthPercentageAuto::Percent(p) => Some(context.mul(p)),
            LengthPercentageAuto::Auto => None,
        }
    }

    /// Returns true for the automatic variant.
    pub fn is_auto(self) -> (r: bool)
        ensures
            r == (self is Auto),
    {
        match self {
            LengthPercentageAuto::Auto => true,
            _ => false,
        }
    }
}

/// A size dimension from a style: an absolute length, a percentage of the
/// parent, or automatic.
#[derive(Copy, Clone, Debug, PartialEq, Eq, Structural)]
pub enum Dimension {
    /// An absolute length in abstract units.
    Length(Unit),
    /// A fraction of the parent size (one whole unit is 100%).
    Percent(Unit),
    /// The dimension should be automatically computed.
    Auto,
}

impl Dimension {
    /// A zero-valued absolute length.
    pub fn zero() -> (r: Self)
        ensures
            r == Dimension::Length(Unit { repr: 0 }),
    {
        Dimension::Length(Unit::zero())
    }

    /// An absolute length.
    pub fn from_length(value: Unit) -> (r: Self)
        ensures
            r == Dimension::Length(value),
    {
        Dimension::Length(value)
    }

    /// A percentage of the parent size.
    pub fn from_percent(percent: Unit) -> (r: Self)
        ensures
            r == Dimension::Percent(percent),
    {
        Dimension::Percent(percent)
    }

    /// The corresponding dimension of a plain length or percentage.
    pub fn from_length_percentage(input: LengthPercentage) -> (r: Self)
        ensures
            r == (match input {
                LengthPercentage::Length(v) => Dimension::Length(v),
                LengthPercentage::Percent(v) => Dimension::Percent(v),
            }),
    {
        match input {
            LengthPercentage::Length(v) => Dimension::Length(v),
            LengthPercentage::Percent(v) => Dimension::Percent(v),
        }
    }

    /// The corresponding dimension, keeping the automatic variant.
    pub fn from_length_percentage_auto(input: LengthPercentageAuto) -> (r: Self)
        ensures
            r == (match input {
                LengthPercentageAuto::Length(v) => Dimension::Length(v),
                LengthPercentageAuto::Percent(v) => Dimension::Percent(v),
                LengthPercentageAuto::Auto => Dimension::Auto,
            }),
    {
        match input {
            LengthPercentageAuto::Length(v) => Dimension::Length(v),
            LengthPercentageAuto::Percent(v) => Dimension::Percent(v),
            LengthPercentageAuto::Auto => Dimension::Auto,
        }
    }

    /// Get the length value if this is the absolute-length variant.
    pub fn into_option(self) -> (r: Option<Unit>)
        ensures
            r == (match self {
                Dimension::Length(v) => Some(v),
                _ => None::<Unit>,
            }),
    {
        match self {
            Dimension::Length(v) => Some(v),
            _ => None,
        }
    }

    /// What resolving against an optional parent size yields: a length
    /// always, a percentage only against a known parent, automatic never.
    pub open spec fn spec_maybe_resolve(self, context: Option<Unit>) -> Option<Unit> {
        match self {
            Dimension::Length(l) => Some(l),
            Dimension::Percent(p) => match context {
                Some(c) => Some(Unit { repr: spec_mul(c.repr as int, p.repr as int) as i64 }),
                None => None,
            },
            Dimension::Auto => None,
        }
    }

    /// Resolve against an optional parent size.
    pub fn maybe_resolve(self, context: Option<Unit>) -> (r: Option<Unit>)
        ensures
            r == self.spec_maybe_resolve(context),
    {
        match self {
            Dimension::Length(l) => Some(l),
            Dimension::Percent(p) => match context {
                Some(c) => Some(c.mul(p)),
                None => None,
            },
            Dimension::Auto => None,
        }
    }
}

impl Size<Dimension> {
    /// A size whose dimensions are both automatic.
    pub fn auto() -> (r: Self)
        ensures
            r.width == Dimension::Auto,
            r.height == Dimension::Auto,
    {
        Size { width: Dimension::Auto, height: Dimension::Auto }
    }

    /// A size built from two absolute lengths.
    pub fn from_lengths(width: Unit, height: Unit) -> (r: Self)
        ensures
            r.width == Dimension::Length(width),
            r.height == Dimension::Length(height),
    {
        Size { width: Dimension::Length(width), height: Dimension::Length(height) }
    }

    /// A size built from two percentages.
    pub fn from_percent(width: Unit, height: Unit) -> (r: Self)
        ensures
            r.width == Dimension::Percent(width),
            r.height == Dimension::Percent(height),
    {
        Size { width: Dimension::Percent(width), height: Dimension::Percent(height) }
    }

    /// Value-level spec of resolving both dimensions against an optional
    /// parent size.
    pub open spec fn spec_maybe_resolve_size(self, context: Size<Option<Unit>>) -> Size<
        Option<Unit>,
    > {
        Size {
            width: self.width.spec_maybe_resolve(context.width),
            height: self.height.spec_maybe_resolve(context.height),
        }
    }

    /// Resolve both dimensions against an optional parent size.
    pub fn maybe_resolve(self, context: Size<Option<Unit>>) -> (r: Size<Option<Unit>>)
        ensures
            r.width == self.width.spec_maybe_resolve(context.width),
            r.height == self.height.spec_maybe_resolve(context.height),
    {
        Size {
            width: self.width.maybe_resolve(context.width),
            height: self.height.maybe_resolve(context.height),
        }
    }
}

impl Rect<LengthPercentage> {
    /// A rectangle of zero-valued absolute lengths.
    pub fn zero() -> (r: Self)
        ensures
            r.left == LengthPercentage::Length(Unit { repr: 0 }),
            r.right == LengthPercentage::Length(Unit { repr: 0 }),
            r.top == LengthPercentage::Length(Unit { repr: 0 }),
            r.bottom == LengthPercentage::Length(Unit { repr: 0 }),
    {
        Rect {
            left: LengthPercentage::Length(Unit::zero()),
            right: LengthPercentage::Length(Unit::zero()),
            top: LengthPercentage::Length(Unit::zero()),
            bottom: LengthPercentage::Length(Unit::zero()),
        }
    }

    /// Value-level spec of resolving all four edges against one optional
    /// context size, unresolvable percentages becoming zero.
    pub open spec fn spec_resolve_or_zero(self, context: Option<Unit>) -> Rect<Unit> {
        Rect {
            left: match self.left.spec_maybe_resolve(context) {
                Some(v) => v,
                None => Unit { repr: 0 },
            },
            right: match self.right.spec_maybe_resolve(context) {
                Some(v) => v,
                None => Unit { repr: 0 },
            },
            top: match self.top.spec_maybe_resolve(context) {
                Some(v) => v,
                None => Unit { repr: 0 },
            },
            bottom: match self.bottom.spec_maybe_resolve(context) {
                Some(v) => v,
                None => Unit { repr: 0 },
            },
        }
    }

    /// Resolve all four edges against one optional context size, treating
    /// unresolvable percentages as zero. Both the horizontal and the
    /// vertical edges resolve against the container's inline size, which is
    /// how CSS specifies percentage padding and borders.
    pub fn resolve_or_zero(self, context: Option<Unit>) -> (r: Rect<Unit>)
        ensures
            r.left == (match self.left.spec_maybe_resolve(context) {
                Some(v) => v,
                None => Unit { repr: 0 },
            }),
            r.right == (match self.right.spec_maybe_resolve(context) {
                Some(v) => v,
                None => Unit { repr: 0 },
            }),
            r.top == (match self.top.spec_maybe_resolve(context) {
                Some(v) => v,
                None => Unit { repr: 0 },
            }),
            r.bottom == (match self.bottom.spec_maybe_resolve(context) {
                Some(v) => v,
                None => Unit { repr: 0 },
            }),
    {
        Rect {
            left: self.left.resolve_or_zero(context),
            right: self.right.resolve_or_zero(context),
            top: self.top.resolve_or_zero(context),
            bottom: self.bottom.resolve_or_zero(context),
        }
    }
}

impl Rect<Dimension> {
    /// A rectangle whose four edges are absolute lengths.
    pub fn from_length(start: Unit, end: Unit, top: Unit, bottom: Unit) -> (r: Self)
        ensures
            r.left == Dimension::Length(start),
            r.right == Dimension::Length(end),
            r.top == Dimension::Length(top),
            r.bottom == Dimension::Length(bottom),
    {
        Rect {
            left: Dimension::Length(start),
            right: Dimension::Length(end),
            top: Dimension::Length(top),
            bottom: Dimension::Length(bottom),
        }
    }

    /// A rectangle whose four edges are percentages.
    pub fn from_percent(start: Unit, end: Unit, top: Unit, bottom: Unit) -> (r: Self)
        ensures
            r.left == Dimension::Percent(start),
            r.right == Dimension::Percent(end),
            r.top == Dimension::Percent(top),
            r.bottom == Dimension::Percent(bottom),
    {
        Rect {
            left: Dimension::Percent(start),
            right: Dimension::Percent(end),
            top: Dimension::Percent(top),
            bottom: Dimension::Percent(bottom),
        }
    }
}

/// The amount of space available to a node in a given axis: a definite
/// amount, or one of the two intrinsic-measurement constraints.
#[derive(Copy, Clone, Debug, PartialEq, Eq, Structural)]
pub enum AvailableSpace {
    /// The amount of space available is the given definite number of units.
    Definite(Unit),
    /// Indefinite: lay out under a minimum-content constraint.
    MinContent,
    /// Indefinite: lay out under a maximum-content constraint.
    MaxContent,
}

impl AvailableSpace {
    /// Zero definite space.
    pub fn zero() -> (r: Self)
        ensures
            r == AvailableSpace::Definite(Unit { repr: 0 }),
    {
        AvailableSpace::Definite(Unit::zero())
    }

    /// Definite space of the given amount.
    pub fn from_length(value: Unit) -> (r: Self)
        ensures
            r == AvailableSpace::Definite(value),
    {
        AvailableSpace::Definite(value)
    }

    /// Definite space when an amount is known, else the maximum-content
    /// constraint.
    pub fn from_option(option: Option<Unit>) -> (r: Self)
        ensures
            r == (match option {
                Some(value) => AvailableSpace::Definite(value),
                None => AvailableSpace::MaxContent,
            }),
    {
        match option {
            Some(value) => AvailableSpace::Definite(value),
            None => AvailableSpace::MaxContent,
        }
    }

    /// Returns true for definite values, else false.
    pub fn is_definite(self) -> (r: bool)
        ensures
            r == (self is Definite),
    {
        match self {
            AvailableSpace::Definite(_) => true,
            _ => false,
        }
    }

    /// What converting to an optional amount yields.
    pub open spec fn spec_into_option(self) -> Option<Unit> {
        match self {
            AvailableSpace::Definite(value) => Some(value),
            _ => None,
        }
    }

    /// Definite values become a known amount; constraints become unknown.
    pub fn into_option(self) -> (r: Option<Unit>)
        ensures
            r == (match self {
                AvailableSpace::Definite(value) => Some(value),
                _ => None::<Unit>,
            }),
    {
        match self {
            AvailableSpace::Definite(value) => Some(value),
            _ => None,
        }
    }

    /// Return the definite value or a default value.
    pub fn unwrap_or(self, default: Unit) -> (r: Unit)
        ensures
            r == (match self {
                AvailableSpace::Definite(value) => value,
                _ => default,
            }),
    {
        match self {
            AvailableSpace::Definite(value) => value,
            _ => default,
        }
    }

    /// Return the definite value; only callable when the value is definite.
    pub fn unwrap(self) -> (r: Unit)
        requires
            self is Definite,
        ensures
            self == AvailableSpace::Definite(r),
    {
        match self {
            AvailableSpace::Definite(value) => value,
            _ => Unit::zero(),
        }
    }

    /// Return self if definite, else the default.
    pub fn or(self, default: AvailableSpace) -> (r: AvailableSpace)
        ensures
            r == (match self {
                AvailableSpace::Definite(_) => self,
                _ => default,
            }),
    {
        match self {
            AvailableSpace::Definite(_) => self,
            _ => default,
        }
    }

    /// Return self if definite, else the result of the callback.
    pub fn or_else<F: FnOnce() -> AvailableSpace>(self, default_cb: F) -> (r: AvailableSpace)
        requires
            !(self is Definite) ==> call_requires(default_cb, ()),
        ensures
            self is Definite ==> r == self,
            !(self is Definite) ==> call_ensures(default_cb, (), r),
    {
        match self {
            AvailableSpace::Definite(_) => self,
            _ => default_cb(),
        }
    }

    /// Return the definite value or the result of the callback.
    pub fn unwrap_or_else<F: FnOnce() -> Unit>(self, default_cb: F) -> (r: Unit)
        requires
            !(self is Definite) ==> call_requires(default_cb, ()),
        ensures
            self is Definite ==> self == AvailableSpace::Definite(r),
            !(self is Definite) ==> call_ensures(default_cb, (), r),
    {
        match self {
            AvailableSpace::Definite(value) => value,
            _ => default_cb(),
        }
    }

    /// Value-level spec of `maybe_set`.
    pub open spec fn spec_maybe_set(self, value: Option<Unit>) -> AvailableSpace {
        match value {
            Some(v) => AvailableSpace::Definite(v),
            None => self,
        }
    }

    /// If the passed value is known then return definite space of that
    /// amount, else return self.
    pub fn maybe_set(self, value: Option<Unit>) -> (r: AvailableSpace)
        ensures
            r == (match value {
                Some(v) => AvailableSpace::Definite(v),
                None => self,
            }),
    {
        match value {
            Some(v) => AvailableSpace::Definite(v),
            None => self,
        }
    }

    /// Apply the mapping function to a definite value; constraints pass
    /// through unchanged.
    pub fn map_definite_value<F: FnOnce(Unit) -> Unit>(self, map_function: F) -> (r:
        AvailableSpace)
        requires
            forall|v: Unit| self == AvailableSpace::Definite(v) ==> call_requires(
                map_function,
                (v,),
            ),
        ensures
            match self {
                AvailableSpace::Definite(v) => exists|m: Unit|
                    r == AvailableSpace::Definite(m) && call_ensures(map_function, (v,), m),
                _ => r == self,
            },
    {
        match self {
            AvailableSpace::Definite(value) => AvailableSpace::Definite(map_function(value)),
            _ => self,
        }
    }

    /// Compute free space given the passed used space: unbounded under a
    /// maximum-content constraint, zero under a minimum-content constraint,
    /// and the remainder of a definite amount.
    pub fn compute_free_space(&self, used_space: Unit) -> (r: Unit)
        ensures
            r.repr as int == (match *self {
                AvailableSpace::MaxContent => INF as int,
                AvailableSpace::MinContent => 0,
                AvailableSpace::Definite(available) => spec_sub(
                    available.repr as int,
                    used_space.repr as int,
                ),
            }),
    {
        match self {
            AvailableSpace::MaxContent => Unit::infinity(),
            AvailableSpace::MinContent => Unit::zero(),
            AvailableSpace::Definite(available) => available.sub(used_space),
        }
    }

    /// Whether two available-space values are equal, treating definite
    /// values within the smallest representable distance as equal.
    pub open spec fn spec_roughly_equal(self, other: AvailableSpace) -> bool {
        match (self, other) {
            (AvailableSpace::Definite(a), AvailableSpace::Definite(b)) => clamp_repr(
                abs_repr(spec_sub(a.repr as int, b.repr as int)),
            ) < 1,
            (AvailableSpace::MinContent, AvailableSpace::MinContent) => true,
            (AvailableSpace::MaxContent, AvailableSpace::MaxContent) => true,
            _ => false,
        }
    }

    /// Compare with another available space, treating definite values
    /// within the smallest representable distance of each other as equal.
    pub fn is_roughly_equal(self, other: AvailableSpace) -> (r: bool)
        ensures
            r == self.spec_roughly_equal(other),
    {
        match (self, other) {
            (AvailableSpace::Definite(a), AvailableSpace::Definite(b)) => a.sub(b).abs().lt(
                Unit::epsilon(),
            ),
            (AvailableSpace::MinContent, AvailableSpace::MinContent) => true,
            (AvailableSpace::MaxContent, AvailableSpace::MaxContent) => true,
            _ => false,
        }
    }
}

impl Size<AvailableSpace> {
    /// Available space that is the maximum-content constraint in both axes.
    pub fn max_content() -> (r: Self)
        ensures
            r.width == AvailableSpace::MaxContent,
            r.height == AvailableSpace::MaxContent,
    {
        Size { width: AvailableSpace::MaxContent, height: AvailableSpace::MaxContent }
    }

    /// Available space that is the minimum-content constraint in both axes.
    pub fn min_content() -> (r: Self)
        ensures
            r.width == AvailableSpace::MinContent,
            r.height == AvailableSpace::MinContent,
    {
        Size { width: AvailableSpace::MinContent, height: AvailableSpace::MinContent }
    }

    /// Convert availability per axis into an optional known amount per axis.
    pub fn into_options(self) -> (r: Size<Option<Unit>>)
        ensures
            r.width == (match self.width {
                AvailableSpace::Definite(value) => Some(value),
                _ => None::<Unit>,
            }),
            r.height == (match self.height {
                AvailableSpace::Definite(value) => Some(value),
                _ => None::<Unit>,
            }),
    {
        Size { width: self.width.into_option(), height: self.height.into_option() }
    }

    /// Replace each axis whose passed value is known by definite space of
    /// that amount.
    pub fn maybe_set(self, value: Size<Option<Unit>>) -> (r: Size<AvailableSpace>)
        ensures
            r.width == (match value.width {
                Some(v) => AvailableSpace::Definite(v),
                None => self.width,
            }),
            r.height == (match value.height {
                Some(v) => AvailableSpace::Definite(v),
                None => self.height,
            }),
    {
        Size { width: self.width.maybe_set(value.width), height: self.height.maybe_set(value.height) }
    }
}

/// The layout mode a node asks for.
#[derive(Copy, Clone, Debug, PartialEq, Eq, Structural)]
pub enum Display {
    /// Block layout: top-to-bottom stacking with margin collapsing.
    Block,
    /// Flexbox layout.
    Flex,
    /// CSS grid layout.
    Grid,
    /// The node and its whole subtree are hidden and take no space.
    Hidden,
}

/// How content overflowing a node's box is treated.
#[derive(Copy, Clone, Debug, PartialEq, Eq, Structural)]
pub enum Overflow {
    /// Content is not clipped and may paint outside the box.
    Visible,
    /// Content is clipped at the box edge.
    Hidden,
    /// Content is clipped and a scrollbar gutter is reserved.
    Scroll,
}

impl Overflow {
    /// Whether this overflow mode makes the node a scroll container.
    pub fn is_scroll_container(self) -> (r: bool)
        ensures
            r == (self is Hidden || self is Scroll),
    {
        match self {
            Overflow::Visible => false,
            Overflow::Hidden => true,
            Overflow::Scroll => true,
        }
    }
}

/// How a node is positioned.
#[derive(Copy, Clone, Debug, PartialEq, Eq, Structural)]
pub enum Position {
    /// Laid out in the normal flow, offsets relative to its normal spot.
    Relative,
    /// Taken out of the flow and positioned against its container.
    Absolute,
}

/// The main axis of a flexbox container.
#[derive(Copy, Clone, Debug, PartialEq, Eq, Structural)]
pub enum FlexDirection {
    /// Main axis is horizontal, items in text order.
    Row,
    /// Main axis is vertical, items top to bottom.
    Column,
    /// Main axis is horizontal, items in reverse order.
    RowReverse,
    /// Main axis is vertical, items bottom to top.
    ColumnReverse,
}

impl FlexDirection {
    /// Whether the main axis is the horizontal one.
    pub fn is_row(self) -> (r: bool)
        ensures
            r == (self is Row || self is RowReverse),
    {
        match self {
            FlexDirection::Row => true,
            FlexDirection::RowReverse => true,
            FlexDirection::Column => false,
            FlexDirection::ColumnReverse => false,
        }
    }
}

/// The minimum track sizing function of a grid track.
#[derive(Copy, Clone, Debug, PartialEq, Eq, Structural)]
pub enum MinTrackSizingFunction {
    /// A fixed length or percentage of the available grid space.
    Fixed(LengthPercentage),
    /// The track's minimum-content size.
    MinContent,
    /// The track's maximum-content size.
    MaxContent,
    /// Automatic: content-based, with extra growth freedom.
    Auto,
}

impl MinTrackSizingFunction {
    /// Whether the function sizes the track from its content.
    pub open spec fn is_intrinsic_spec(self) -> bool {
        self is MinContent || self is MaxContent || self is Auto
    }

    /// Whether the function sizes the track from its content.
    pub fn is_intrinsic(self) -> (r: bool)
        ensures
            r == self.is_intrinsic_spec(),
    {
        match self {
            MinTrackSizingFunction::Fixed(_) => false,
            _ => true,
        }
    }

    /// Whether the function holds a percentage.
    pub fn uses_percentage(self) -> (r: bool)
        ensures
            r == (self matches MinTrackSizingFunction::Fixed(LengthPercentage::Percent(_))),
    {
        match self {
            MinTrackSizingFunction::Fixed(LengthPercentage::Percent(_)) => true,
            _ => false,
        }
    }

    /// The definite size the function resolves to, if any: a fixed length
    /// always, a fixed percentage only of a known available space.
    pub open spec fn spec_definite_value(self, available: Option<Unit>) -> Option<Unit> {
        match self {
            MinTrackSizingFunction::Fixed(lp) => lp.spec_maybe_resolve(available),
            _ => None,
        }
    }

    /// Resolve the function to a definite size where it has one.
    pub fn definite_value(self, available: Option<Unit>) -> (r: Option<Unit>)
        ensures
            r == self.spec_definite_value(available),
    {
        match self {
            MinTrackSizingFunction::Fixed(lp) => lp.maybe_resolve(available),
            _ => None,
        }
    }
}

/// The maximum track sizing function of a grid track.
#[derive(Copy, Clone, Debug, PartialEq, Eq, Structural)]
pub enum MaxTrackSizingFunction {
    /// A fixed length or percentage of the available grid space.
    Fixed(LengthPercentage),
    /// The track's minimum-content size.
    MinContent,
    /// The track's maximum-content size.
    MaxContent,
    /// Content-based, clamped by the given limit.
    FitContent(LengthPercentage),
    /// Automatic: content-based, stretched by leftover space.
    Auto,
    /// A flexible track receiving the given share of leftover space.
    Fraction(Unit),
}

impl MaxTrackSizingFunction {
    /// Whether the function sizes the track from its content.
    pub open spec fn is_intrinsic_spec(self) -> bool {
        self is MinContent || self is MaxContent || self is FitContent || self is Auto
    }

    /// Whether the function sizes the track from its content.
    pub fn is_intrinsic(self) -> (r: bool)
        ensures
            r == self.is_intrinsic_spec(),
    {
        match self {
            MaxTrackSizingFunction::Fixed(_) => false,
            MaxTrackSizingFunction::Fraction(_) => false,
            _ => true,
        }
    }

    /// Whether the function holds a percentage.
    pub fn uses_percentage(self) -> (r: bool)
        ensures
            r == (self matches MaxTrackSizingFunction::Fixed(LengthPercentage::Percent(_))
                || self matches MaxTrackSizingFunction::FitContent(LengthPercentage::Percent(_))),
    {
        match self {
            MaxTrackSizingFunction::Fixed(LengthPercentage::Percent(_)) => true,
            MaxTrackSizingFunction::FitContent(LengthPercentage::Percent(_)) => true,
            _ => false,
        }
    }

    /// The definite size the function resolves to, if any.
    pub open spec fn spec_definite_value(self, available: Option<Unit>) -> Option<Unit> {
        match self {
            MaxTrackSizingFunction::Fixed(lp) => lp.spec_maybe_resolve(available),
            _ => None,
        }
    }

    /// Resolve the function to a definite size where it has one.
    pub fn definite_value(self, available: Option<Unit>) -> (r: Option<Unit>)
        ensures
            r == self.spec_definite_value(available),
    {
        match self {
            MaxTrackSizingFunction::Fixed(lp) => lp.maybe_resolve(available),
            _ => None,
        }
    }
}

/// The already-resolved style input of one node: everything the sizing
/// algorithms read. Style parsing and cascading belong to the host.
#[derive(Copy, Clone, Debug, PartialEq, Eq, Structural)]
pub struct Style {
    /// Which layout algorithm lays the node out.
    pub display: Display,
    /// How overflowing content is treated, per axis.
    pub overflow: Point<Overflow>,
    /// The width reserved for a scrollbar gutter.
    pub scrollbar_width: Unit,
    /// How the node is positioned.
    pub position: Position,
    /// The preferred size of the node.
    pub size: Size<Dimension>,
    /// The minimum size of the node.
    pub min_size: Size<Dimension>,
    /// The maximum size of the node.
    pub max_size: Size<Dimension>,
    /// The preferred width-to-height ratio, if any.
    pub aspect_ratio: Option<Unit>,
    /// Padding on each edge.
    pub padding: Rect<LengthPercentage>,
    /// Border width on each edge.
    pub border: Rect<LengthPercentage>,
}

impl Style {
    /// The style every field of which is at its default.
    pub open spec fn spec_default() -> Style {
        Style {
            display: Display::Flex,
            overflow: Point { x: Overflow::Visible, y: Overflow::Visible },
            scrollbar_width: Unit { repr: 0 },
            position: Position::Relative,
            size: Size { width: Dimension::Auto, height: Dimension::Auto },
            min_size: Size { width: Dimension::Auto, height: Dimension::Auto },
            max_size: Size { width: Dimension::Auto, height: Dimension::Auto },
            aspect_ratio: None,
            padding: Rect {
                left: LengthPercentage::Length(Unit { repr: 0 }),
                right: LengthPercentage::Length(Unit { repr: 0 }),
                top: LengthPercentage::Length(Unit { repr: 0 }),
                bottom: LengthPercentage::Length(Unit { repr: 0 }),
            },
            border: Rect {
                left: LengthPercentage::Length(Unit { repr: 0 }),
                right: LengthPercentage::Length(Unit { repr: 0 }),
                top: LengthPercentage::Length(Unit { repr: 0 }),
                bottom: LengthPercentage::Length(Unit { repr: 0 }),
            },
        }
    }
}

impl Default for Style {
    /// A flexbox node with automatic sizes, no padding, border or aspect
    /// ratio, visible overflow and relative position.
    fn default() -> (r: Style)
        ensures
            r == Style::spec_default(),
    {
        Style {
            display: Display::Flex,
            overflow: Point { x: Overflow::Visible, y: Overflow::Visible },
            scrollbar_width: Unit::zero(),
            position: Position::Relative,
            size: Size::auto(),
            min_size: Size::auto(),
            max_size: Size::auto(),
            aspect_ratio: None,
            padding: Rect::<LengthPercentage>::zero(),
            border: Rect::<LengthPercentage>::zero(),
        }
    }
}

} // verus!
