//! Geometric primitives useful for layout: generic two-dimensional
//! containers whose invariants are component-wise only, with no coupling
//! between the axes unless explicitly computed (aspect ratio).

use vstd::prelude::*;
use crate::unit::{Unit, spec_add, spec_sub, spec_mul, spec_div, max_repr};
use crate::style::FlexDirection;

verus! {

/// The simple absolute horizontal and vertical axis.
#[derive(Copy, Clone, Debug, PartialEq, Eq, Structural)]
pub enum AbsoluteAxis {
    /// The horizontal axis.
    Horizontal,
    /// The vertical axis.
    Vertical,
}

impl AbsoluteAxis {
    /// Returns the other variant of the enum.
    pub fn other_axis(&self) -> (r: Self)
        ensures
            r == (match *self {
                AbsoluteAxis::Horizontal => AbsoluteAxis::Vertical,
                AbsoluteAxis::Vertical => AbsoluteAxis::Horizontal,
            }),
    {
        match *self {
            AbsoluteAxis::Horizontal => AbsoluteAxis::Vertical,
            AbsoluteAxis::Vertical => AbsoluteAxis::Horizontal,
        }
    }
}

/// The CSS abstract axis: inline (horizontal in horizontal writing modes)
/// or block (vertical in horizontal writing modes).
#[derive(Copy, Clone, Debug, PartialEq, Eq, Structural)]
pub enum AbstractAxis {
    /// The axis in the inline dimension.
    Inline,
    /// The axis in the block dimension.
    Block,
}

impl AbstractAxis {
    /// Returns the other variant of the enum.
    pub fn other(&self) -> (r: AbstractAxis)
        ensures
            r == (match *self {
                AbstractAxis::Inline => AbstractAxis::Block,
                AbstractAxis::Block => AbstractAxis::Inline,
            }),
    {
        match *self {
            AbstractAxis::Inline => AbstractAxis::Block,
            AbstractAxis::Block => AbstractAxis::Inline,
        }
    }
}

/// Container that holds an item in each absolute axis without specifying
/// what kind of item it is.
#[derive(Copy, Clone, Debug, PartialEq, Eq)]
pub struct InBothAbsAxis<T> {
    /// The item in the horizontal axis.
    pub horizontal: T,
    /// The item in the vertical axis.
    pub vertical: T,
}

impl<T: Copy> InBothAbsAxis<T> {
    /// Get the contained item based on the axis passed.
    pub fn get(&self, axis: AbsoluteAxis) -> (r: T)
        ensures
            r == (match axis {
                AbsoluteAxis::Horizontal => self.horizontal,
                AbsoluteAxis::Vertical => self.vertical,
            }),
    {
        match axis {
            AbsoluteAxis::Horizontal => self.horizontal,
            AbsoluteAxis::Vertical => self.vertical,
        }
    }
}

/// An axis-aligned UI rectangle: a value for each of the four edges.
#[derive(Copy, Clone, Debug, PartialEq, Eq, Default, Structural)]
pub struct Rect<T> {
    /// The starting (left in left-to-right text) edge or padding amount.
    pub left: T,
    /// The ending (right in left-to-right text) edge or padding amount.
    pub right: T,
    /// The top edge or padding amount.
    pub top: T,
    /// The bottom edge or padding amount.
    pub bottom: T,
}

/// An abstract line: any type that has a start and an end.
#[derive(Copy, Clone, Debug, PartialEq, Eq, Structural)]
pub struct Line<T> {
    /// The start position of a line.
    pub start: T,
    /// The end position of a line.
    pub end: T,
}

/// The width and height of a box.
#[derive(Copy, Clone, Debug, PartialEq, Eq, Default, Structural)]
pub struct Size<T> {
    /// The horizontal extent.
    pub width: T,
    /// The vertical extent.
    pub height: T,
}

/// A two-dimensional coordinate; used with a `Rect` it is the top-left corner.
#[derive(Copy, Clone, Debug, PartialEq, Eq, Default, Structural)]
pub struct Point<T> {
    /// The x-coordinate.
    pub x: T,
    /// The y-coordinate.
    pub y: T,
}

/// Generic struct which holds a "min" value and a "max" value.
#[derive(Copy, Clone, Debug, PartialEq, Eq)]
pub struct MinMax<Min, Max> {
    /// The value representing the minimum.
    pub min: Min,
    /// The value representing the maximum.
    pub max: Max,
}

impl<T> Size<T> {
    /// Get either the width or height depending on the absolute axis passed in.
    pub fn get_abs(self, axis: AbsoluteAxis) -> (r: T)
        ensures
            r == (match axis {
                AbsoluteAxis::Horizontal => self.width,
                AbsoluteAxis::Vertical => self.height,
            }),
    {
        match axis {
            AbsoluteAxis::Horizontal => self.width,
            AbsoluteAxis::Vertical => self.height,
        }
    }

    /// Applies the function `f` to both the width and height, transforming
    /// a `Size<T>` into a `Size<R>`.
    pub fn map<R, F: Fn(T) -> R>(self, f: F) -> (r: Size<R>)
        requires
            call_requires(f, (self.width,)),
            call_requires(f, (self.height,)),
        ensures
            call_ensures(f, (self.width,), r.width),
            call_ensures(f, (self.height,), r.height),
    {
        let width = f(self.width);
        let height = f(self.height);
        Size { width, height }
    }

    /// Applies the function `f` to the width.
    pub fn map_width<F: Fn(T) -> T>(self, f: F) -> (r: Size<T>)
        requires
            call_requires(f, (self.width,)),
        ensures
            call_ensures(f, (self.width,), r.width),
            r.height == self.height,
    {
        let width = f(self.width);
        Size { width, height: self.height }
    }

    /// Applies the function `f` to the height.
    pub fn map_height<F: Fn(T) -> T>(self, f: F) -> (r: Size<T>)
        requires
            call_requires(f, (self.height,)),
        ensures
            r.width == self.width,
            call_ensures(f, (self.height,), r.height),
    {
        let height = f(self.height);
        Size { width: self.width, height }
    }

    /// Applies the function `f` component-wise to this value and another.
    pub fn zip_map<Other, Ret, Func: Fn(T, Other) -> Ret>(self, other: Size<Other>, f: Func) -> (r:
        Size<Ret>)
        requires
            call_requires(f, (self.width, other.width)),
            call_requires(f, (self.height, other.height)),
        ensures
            call_ensures(f, (self.width, other.width), r.width),
            call_ensures(f, (self.height, other.height), r.height),
    {
        let width = f(self.width, other.width);
        let height = f(self.height, other.height);
        Size { width, height }
    }

    /// Sets the extent of the main layout axis, depending on the direction.
    pub fn set_main(&mut self, direction: FlexDirection, value: T)
        ensures
            *final(self) == if direction is Row || direction is RowReverse {
                Size { width: value, height: old(self).height }
            } else {
                Size { width: old(self).width, height: value }
            },
    {
        if direction.is_row() {
            self.width = value
        } else {
            self.height = value
        }
    }

    /// Sets the extent of the cross layout axis, depending on the direction.
    pub fn set_cross(&mut self, direction: FlexDirection, value: T)
        ensures
            *final(self) == if direction is Row || direction is RowReverse {
                Size { width: old(self).width, height: value }
            } else {
                Size { width: value, height: old(self).height }
            },
    {
        if direction.is_row() {
            self.height = value
        } else {
            self.width = value
        }
    }

    /// A copy of this size with the main axis set to the value provided.
    pub fn with_main(self, direction: FlexDirection, value: T) -> (r: Self)
        ensures
            r == if direction is Row || direction is RowReverse {
                Size { width: value, height: self.height }
            } else {
                Size { width: self.width, height: value }
            },
    {
        let mut new = self;
        if direction.is_row() {
            new.width = value
        } else {
            new.height = value
        }
        new
    }

    /// A copy of this size with the cross axis set to the value provided.
    pub fn with_cross(self, direction: FlexDirection, value: T) -> (r: Self)
        ensures
            r == if direction is Row || direction is RowReverse {
                Size { width: self.width, height: value }
            } else {
                Size { width: value, height: self.height }
            },
    {
        let mut new = self;
        if direction.is_row() {
            new.height = value
        } else {
            new.width = value
        }
        new
    }

    /// A copy of this size with the main axis modified by the callback.
    pub fn map_main<F: FnOnce(T) -> T>(self, direction: FlexDirection, mapper: F) -> (r: Self)
        requires
            (direction is Row || direction is RowReverse) ==> call_requires(
                mapper,
                (self.width,),
            ),
            !(direction is Row || direction is RowReverse) ==> call_requires(
                mapper,
                (self.height,),
            ),
        ensures
            direction is Row || direction is RowReverse ==> call_ensures(
                mapper,
                (self.width,),
                r.width,
            ) && r.height == self.height,
            !(direction is Row || direction is RowReverse) ==> call_ensures(
                mapper,
                (self.height,),
                r.height,
            ) && r.width == self.width,
    {
        let mut new = self;
        if direction.is_row() {
            new.width = mapper(new.width);
        } else {
            new.height = mapper(new.height);
        }
        new
    }

    /// A copy of this size with the cross axis modified by the callback.
    pub fn map_cross<F: FnOnce(T) -> T>(self, direction: FlexDirection, mapper: F) -> (r: Self)
        requires
            (direction is Row || direction is RowReverse) ==> call_requires(
                mapper,
                (self.height,),
            ),
            !(direction is Row || direction is RowReverse) ==> call_requires(
                mapper,
                (self.width,),
            ),
        ensures
            direction is Row || direction is RowReverse ==> call_ensures(
                mapper,
                (self.height,),
                r.height,
            ) && r.width == self.width,
            !(direction is Row || direction is RowReverse) ==> call_ensures(
                mapper,
                (self.width,),
                r.width,
            ) && r.height == self.height,
    {
        let mut new = self;
        if direction.is_row() {
            new.height = mapper(new.height);
        } else {
            new.width = mapper(new.width);
        }
        new
    }

    /// Gets the extent of the main layout axis, depending on the direction.
    pub fn main(self, direction: FlexDirection) -> (r: T)
        ensures
            r == if direction is Row || direction is RowReverse {
                self.width
            } else {
                self.height
            },
    {
        if direction.is_row() {
            self.width
        } else {
            self.height
        }
    }

    /// Gets the extent of the cross layout axis, depending on the direction.
    pub fn cross(self, direction: FlexDirection) -> (r: T)
        ensures
            r == if direction is Row || direction is RowReverse {
                self.height
            } else {
                self.width
            },
    {
        if direction.is_row() {
            self.height
        } else {
            self.width
        }
    }

    /// Gets the extent of the specified abstract layout axis.
    pub fn get(self, axis: AbstractAxis) -> (r: T)
        ensures
            r == (match axis {
                AbstractAxis::Inline => self.width,
                AbstractAxis::Block => self.height,
            }),
    {
        match axis {
            AbstractAxis::Inline => self.width,
            AbstractAxis::Block => self.height,
        }
    }

    /// Sets the extent of the specified abstract layout axis.
    pub fn set(&mut self, axis: AbstractAxis, value: T)
        ensures
            *final(self) == (match axis {
                AbstractAxis::Inline => Size { width: value, height: old(self).height },
                AbstractAxis::Block => Size { width: old(self).width, height: value },
            }),
    {
        match axis {
            AbstractAxis::Inline => self.width = value,
            AbstractAxis::Block => self.height = value,
        }
    }
}

impl Size<Unit> {
    /// Value-level spec of component-wise saturating addition.
    pub open spec fn spec_plus(self, rhs: Size<Unit>) -> Size<Unit> {
        Size { width: self.width.spec_plus(rhs.width), height: self.height.spec_plus(rhs.height) }
    }

    /// Value-level spec of component-wise clamping between optional bounds.
    pub open spec fn spec_maybe_clamp(self, min: Size<Option<Unit>>, max: Size<Option<Unit>>) -> Size<
        Unit,
    > {
        Size {
            width: self.width.spec_maybe_clamp(min.width, max.width),
            height: self.height.spec_maybe_clamp(min.height, max.height),
        }
    }

    /// Value-level spec of the component-wise maximum with optional bounds.
    pub open spec fn spec_maybe_max(self, rhs: Size<Option<Unit>>) -> Size<Unit> {
        Size {
            width: self.width.spec_maybe_max(rhs.width),
            height: self.height.spec_maybe_max(rhs.height),
        }
    }

    /// A size with zero width and height.
    pub fn zero() -> (r: Self)
        ensures
            r.width.repr == 0,
            r.height.repr == 0,
    {
        Size { width: Unit::zero(), height: Unit::zero() }
    }

    /// Component-wise saturating addition.
    pub fn add(self, rhs: Size<Unit>) -> (r: Size<Unit>)
        ensures
            r == self.spec_plus(rhs),
    {
        Size { width: self.width.add(rhs.width), height: self.height.add(rhs.height) }
    }

    /// Component-wise saturating subtraction.
    pub fn sub(self, rhs: Size<Unit>) -> (r: Size<Unit>)
        ensures
            r.width.repr as int == spec_sub(self.width.repr as int, rhs.width.repr as int),
            r.height.repr as int == spec_sub(self.height.repr as int, rhs.height.repr as int),
    {
        Size { width: self.width.sub(rhs.width), height: self.height.sub(rhs.height) }
    }

    /// Component-wise clamping between optional bounds.
    pub fn maybe_clamp(self, min: Size<Option<Unit>>, max: Size<Option<Unit>>) -> (r: Size<Unit>)
        ensures
            r.width == self.width.spec_maybe_clamp(min.width, max.width),
            r.height == self.height.spec_maybe_clamp(min.height, max.height),
    {
        Size {
            width: self.width.maybe_clamp(min.width, max.width),
            height: self.height.maybe_clamp(min.height, max.height),
        }
    }

    /// Component-wise maximum with optional bounds.
    pub fn maybe_max(self, rhs: Size<Option<Unit>>) -> (r: Size<Unit>)
        ensures
            r.width == self.width.spec_maybe_max(rhs.width),
            r.height == self.height.spec_maybe_max(rhs.height),
    {
        Size { width: self.width.maybe_max(rhs.width), height: self.height.maybe_max(rhs.height) }
    }

    /// Component-wise maximum.
    pub fn max(self, rhs: Size<Unit>) -> (r: Size<Unit>)
        ensures
            r.width.repr as int == max_repr(self.width.repr as int, rhs.width.repr as int),
            r.height.repr as int == max_repr(self.height.repr as int, rhs.height.repr as int),
    {
        Size { width: self.width.max(rhs.width), height: self.height.max(rhs.height) }
    }
}

impl Size<Option<Unit>> {
    /// A size with both components unknown.
    pub fn none() -> (r: Self)
        ensures
            r.width is None,
            r.height is None,
    {
        Size { width: None, height: None }
    }

    /// A size with both components known.
    pub fn new(width: Unit, height: Unit) -> (r: Self)
        ensures
            r.width == Some(width),
            r.height == Some(height),
    {
        Size { width: Some(width), height: Some(height) }
    }

    /// What applying an aspect ratio fills in: a known width determines the
    /// height (width divided by ratio) and a known height determines the
    /// width (height times ratio); with no ratio or nothing to fill in, the
    /// size is unchanged.
    pub open spec fn spec_apply_aspect_ratio(self, aspect_ratio: Option<Unit>) -> Size<
        Option<Unit>,
    > {
        match aspect_ratio {
            Some(ratio) => match (self.width, self.height) {
                (Some(width), None) => Size {
                    width: Some(width),
                    height: Some(Unit { repr: spec_div(width.repr as int, ratio.repr as int) as i64 }),
                },
                (None, Some(height)) => Size {
                    width: Some(Unit { repr: spec_mul(height.repr as int, ratio.repr as int) as i64 }),
                    height: Some(height),
                },
                _ => self,
            },
            None => self,
        }
    }

    /// Applies an aspect ratio (if one is supplied) to fill a missing axis
    /// from the one that is known.
    pub fn maybe_apply_aspect_ratio(self, aspect_ratio: Option<Unit>) -> (r: Size<Option<Unit>>)
        ensures
            r == self.spec_apply_aspect_ratio(aspect_ratio),
    {
        match aspect_ratio {
            Some(ratio) => match (self.width, self.height) {
                (Some(width), None) => Size { width: Some(width), height: Some(width.div(ratio)) },
                (None, Some(height)) => Size { width: Some(height.mul(ratio)), height: Some(height) },
                _ => self,
            },
            None => self,
        }
    }
}

impl<T> Size<Option<T>> {
    /// Value-level spec of `unwrap_or`: each unknown component falls back.
    pub open spec fn spec_unwrap_or(self, alt: Size<T>) -> Size<T> {
        Size {
            width: match self.width {
                Some(w) => w,
                None => alt.width,
            },
            height: match self.height {
                Some(h) => h,
                None => alt.height,
            },
        }
    }

    /// Value-level spec of `or`: each unknown component falls back.
    pub open spec fn spec_or(self, alt: Size<Option<T>>) -> Size<Option<T>> {
        Size {
            width: match self.width {
                Some(w) => Some(w),
                None => alt.width,
            },
            height: match self.height {
                Some(h) => Some(h),
                None => alt.height,
            },
        }
    }

    /// Performs `Option::unwrap_or` on each component separately.
    pub fn unwrap_or(self, alt: Size<T>) -> (r: Size<T>)
        ensures
            r.width == (match self.width {
                Some(w) => w,
                None => alt.width,
            }),
            r.height == (match self.height {
                Some(h) => h,
                None => alt.height,
            }),
    {
        let width = match self.width {
            Some(w) => w,
            None => alt.width,
        };
        let height = match self.height {
            Some(h) => h,
            None => alt.height,
        };
        Size { width, height }
    }

    /// Performs `Option::or` on each component separately.
    pub fn or(self, alt: Size<Option<T>>) -> (r: Size<Option<T>>)
        ensures
            r.width == (match self.width {
                Some(w) => Some(w),
                None => alt.width,
            }),
            r.height == (match self.height {
                Some(h) => Some(h),
                None => alt.height,
            }),
    {
        let width = match self.width {
            Some(w) => Some(w),
            None => alt.width,
        };
        let height = match self.height {
            Some(h) => Some(h),
            None => alt.height,
        };
        Size { width, height }
    }

    /// Return true if both components are known, else false.
    pub fn both_axis_defined(&self) -> (r: bool)
        ensures
            r == (self.width is Some && self.height is Some),
    {
        self.width.is_some() && self.height.is_some()
    }
}

impl Rect<Unit> {
    /// Value-level spec of component-wise saturating addition.
    pub open spec fn spec_plus(self, rhs: Rect<Unit>) -> Rect<Unit> {
        Rect {
            left: self.left.spec_plus(rhs.left),
            right: self.right.spec_plus(rhs.right),
            top: self.top.spec_plus(rhs.top),
            bottom: self.bottom.spec_plus(rhs.bottom),
        }
    }

    /// Value-level spec of the left-plus-right sum.
    pub open spec fn spec_horizontal_axis_sum(self) -> Unit {
        self.left.spec_plus(self.right)
    }

    /// Value-level spec of the top-plus-bottom sum.
    pub open spec fn spec_vertical_axis_sum(self) -> Unit {
        self.top.spec_plus(self.bottom)
    }

    /// Value-level spec of both axis sums as a size.
    pub open spec fn spec_sum_axes(self) -> Size<Unit> {
        Size { width: self.spec_horizontal_axis_sum(), height: self.spec_vertical_axis_sum() }
    }

    /// A rectangle with all four edge values zero.
    pub fn zero() -> (r: Self)
        ensures
            r.left.repr == 0,
            r.right.repr == 0,
            r.top.repr == 0,
            r.bottom.repr == 0,
    {
        Rect { left: Unit::zero(), right: Unit::zero(), top: Unit::zero(), bottom: Unit::zero() }
    }

    /// Creates a new rectangle from the start, end, top and bottom values.
    pub fn new(start: Unit, end: Unit, top: Unit, bottom: Unit) -> (r: Self)
        ensures
            r == (Rect { left: start, right: end, top, bottom }),
    {
        Rect { left: start, right: end, top, bottom }
    }

    /// Component-wise saturating addition.
    pub fn add(self, rhs: Rect<Unit>) -> (r: Rect<Unit>)
        ensures
            r == self.spec_plus(rhs),
    {
        Rect {
            left: self.left.add(rhs.left),
            right: self.right.add(rhs.right),
            top: self.top.add(rhs.top),
            bottom: self.bottom.add(rhs.bottom),
        }
    }

    /// The sum of the two edge values on the given absolute axis.
    pub fn grid_axis_sum(self, axis: AbsoluteAxis) -> (r: Unit)
        ensures
            r.repr as int == (match axis {
                AbsoluteAxis::Horizontal => spec_add(self.left.repr as int, self.right.repr as int),
                AbsoluteAxis::Vertical => spec_add(self.top.repr as int, self.bottom.repr as int),
            }),
    {
        match axis {
            AbsoluteAxis::Horizontal => self.left.add(self.right),
            AbsoluteAxis::Vertical => self.top.add(self.bottom),
        }
    }

    /// The sum of the left and right values (typically total horizontal
    /// padding); this is not the width of the rectangle.
    pub fn horizontal_axis_sum(&self) -> (r: Unit)
        ensures
            r == self.spec_horizontal_axis_sum(),
    {
        self.left.add(self.right)
    }

    /// The sum of the top and bottom values (typically total vertical
    /// padding); this is not the height of the rectangle.
    pub fn vertical_axis_sum(&self) -> (r: Unit)
        ensures
            r == self.spec_vertical_axis_sum(),
    {
        self.top.add(self.bottom)
    }

    /// Both axis sums as a size; not the width/height of the rectangle.
    pub fn sum_axes(&self) -> (r: Size<Unit>)
        ensures
            r == self.spec_sum_axes(),
    {
        Size { width: self.horizontal_axis_sum(), height: self.vertical_axis_sum() }
    }

    /// The sum of the two edge values on the main axis of the direction.
    pub fn main_axis_sum(&self, direction: FlexDirection) -> (r: Unit)
        ensures
            r.repr as int == if direction is Row || direction is RowReverse {
                spec_add(self.left.repr as int, self.right.repr as int)
            } else {
                spec_add(self.top.repr as int, self.bottom.repr as int)
            },
    {
        if direction.is_row() {
            self.horizontal_axis_sum()
        } else {
            self.vertical_axis_sum()
        }
    }

    /// The sum of the two edge values on the cross axis of the direction.
    pub fn cross_axis_sum(&self, direction: FlexDirection) -> (r: Unit)
        ensures
            r.repr as int == if direction is Row || direction is RowReverse {
                spec_add(self.top.repr as int, self.bottom.repr as int)
            } else {
                spec_add(self.left.repr as int, self.right.repr as int)
            },
    {
        if direction.is_row() {
            self.vertical_axis_sum()
        } else {
            self.horizontal_axis_sum()
        }
    }

    /// The start edge value from the perspective of the main layout axis.
    pub fn main_start(&self, direction: FlexDirection) -> (r: Unit)
        ensures
            r == if direction is Row || direction is RowReverse {
                self.left
            } else {
                self.top
            },
    {
        if direction.is_row() {
            self.left
        } else {
            self.top
        }
    }

    /// The end edge value from the perspective of the main layout axis.
    pub fn main_end(&self, direction: FlexDirection) -> (r: Unit)
        ensures
            r == if direction is Row || direction is RowReverse {
                self.right
            } else {
                self.bottom
            },
    {
        if direction.is_row() {
            self.right
        } else {
            self.bottom
        }
    }

    /// The start edge value from the perspective of the cross layout axis.
    pub fn cross_start(&self, direction: FlexDirection) -> (r: Unit)
        ensures
            r == if direction is Row || direction is RowReverse {
                self.top
            } else {
                self.left
            },
    {
        if direction.is_row() {
            self.top
        } else {
            self.left
        }
    }

    /// The end edge value from the perspective of the cross layout axis.
    pub fn cross_end(&self, direction: FlexDirection) -> (r: Unit)
        ensures
            r == if direction is Row || direction is RowReverse {
                self.bottom
            } else {
                self.right
            },
    {
        if direction.is_row() {
            self.bottom
        } else {
            self.right
        }
    }
}

impl<T> Rect<T> {
    /// Applies the function `f` to all four sides of the rect; the left and
    /// right sides receive the width, the top and bottom sides the height.
    pub fn zip_size<R, U: Copy, F: Fn(T, U) -> R>(self, size: Size<U>, f: F) -> (r: Rect<R>)
        requires
            call_requires(f, (self.left, size.width)),
            call_requires(f, (self.right, size.width)),
            call_requires(f, (self.top, size.height)),
            call_requires(f, (self.bottom, size.height)),
        ensures
            call_ensures(f, (self.left, size.width), r.left),
            call_ensures(f, (self.right, size.width), r.right),
            call_ensures(f, (self.top, size.height), r.top),
            call_ensures(f, (self.bottom, size.height), r.bottom),
    {
        let left = f(self.left, size.width);
        let right = f(self.right, size.width);
        let top = f(self.top, size.height);
        let bottom = f(self.bottom, size.height);
        Rect { left, right, top, bottom }
    }

    /// Applies the function `f` to the left, right, top, and bottom
    /// properties, transforming a `Rect<T>` into a `Rect<R>`.
    pub fn map<R, F: Fn(T) -> R>(self, f: F) -> (r: Rect<R>)
        requires
            call_requires(f, (self.left,)),
            call_requires(f, (self.right,)),
            call_requires(f, (self.top,)),
            call_requires(f, (self.bottom,)),
        ensures
            call_ensures(f, (self.left,), r.left),
            call_ensures(f, (self.right,), r.right),
            call_ensures(f, (self.top,), r.top),
            call_ensures(f, (self.bottom,), r.bottom),
    {
        let left = f(self.left);
        let right = f(self.right);
        let top = f(self.top);
        let bottom = f(self.bottom);
        Rect { left, right, top, bottom }
    }

    /// The left and right properties of the rect as a line.
    pub fn horizontal_components(self) -> (r: Line<T>)
        ensures
            r.start == self.left,
            r.end == self.right,
    {
        Line { start: self.left, end: self.right }
    }

    /// The top and bottom properties of the rect as a line.
    pub fn vertical_components(self) -> (r: Line<T>)
        ensures
            r.start == self.top,
            r.end == self.bottom,
    {
        Line { start: self.top, end: self.bottom }
    }
}

impl<T> Line<T> {
    /// Applies the function `f` to both the start and the end, transforming
    /// a `Line<T>` into a `Line<R>`.
    pub fn map<R, F: Fn(T) -> R>(self, f: F) -> (r: Line<R>)
        requires
            call_requires(f, (self.start,)),
            call_requires(f, (self.end,)),
        ensures
            call_ensures(f, (self.start,), r.start),
            call_ensures(f, (self.end,), r.end),
    {
        let start = f(self.start);
        let end = f(self.end);
        Line { start, end }
    }
}

impl Line<Unit> {
    /// A line with both the start and end values zero.
    pub fn zero() -> (r: Self)
        ensures
            r.start.repr == 0,
            r.end.repr == 0,
    {
        Line { start: Unit::zero(), end: Unit::zero() }
    }

    /// Adds the start and end values together and returns the result.
    pub fn sum(&self) -> (r: Unit)
        ensures
            r.repr as int == spec_add(self.start.repr as int, self.end.repr as int),
    {
        self.start.add(self.end)
    }
}

impl Line<bool> {
    /// A line with both start and end set to true.
    pub fn both_true() -> (r: Self)
        ensures
            r.start,
            r.end,
    {
        Line { start: true, end: true }
    }

    /// A line with both start and end set to false.
    pub fn both_false() -> (r: Self)
        ensures
            !r.start,
            !r.end,
    {
        Line { start: false, end: false }
    }
}

impl<T> Point<T> {
    /// Applies the function `f` to both the x and y coordinate,
    /// transforming a `Point<T>` into a `Point<R>`.
    pub fn map<R, F: Fn(T) -> R>(self, f: F) -> (r: Point<R>)
        requires
            call_requires(f, (self.x,)),
            call_requires(f, (self.y,)),
        ensures
            call_ensures(f, (self.x,), r.x),
            call_ensures(f, (self.y,), r.y),
    {
        let x = f(self.x);
        let y = f(self.y);
        Point { x, y }
    }

    /// Gets the coordinate on the specified abstract layout axis.
    pub fn get(self, axis: AbstractAxis) -> (r: T)
        ensures
            r == (match axis {
                AbstractAxis::Inline => self.x,
                AbstractAxis::Block => self.y,
            }),
    {
        match axis {
            AbstractAxis::Inline => self.x,
            AbstractAxis::Block => self.y,
        }
    }

    /// Swap the x and y components.
    pub fn transpose(self) -> (r: Point<T>)
        ensures
            r.x == self.y,
            r.y == self.x,
    {
        Point { x: self.y, y: self.x }
    }

    /// Sets the coordinate on the specified abstract layout axis.
    pub fn set(&mut self, axis: AbstractAxis, value: T)
        ensures
            *final(self) == (match axis {
                AbstractAxis::Inline => Point { x: value, y: old(self).y },
                AbstractAxis::Block => Point { x: old(self).x, y: value },
            }),
    {
        match axis {
            AbstractAxis::Inline => self.x = value,
            AbstractAxis::Block => self.y = value,
        }
    }

    /// Gets the coordinate in the main layout axis of the direction.
    pub fn main(self, direction: FlexDirection) -> (r: T)
        ensures
            r == if direction is Row || direction is RowReverse {
                self.x
            } else {
                self.y
            },
    {
        if direction.is_row() {
            self.x
        } else {
            self.y
        }
    }

    /// Gets the coordinate in the cross layout axis of the direction.
    pub fn cross(self, direction: FlexDirection) -> (r: T)
        ensures
            r == if direction is Row || direction is RowReverse {
                self.y
            } else {
                self.x
            },
    {
        if direction.is_row() {
            self.y
        } else {
            self.x
        }
    }
}

impl Point<Unit> {
    /// The origin.
    pub fn zero() -> (r: Self)
        ensures
            r.x.repr == 0,
            r.y.repr == 0,
    {
        Point { x: Unit::zero(), y: Unit::zero() }
    }

    /// Component-wise saturating addition.
    pub fn add(self, rhs: Point<Unit>) -> (r: Point<Unit>)
        ensures
            r.x.repr as int == spec_add(self.x.repr as int, rhs.x.repr as int),
            r.y.repr as int == spec_add(self.y.repr as int, rhs.y.repr as int),
    {
        Point { x: self.x.add(rhs.x), y: self.y.add(rhs.y) }
    }
}

impl Point<Option<Unit>> {
    /// A point with both coordinates unknown.
    pub fn none() -> (r: Self)
        ensures
            r.x is None,
            r.y is None,
    {
        Point { x: None, y: None }
    }
}

impl<T> Size<T> {
    /// The point's x as width and y as height.
    pub fn from_point(value: Point<T>) -> (r: Self)
        ensures
            r.width == value.x,
            r.height == value.y,
    {
        Size { width: value.x, height: value.y }
    }
}

} // verus!
