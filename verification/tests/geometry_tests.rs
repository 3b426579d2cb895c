//! Tests of the generic geometry containers and the remaining style
//! helpers.

use boxlayout::unit::Unit;
use boxlayout::geometry::{
    AbsoluteAxis, AbstractAxis, InBothAbsAxis, Line, MinMax, Point, Rect, Size,
};
use boxlayout::style::{
    AvailableSpace, Dimension, FlexDirection, LengthPercentage, LengthPercentageAuto, Overflow,
};

fn u(v: i64) -> Unit {
    Unit::from_int(v)
}

#[test]
fn size_maps_apply_the_function_per_component() {
    let size = Size { width: u(2), height: u(5) };
    assert_eq!(size.map(|v: Unit| v.add(u(1))), Size { width: u(3), height: u(6) });
    assert_eq!(size.map_width(|v: Unit| v.mul(u(2))), Size { width: u(4), height: u(5) });
    assert_eq!(size.map_height(|v: Unit| v.mul(u(2))), Size { width: u(2), height: u(10) });
    let other = Size { width: u(10), height: u(20) };
    assert_eq!(size.zip_map(other, |a: Unit, b: Unit| a.add(b)), Size { width: u(12), height: u(25) });
    assert_eq!(size.add(other), Size { width: u(12), height: u(25) });
    assert_eq!(other.sub(size), Size { width: u(8), height: u(15) });
    assert_eq!(size.max(Size { width: u(3), height: u(1) }), Size { width: u(3), height: u(5) });
}

#[test]
fn size_main_and_cross_follow_the_flex_direction() {
    let mut size = Size { width: u(1), height: u(2) };
    assert_eq!(size.main(FlexDirection::Row), u(1));
    assert_eq!(size.main(FlexDirection::Column), u(2));
    assert_eq!(size.cross(FlexDirection::Row), u(2));
    assert_eq!(size.cross(FlexDirection::RowReverse), u(2));
    assert_eq!(size.with_main(FlexDirection::Row, u(9)), Size { width: u(9), height: u(2) });
    assert_eq!(size.with_cross(FlexDirection::Column, u(9)), Size { width: u(9), height: u(2) });
    assert_eq!(
        size.map_main(FlexDirection::Column, |v: Unit| v.add(u(1))),
        Size { width: u(1), height: u(3) },
    );
    assert_eq!(
        size.map_cross(FlexDirection::Column, |v: Unit| v.add(u(1))),
        Size { width: u(2), height: u(2) },
    );
    size.set_main(FlexDirection::Row, u(7));
    size.set_cross(FlexDirection::Row, u(8));
    assert_eq!(size, Size { width: u(7), height: u(8) });
    let mut abstract_set = Size { width: u(0), height: u(0) };
    abstract_set.set(AbstractAxis::Inline, u(4));
    abstract_set.set(AbstractAxis::Block, u(5));
    assert_eq!(abstract_set, Size { width: u(4), height: u(5) });
}

#[test]
fn rect_maps_and_direction_helpers() {
    let rect = Rect::new(u(1), u(2), u(3), u(4));
    assert_eq!(rect, Rect { left: u(1), right: u(2), top: u(3), bottom: u(4) });
    assert_eq!(rect.main_axis_sum(FlexDirection::Row), u(3));
    assert_eq!(rect.main_axis_sum(FlexDirection::Column), u(7));
    assert_eq!(rect.cross_axis_sum(FlexDirection::Row), u(7));
    assert_eq!(rect.main_start(FlexDirection::Row), u(1));
    assert_eq!(rect.main_end(FlexDirection::Column), u(4));
    assert_eq!(rect.cross_start(FlexDirection::Row), u(3));
    assert_eq!(rect.cross_end(FlexDirection::Row), u(4));
    assert_eq!(rect.main_start(FlexDirection::Column), u(3));
    assert_eq!(rect.cross_end(FlexDirection::Column), u(2));
    let shifted = rect.add(Rect::new(u(10), u(10), u(10), u(10)));
    assert_eq!(shifted.left, u(11));
    let sides = Rect { left: u(1), right: u(2), top: u(3), bottom: u(4) }.zip_size(
        Size { width: u(10), height: u(100) },
        |side: Unit, context: Unit| side.add(context),
    );
    assert_eq!(sides, Rect { left: u(11), right: u(12), top: u(103), bottom: u(104) });
    assert_eq!(Rect::<Unit>::zero().sum_axes(), Size::zero());
}

#[test]
fn point_helpers_follow_the_axes() {
    let point = Point { x: u(1), y: u(2) };
    assert_eq!(point.map(|v: Unit| v.mul(u(3))), Point { x: u(3), y: u(6) });
    assert_eq!(point.add(Point { x: u(4), y: u(5) }), Point { x: u(5), y: u(7) });
    assert_eq!(point.main(FlexDirection::Row), u(1));
    assert_eq!(point.main(FlexDirection::Column), u(2));
    assert_eq!(point.cross(FlexDirection::Row), u(2));
    let mut set = Point::zero();
    set.set(AbstractAxis::Inline, u(8));
    set.set(AbstractAxis::Block, u(9));
    assert_eq!(set, Point { x: u(8), y: u(9) });
    assert_eq!(Size::from_point(point), Size { width: u(1), height: u(2) });
    let none = Point::<Option<Unit>>::none();
    assert_eq!(none.x, None);
}

#[test]
fn lines_and_axis_containers() {
    let line = Line { start: u(3), end: u(4) };
    assert_eq!(line.sum(), u(7));
    assert_eq!(line.map(|v: Unit| v.neg()), Line { start: u(-3), end: u(-4) });
    assert_eq!(Line::<Unit>::zero().sum(), Unit::zero());
    assert!(Line::both_true().start && Line::both_true().end);
    assert!(!Line::both_false().start);
    let both = InBothAbsAxis { horizontal: u(10), vertical: u(20) };
    assert_eq!(both.get(AbsoluteAxis::Horizontal), u(10));
    assert_eq!(both.get(AbsoluteAxis::Vertical), u(20));
    let minmax = MinMax { min: u(1), max: u(2) };
    assert_eq!(minmax.min, u(1));
    assert_eq!(minmax.max, u(2));
}

#[test]
fn size_and_rect_style_constructors() {
    assert_eq!(
        Size::from_lengths(u(3), u(4)),
        Size { width: Dimension::Length(u(3)), height: Dimension::Length(u(4)) },
    );
    assert_eq!(
        Size::from_percent(u(1), u(1)),
        Size { width: Dimension::Percent(u(1)), height: Dimension::Percent(u(1)) },
    );
    let lengths = Rect::from_length(u(1), u(2), u(3), u(4));
    assert_eq!(lengths.top, Dimension::Length(u(3)));
    let percents = Rect::from_percent(u(1), u(2), u(3), u(4));
    assert_eq!(percents.bottom, Dimension::Percent(u(4)));
    assert_eq!(LengthPercentage::zero(), LengthPercentage::Length(Unit::zero()));
    assert_eq!(LengthPercentage::from_length(u(2)), LengthPercentage::Length(u(2)));
    assert_eq!(LengthPercentage::from_percent(u(1)), LengthPercentage::Percent(u(1)));
    assert_eq!(LengthPercentageAuto::zero(), LengthPercentageAuto::Length(Unit::zero()));
    assert_eq!(
        LengthPercentageAuto::from_length_percentage(LengthPercentage::Percent(u(1))),
        LengthPercentageAuto::Percent(u(1)),
    );
    assert_eq!(Dimension::zero(), Dimension::Length(Unit::zero()));
    assert_eq!(
        Dimension::from_length_percentage(LengthPercentage::Length(u(5))),
        Dimension::Length(u(5)),
    );
    assert_eq!(
        Dimension::from_length_percentage_auto(LengthPercentageAuto::Auto),
        Dimension::Auto,
    );
    assert_eq!(Dimension::from_length(u(5)), Dimension::Length(u(5)));
    assert_eq!(Dimension::from_percent(u(1)), Dimension::Percent(u(1)));
}

#[test]
fn available_space_callbacks_and_conversions() {
    let definite = AvailableSpace::Definite(u(5));
    assert_eq!(AvailableSpace::zero(), AvailableSpace::Definite(Unit::zero()));
    assert_eq!(AvailableSpace::from_length(u(5)), definite);
    assert_eq!(AvailableSpace::from_option(Some(u(5))), definite);
    assert_eq!(AvailableSpace::from_option(None), AvailableSpace::MaxContent);
    assert_eq!(definite.or_else(|| AvailableSpace::MinContent), definite);
    assert_eq!(
        AvailableSpace::MaxContent.or_else(|| AvailableSpace::MinContent),
        AvailableSpace::MinContent,
    );
    assert_eq!(definite.unwrap_or_else(|| u(9)), u(5));
    assert_eq!(AvailableSpace::MinContent.unwrap_or_else(|| u(9)), u(9));
    assert_eq!(
        definite.map_definite_value(|v| v.mul(u(2))),
        AvailableSpace::Definite(u(10)),
    );
    assert_eq!(
        AvailableSpace::MinContent.map_definite_value(|v| v.mul(u(2))),
        AvailableSpace::MinContent,
    );
    let sizes = Size { width: definite, height: AvailableSpace::MinContent };
    assert_eq!(sizes.into_options(), Size { width: Some(u(5)), height: None });
    let pinned = sizes.maybe_set(Size { width: None, height: Some(u(7)) });
    assert_eq!(pinned.width, definite);
    assert_eq!(pinned.height, AvailableSpace::Definite(u(7)));
    assert_eq!(Size::<AvailableSpace>::min_content().width, AvailableSpace::MinContent);
}

#[test]
fn maybe_math_on_sizes() {
    let size = Size { width: u(50), height: u(60) };
    let min = Size { width: Some(u(55)), height: None };
    let max = Size { width: None, height: Some(u(40)) };
    assert_eq!(size.maybe_clamp(min, max), Size { width: u(55), height: u(40) });
    assert_eq!(size.maybe_max(Size { width: Some(u(70)), height: Some(u(10)) }),
        Size { width: u(70), height: u(60) });
    assert_eq!(u(3).neg(), u(-3));
    assert_eq!(u(-3).abs(), u(3));
    assert_eq!(Unit::epsilon().repr, 1);
    assert!(Unit::from_subunits(5).lt(u(1)));
    assert!(u(1).le(u(1)));
    assert!(u(2).gt(u(1)));
    assert!(u(2).ge(u(2)));
    assert!(u(1).is_positive());
    assert!(!Unit::zero().is_positive());
    assert!(Unit::infinity().is_infinite());
}

#[test]
fn overflow_scroll_container_rule() {
    assert!(!Overflow::Visible.is_scroll_container());
    assert!(Overflow::Hidden.is_scroll_container());
    assert!(Overflow::Scroll.is_scroll_container());
}
