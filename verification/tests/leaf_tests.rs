//! Tests of the leaf sizing resolver.

use boxlayout::unit::Unit;
use boxlayout::geometry::{Line, Point, Rect, Size};
use boxlayout::style::{AvailableSpace, Dimension, LengthPercentage, Overflow, Position, Style};
use boxlayout::layout::SizingMode;
use boxlayout::leaf::{compute, measure_size, perform_layout};
use boxlayout::measure::FixedMeasure;

fn u(v: i64) -> Unit {
    Unit::from_int(v)
}

fn pad(style: &mut Style, v: i64) {
    style.padding = Rect {
        left: LengthPercentage::Length(u(v)),
        right: LengthPercentage::Length(u(v)),
        top: LengthPercentage::Length(u(v)),
        bottom: LengthPercentage::Length(u(v)),
    };
}

fn definite(w: i64, h: i64) -> Size<AvailableSpace> {
    Size { width: AvailableSpace::Definite(u(w)), height: AvailableSpace::Definite(u(h)) }
}

#[test]
fn empty_leaf_with_padding_takes_the_border_box_floor() {
    // Auto by auto, no content, 10 units of padding on every side, in a
    // definite 300 by 300: the resolved size is the padding floor (20, 20).
    let mut style = Style::default();
    pad(&mut style, 10);
    let parent = Size { width: Some(u(300)), height: Some(u(300)) };
    let result = compute::<FixedMeasure>(
        &style,
        None,
        Size::none(),
        parent,
        definite(300, 300),
        SizingMode::InherentSize,
    );
    assert_eq!(result.size, Size { width: u(20), height: u(20) });
}

#[test]
fn known_dimensions_return_early_clamped_to_max() {
    let mut style = Style::default();
    style.max_size = Size::from_lengths(u(80), u(40));
    let known = Size::new(u(100), u(50));
    let parent = Size { width: Some(u(200)), height: Some(u(200)) };
    let result = compute::<FixedMeasure>(
        &style,
        None,
        known,
        parent,
        definite(200, 200),
        SizingMode::InherentSize,
    );
    assert_eq!(result.size, Size { width: u(80), height: u(40) });
    assert_eq!(result.first_baselines, Point { x: None, y: None });
    assert!(!result.margins_can_collapse_through);
}

#[test]
fn measured_content_plus_inset_sizes_the_leaf() {
    let measure = FixedMeasure { size: Size { width: u(40), height: u(30) } };
    let mut style = Style::default();
    let result = compute(
        &style,
        Some(&measure),
        Size::none(),
        Size::none(),
        definite(500, 500),
        SizingMode::InherentSize,
    );
    assert_eq!(result.size, Size { width: u(40), height: u(30) });
    pad(&mut style, 10);
    let padded = compute(
        &style,
        Some(&measure),
        Size::none(),
        Size::none(),
        definite(500, 500),
        SizingMode::InherentSize,
    );
    assert_eq!(padded.size, Size { width: u(60), height: u(50) });
}

#[test]
fn explicit_style_size_wins_over_the_measurement() {
    let measure = FixedMeasure { size: Size { width: u(40), height: u(30) } };
    let mut style = Style::default();
    style.size = Size::from_lengths(u(70), u(25));
    let result = compute(
        &style,
        Some(&measure),
        Size::none(),
        Size { width: Some(u(200)), height: Some(u(200)) },
        definite(200, 200),
        SizingMode::InherentSize,
    );
    assert_eq!(result.size, Size { width: u(70), height: u(25) });
}

#[test]
fn content_size_mode_ignores_style_sizes() {
    let mut style = Style::default();
    style.size = Size::from_lengths(u(70), u(25));
    let result = compute::<FixedMeasure>(
        &style,
        None,
        Size::none(),
        Size { width: Some(u(200)), height: Some(u(200)) },
        definite(200, 200),
        SizingMode::ContentSize,
    );
    assert_eq!(result.size, Size { width: Unit::zero(), height: Unit::zero() });
}

#[test]
fn aspect_ratio_fills_the_missing_axis() {
    let mut style = Style::default();
    style.aspect_ratio = Some(u(2));
    let known = Size { width: Some(u(100)), height: None };
    let result = compute::<FixedMeasure>(
        &style,
        None,
        known,
        Size::none(),
        Size::max_content(),
        SizingMode::InherentSize,
    );
    assert_eq!(result.size, Size { width: u(100), height: u(50) });
}

#[test]
fn vertical_scroll_reserves_a_horizontal_gutter() {
    let mut style = Style::default();
    style.overflow = Point { x: Overflow::Visible, y: Overflow::Scroll };
    style.scrollbar_width = u(15);
    let result = compute::<FixedMeasure>(
        &style,
        None,
        Size::none(),
        Size::none(),
        Size::max_content(),
        SizingMode::InherentSize,
    );
    // The scrollbar gutter widens the content-box inset but not the
    // padding-border floor.
    assert_eq!(result.size, Size { width: u(15), height: Unit::zero() });
}

#[test]
fn percentage_padding_resolves_against_the_parent_width() {
    let quarter = u(1).div(u(4));
    let mut style = Style::default();
    style.padding = Rect {
        left: LengthPercentage::Percent(quarter),
        right: LengthPercentage::Percent(quarter),
        top: LengthPercentage::Percent(quarter),
        bottom: LengthPercentage::Percent(quarter),
    };
    let parent = Size { width: Some(u(200)), height: Some(u(1000)) };
    let result = compute::<FixedMeasure>(
        &style,
        None,
        Size::none(),
        parent,
        definite(200, 1000),
        SizingMode::InherentSize,
    );
    // Every edge resolves against the width of 200: 50 per edge.
    assert_eq!(result.size, Size { width: u(100), height: u(100) });
}

#[test]
fn zero_height_block_leaf_can_collapse_through() {
    let mut style = Style::default();
    style.display = boxlayout::style::Display::Block;
    let result = compute::<FixedMeasure>(
        &style,
        None,
        Size::none(),
        Size::none(),
        Size::max_content(),
        SizingMode::InherentSize,
    );
    assert_eq!(result.size.height, Unit::zero());
    assert!(result.margins_can_collapse_through);
    // Absolute positioning prevents collapsing through.
    style.position = Position::Absolute;
    let absolute = compute::<FixedMeasure>(
        &style,
        None,
        Size::none(),
        Size::none(),
        Size::max_content(),
        SizingMode::InherentSize,
    );
    assert!(!absolute.margins_can_collapse_through);
}

#[test]
fn leaf_compute_is_deterministic() {
    let measure = FixedMeasure { size: Size { width: u(11), height: u(7) } };
    let mut style = Style::default();
    pad(&mut style, 3);
    style.min_size = Size { width: Dimension::Length(u(9)), height: Dimension::Auto };
    let parent = Size { width: Some(u(120)), height: None };
    let first = compute(
        &style,
        Some(&measure),
        Size::none(),
        parent,
        definite(120, 90),
        SizingMode::InherentSize,
    );
    let second = compute(
        &style,
        Some(&measure),
        Size::none(),
        parent,
        definite(120, 90),
        SizingMode::InherentSize,
    );
    assert_eq!(first, second);
}

#[test]
fn measure_and_layout_wrappers_agree_with_compute() {
    let style = Style::default();
    let collapsible = Line { start: false, end: false };
    let sized = measure_size::<FixedMeasure>(
        &style,
        None,
        Size::new(u(12), u(34)),
        Size::none(),
        Size::max_content(),
        SizingMode::InherentSize,
        collapsible,
    );
    let laid_out = perform_layout::<FixedMeasure>(
        &style,
        None,
        Size::new(u(12), u(34)),
        Size::none(),
        Size::max_content(),
        SizingMode::InherentSize,
        collapsible,
    );
    assert_eq!(sized, laid_out.size);
    assert_eq!(sized, Size { width: u(12), height: u(34) });
}
