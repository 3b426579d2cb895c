//! Tests of the fixed-point scalar, the resolved-style values and the
//! collapsible margin sets.

use boxlayout::unit::{Unit, INF, NEG_INF, SCALE};
use boxlayout::style::{AvailableSpace, Dimension, LengthPercentage, LengthPercentageAuto};
use boxlayout::layout::CollapsibleMarginSet;

fn u(v: i64) -> Unit {
    Unit::from_int(v)
}

#[test]
fn arithmetic_exact_on_small_values() {
    assert_eq!(u(2).add(u(3)), u(5));
    assert_eq!(u(2).sub(u(3)), u(-1));
    assert_eq!(u(6).mul(u(7)), u(42));
    assert_eq!(u(100).div(u(4)), u(25));
    assert_eq!(u(-8).div(u(2)), u(-4));
    assert_eq!(u(3).mul(u(1).div(u(2))), Unit::from_subunits(3 * SCALE / 2));
}

#[test]
fn infinity_absorbs_addition() {
    assert_eq!(Unit::infinity().add(u(5)).repr, INF);
    assert_eq!(Unit::infinity().sub(u(1_000_000)).repr, INF);
    assert_eq!(Unit::neg_infinity().add(u(5)).repr, NEG_INF);
}

#[test]
fn min_of_anything_and_infinity_is_anything() {
    assert_eq!(u(7).min(Unit::infinity()), u(7));
    assert_eq!(Unit::neg_infinity().min(Unit::infinity()).repr, NEG_INF);
    assert_eq!(Unit::infinity().min(u(7)), u(7));
    assert_eq!(u(7).max(Unit::neg_infinity()), u(7));
}

#[test]
fn division_truncates_toward_zero() {
    // 7 / 2 = 3.5 units exactly representable; 1 subunit / 3 truncates.
    assert_eq!(u(7).div(u(2)), Unit::from_subunits(7 * SCALE / 2));
    assert_eq!(u(1).div(u(3)).repr, SCALE / 3);
    assert_eq!(u(-1).div(u(3)).repr, -(SCALE / 3));
}

#[test]
fn division_by_zero_is_a_signed_infinity() {
    assert_eq!(u(5).div(Unit::zero()).repr, INF);
    assert_eq!(u(-5).div(Unit::zero()).repr, NEG_INF);
    assert_eq!(Unit::zero().div(Unit::zero()).repr, 0);
    assert_eq!(u(5).div(Unit::infinity()).repr, 0);
}

#[test]
fn maybe_clamp_lets_the_minimum_win() {
    assert_eq!(u(10).maybe_clamp(Some(u(20)), Some(u(15))), u(20));
    assert_eq!(u(10).maybe_clamp(Some(u(2)), Some(u(8))), u(8));
    assert_eq!(u(10).maybe_clamp(None, None), u(10));
}

#[test]
fn length_percentage_resolution() {
    let half = u(1).div(u(2));
    assert_eq!(LengthPercentage::Length(u(30)).maybe_resolve(Some(u(200))), Some(u(30)));
    assert_eq!(LengthPercentage::Percent(half).maybe_resolve(Some(u(200))), Some(u(100)));
    assert_eq!(LengthPercentage::Percent(half).maybe_resolve(None), None);
    assert_eq!(LengthPercentage::Percent(half).resolve_or_zero(None), Unit::zero());
}

#[test]
fn length_percentage_auto_resolution() {
    let half = u(1).div(u(2));
    assert_eq!(LengthPercentageAuto::Length(u(30)).resolve_to_option(u(200)), Some(u(30)));
    assert_eq!(LengthPercentageAuto::Percent(half).resolve_to_option(u(200)), Some(u(100)));
    assert_eq!(LengthPercentageAuto::Auto.resolve_to_option(u(200)), None);
    assert!(LengthPercentageAuto::Auto.is_auto());
    assert!(!LengthPercentageAuto::Length(u(1)).is_auto());
}

#[test]
fn dimension_into_option_only_for_lengths() {
    assert_eq!(Dimension::Length(u(4)).into_option(), Some(u(4)));
    assert_eq!(Dimension::Percent(u(1)).into_option(), None);
    assert_eq!(Dimension::Auto.into_option(), None);
}

#[test]
fn available_space_free_space_rules() {
    assert_eq!(AvailableSpace::MaxContent.compute_free_space(u(10)).repr, INF);
    assert_eq!(AvailableSpace::MinContent.compute_free_space(u(10)), Unit::zero());
    assert_eq!(AvailableSpace::Definite(u(100)).compute_free_space(u(30)), u(70));
}

#[test]
fn available_space_helpers() {
    let definite = AvailableSpace::Definite(u(5));
    assert!(definite.is_definite());
    assert!(!AvailableSpace::MinContent.is_definite());
    assert_eq!(definite.into_option(), Some(u(5)));
    assert_eq!(AvailableSpace::MaxContent.into_option(), None);
    assert_eq!(AvailableSpace::MaxContent.unwrap_or(u(9)), u(9));
    assert_eq!(definite.unwrap(), u(5));
    assert_eq!(AvailableSpace::MinContent.or(definite), definite);
    assert_eq!(definite.or(AvailableSpace::MaxContent), definite);
    assert_eq!(AvailableSpace::MinContent.maybe_set(Some(u(2))), AvailableSpace::Definite(u(2)));
    assert_eq!(AvailableSpace::MinContent.maybe_set(None), AvailableSpace::MinContent);
    assert!(definite.is_roughly_equal(AvailableSpace::Definite(u(5))));
    assert!(!definite.is_roughly_equal(AvailableSpace::Definite(u(6))));
    assert!(AvailableSpace::MaxContent.is_roughly_equal(AvailableSpace::MaxContent));
    assert!(!AvailableSpace::MaxContent.is_roughly_equal(definite));
}

#[test]
fn margin_collapse_is_commutative() {
    let set = CollapsibleMarginSet::zero();
    let a = u(7);
    let b = u(-3);
    let ab = set.collapse_with_margin(a).collapse_with_margin(b);
    let ba = set.collapse_with_margin(b).collapse_with_margin(a);
    assert_eq!(ab, ba);
    assert_eq!(ab.resolve(), u(4));
    let c = u(12);
    let ac = set.collapse_with_margin(a).collapse_with_margin(c);
    let ca = set.collapse_with_margin(c).collapse_with_margin(a);
    assert_eq!(ac, ca);
    assert_eq!(ac.resolve(), u(12));
}

#[test]
fn margin_collapse_is_idempotent() {
    let set = CollapsibleMarginSet::from_margin(u(9)).collapse_with_margin(u(-2));
    let once = set.collapse_with_margin(u(9));
    let twice = once.collapse_with_margin(u(9));
    assert_eq!(once, twice);
    assert_eq!(twice.resolve(), u(7));
}

#[test]
fn margin_set_collapse_with_set_takes_extremes() {
    let left = CollapsibleMarginSet::from_margin(u(10)).collapse_with_margin(u(-4));
    let right = CollapsibleMarginSet::from_margin(u(6)).collapse_with_margin(u(-9));
    let merged = left.collapse_with_set(right);
    assert_eq!(merged.resolve(), u(1));
}
