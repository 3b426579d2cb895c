//! Tests of the grid track type and the track-sizing algorithm.

use boxlayout::unit::Unit;
use boxlayout::style::{AvailableSpace, LengthPercentage, MaxTrackSizingFunction, MinTrackSizingFunction};
use boxlayout::grid_track::{GridTrack, GridTrackKind};
use boxlayout::track_sizing::{
    determine_track_sizes, expand_flexible_tracks, initialize_track_sizes, maximize_tracks,
    size_tracks_to_content, stretch_auto_tracks, GridItem,
};

fn u(v: i64) -> Unit {
    Unit::from_int(v)
}

fn fixed(v: i64) -> GridTrack {
    GridTrack::new(
        MinTrackSizingFunction::Fixed(LengthPercentage::Length(u(v))),
        MaxTrackSizingFunction::Fixed(LengthPercentage::Length(u(v))),
    )
}

fn fraction(f: i64) -> GridTrack {
    GridTrack::new(MinTrackSizingFunction::Auto, MaxTrackSizingFunction::Fraction(u(f)))
}

#[test]
fn three_columns_split_remaining_space_by_flex_factor() {
    // Columns [Length(50), Fraction(1), Fraction(2)] in a definite space of
    // 200: the fixed column takes 50, and the remaining 150 splits 1:2.
    let mut tracks = vec![fixed(50), fraction(1), fraction(2)];
    let items: Vec<GridItem> = Vec::new();
    determine_track_sizes(&mut tracks, &items, AvailableSpace::Definite(u(200)), false);
    assert_eq!(tracks[0].base_size, u(50));
    assert_eq!(tracks[1].base_size, u(50));
    assert_eq!(tracks[2].base_size, u(100));
    // Flex-factor conservation: the sizes fill the space exactly.
    let total = tracks[0].base_size.add(tracks[1].base_size).add(tracks[2].base_size);
    assert_eq!(total, u(200));
}

#[test]
fn collapsed_tracks_get_no_space_in_any_pass() {
    let mut collapsed = fraction(1);
    collapsed.collapse();
    assert!(collapsed.is_collapsed);
    let mut tracks = vec![fixed(40), collapsed, fraction(1)];
    let items = vec![GridItem {
        span_start: 0,
        span_end: 3,
        min_content_contribution: u(90),
        max_content_contribution: u(120),
    }];
    determine_track_sizes(&mut tracks, &items, AvailableSpace::Definite(u(100)), true);
    assert_eq!(tracks[1].base_size, Unit::zero());
    assert_eq!(tracks[0].base_size, u(40));
    assert_eq!(tracks[2].base_size, u(60));
}

#[test]
fn fit_content_percent_of_indefinite_space_is_unconstrained() {
    let half = u(1).div(u(2));
    let track = GridTrack::new(
        MinTrackSizingFunction::Auto,
        MaxTrackSizingFunction::FitContent(LengthPercentage::Percent(half)),
    );
    let limit = track.fit_content_limit(None);
    assert!(limit.is_infinite());
    assert!(limit != Unit::zero());
    // Against a definite space the same limit is the fraction of it.
    assert_eq!(track.fit_content_limit(Some(u(300))), u(150));
}

#[test]
fn fit_content_limited_growth_limit_takes_the_minimum() {
    let mut track = GridTrack::new(
        MinTrackSizingFunction::Auto,
        MaxTrackSizingFunction::FitContent(LengthPercentage::Length(u(80))),
    );
    track.growth_limit = Unit::infinity();
    // min(infinity, 80) = 80: infinity propagates through min correctly.
    assert_eq!(track.fit_content_limited_growth_limit(None), u(80));
    track.growth_limit = u(30);
    assert_eq!(track.fit_content_limited_growth_limit(None), u(30));
}

#[test]
fn widening_a_fit_content_limit_never_shrinks_the_final_size() {
    // The same grid sized twice, once with a narrower fit-content limit:
    // the limited track's final base size never decreases when the limit
    // widens.
    let item = GridItem {
        span_start: 0,
        span_end: 1,
        min_content_contribution: u(10),
        max_content_contribution: u(70),
    };
    let narrow = GridTrack::new(
        MinTrackSizingFunction::Auto,
        MaxTrackSizingFunction::FitContent(LengthPercentage::Length(u(40))),
    );
    let wide = GridTrack::new(
        MinTrackSizingFunction::Auto,
        MaxTrackSizingFunction::FitContent(LengthPercentage::Length(u(60))),
    );
    let mut narrow_tracks = vec![narrow];
    let mut wide_tracks = vec![wide];
    let items = vec![item];
    determine_track_sizes(&mut narrow_tracks, &items, AvailableSpace::Definite(u(100)), false);
    determine_track_sizes(&mut wide_tracks, &items, AvailableSpace::Definite(u(100)), false);
    assert_eq!(narrow_tracks[0].base_size, u(40));
    assert_eq!(wide_tracks[0].base_size, u(60));
    assert!(wide_tracks[0].base_size.ge(narrow_tracks[0].base_size));
}

#[test]
fn initialization_resolves_fixed_functions_and_leaves_the_rest() {
    let half = u(1).div(u(2));
    let mut tracks = vec![
        fixed(25),
        GridTrack::new(
            MinTrackSizingFunction::Fixed(LengthPercentage::Percent(half)),
            MaxTrackSizingFunction::Auto,
        ),
        fraction(1),
    ];
    initialize_track_sizes(&mut tracks, Some(u(200)));
    assert_eq!(tracks[0].base_size, u(25));
    assert_eq!(tracks[0].growth_limit, u(25));
    assert_eq!(tracks[1].base_size, u(100));
    assert!(tracks[1].growth_limit.is_infinite());
    assert_eq!(tracks[2].base_size, Unit::zero());
    assert!(tracks[2].growth_limit.is_infinite());
}

#[test]
fn maximize_caps_growth_at_the_growth_limit() {
    let mut track = GridTrack::new(
        MinTrackSizingFunction::Fixed(LengthPercentage::Length(u(20))),
        MaxTrackSizingFunction::Fixed(LengthPercentage::Length(u(60))),
    );
    track.base_size = u(20);
    track.growth_limit = u(60);
    let mut tracks = vec![track];
    maximize_tracks(&mut tracks, AvailableSpace::Definite(u(500)));
    assert_eq!(tracks[0].base_size, u(60));
    // Indefinite space distributes nothing.
    let mut untouched = vec![tracks[0]];
    untouched[0].base_size = u(20);
    maximize_tracks(&mut untouched, AvailableSpace::MaxContent);
    assert_eq!(untouched[0].base_size, u(20));
}

#[test]
fn maximize_fills_the_space_or_reaches_every_cap() {
    fn stretchy(min: i64, max: i64) -> GridTrack {
        GridTrack::new(
            MinTrackSizingFunction::Fixed(LengthPercentage::Length(u(min))),
            MaxTrackSizingFunction::Fixed(LengthPercentage::Length(u(max))),
        )
    }
    // Plenty of space: both tracks stop at their growth limits.
    let mut capped = vec![stretchy(10, 50), stretchy(10, 50)];
    initialize_track_sizes(&mut capped, Some(u(200)));
    maximize_tracks(&mut capped, AvailableSpace::Definite(u(200)));
    assert_eq!(capped[0].base_size, u(50));
    assert_eq!(capped[1].base_size, u(50));
    // Scarce space: the remainder splits equally and fills it exactly.
    let mut filled = vec![stretchy(10, 50), stretchy(10, 50)];
    initialize_track_sizes(&mut filled, Some(u(70)));
    maximize_tracks(&mut filled, AvailableSpace::Definite(u(70)));
    assert_eq!(filled[0].base_size, u(35));
    assert_eq!(filled[1].base_size, u(35));
}

#[test]
fn expansion_freezes_a_flexible_track_at_its_minimum() {
    // Two one-fraction tracks in 100 units, one with a content minimum of
    // 80: the other track takes what is left, not an equal half.
    let mut big = fraction(1);
    big.base_size = u(80);
    let mut tracks = vec![fraction(1), big];
    let fr = expand_flexible_tracks(&mut tracks, AvailableSpace::Definite(u(100)));
    assert_eq!(tracks[1].base_size, u(80));
    assert_eq!(tracks[0].base_size, u(20));
    assert_eq!(fr, u(20));
}

#[test]
fn stretch_spreads_free_space_equally_over_auto_tracks() {
    let auto_track = GridTrack::new(MinTrackSizingFunction::Auto, MaxTrackSizingFunction::Auto);
    let mut tracks = vec![fixed(40), auto_track, auto_track];
    initialize_track_sizes(&mut tracks, Some(u(100)));
    stretch_auto_tracks(&mut tracks, AvailableSpace::Definite(u(100)));
    assert_eq!(tracks[0].base_size, u(40));
    assert_eq!(tracks[1].base_size, u(30));
    assert_eq!(tracks[2].base_size, u(30));
}

#[test]
fn content_pass_grows_intrinsic_tracks_for_spanning_items() {
    let auto_track = GridTrack::new(MinTrackSizingFunction::Auto, MaxTrackSizingFunction::Auto);
    let mut tracks = vec![fixed(30), auto_track, auto_track];
    initialize_track_sizes(&mut tracks, Some(u(200)));
    let items = vec![GridItem {
        span_start: 0,
        span_end: 3,
        min_content_contribution: u(70),
        max_content_contribution: u(90),
    }];
    size_tracks_to_content(&mut tracks, &items);
    // The 40-unit shortfall beyond the fixed 30 splits equally over the two
    // intrinsic tracks, which have no existing space yet; the fixed track
    // is untouched.
    assert_eq!(tracks[0].base_size, u(30));
    assert_eq!(tracks[1].base_size, u(20));
    assert_eq!(tracks[2].base_size, u(20));
    // Scratch accumulators end the pass zeroed.
    assert_eq!(tracks[1].base_size_planned_increase, Unit::zero());
    assert_eq!(tracks[1].item_incurred_increase, Unit::zero());
    assert_eq!(tracks[1].growth_limit_planned_increase, Unit::zero());
    assert!(tracks[1].infinitely_growable);
}

#[test]
fn content_pass_distributes_in_proportion_to_existing_space() {
    let auto_track = GridTrack::new(MinTrackSizingFunction::Auto, MaxTrackSizingFunction::Auto);
    let mut small = auto_track;
    small.base_size = u(10);
    let mut large = auto_track;
    large.base_size = u(30);
    let mut tracks = vec![small, large];
    let items = vec![GridItem {
        span_start: 0,
        span_end: 2,
        min_content_contribution: u(60),
        max_content_contribution: u(0),
    }];
    size_tracks_to_content(&mut tracks, &items);
    // The 20-unit shortfall beyond the spanned 40 splits 10:30 over the
    // existing base sizes: 5 and 15.
    assert_eq!(tracks[0].base_size, u(15));
    assert_eq!(tracks[1].base_size, u(45));
}

#[test]
fn gutters_are_fixed_size_tracks() {
    let gutter = GridTrack::gutter(LengthPercentage::Length(u(8)));
    assert_eq!(gutter.kind, GridTrackKind::Gutter);
    assert!(!gutter.is_flexible());
    assert!(!gutter.has_intrinsic_sizing_function());
    let mut tracks = vec![fixed(10), gutter, fixed(10)];
    determine_track_sizes(&mut tracks, &Vec::new(), AvailableSpace::Definite(u(100)), false);
    assert_eq!(tracks[1].base_size, u(8));
}

#[test]
fn track_queries_follow_the_max_function() {
    let flex = fraction(3);
    assert!(flex.is_flexible());
    assert_eq!(flex.flex_factor(), u(3));
    assert_eq!(fixed(10).flex_factor(), Unit::zero());
    assert!(!fixed(10).is_flexible());
    let half = u(1).div(u(2));
    let pct = GridTrack::new(
        MinTrackSizingFunction::Fixed(LengthPercentage::Percent(half)),
        MaxTrackSizingFunction::Auto,
    );
    assert!(pct.uses_percentage());
    assert!(pct.has_intrinsic_sizing_function());
    assert!(!fixed(10).uses_percentage());
}
