//! The grid track-sizing algorithm: an iterative constrained-optimization
//! procedure over one axis's tracks. Each pass mutates the tracks in
//! place: initialization from the sizing functions, content-driven growth,
//! maximization up to growth limits, expansion of flexible tracks in
//! proportion to their flex factors, and stretching of auto tracks.

use vstd::prelude::*;
use crate::unit::{Unit, INF, max_repr};
use crate::style::{AvailableSpace, MaxTrackSizingFunction};
use crate::grid_track::GridTrack;

verus! {

/// The most tracks one axis may hold; keeps every running sum of track
/// sizes representable.
pub const MAX_TRACK_COUNT: usize = 2147483647;

/// The sum of all base sizes, in subunits.
pub open spec fn spec_total_base_sum(tracks: Seq<GridTrack>) -> int
    decreases tracks.len(),
{
    if tracks.len() == 0 {
        0
    } else {
        tracks[0].base_size.repr + spec_total_base_sum(tracks.drop_first())
    }
}

/// The sum of the base sizes of the non-flexible tracks, in subunits.
pub open spec fn spec_nonflex_base_sum(tracks: Seq<GridTrack>) -> int
    decreases tracks.len(),
{
    if tracks.len() == 0 {
        0
    } else {
        let head = if tracks[0].max_track_sizing_function is Fraction {
            0
        } else {
            tracks[0].base_size.repr as int
        };
        head + spec_nonflex_base_sum(tracks.drop_first())
    }
}

/// The sum of the flex factors of the flexible tracks, in subunits.
pub open spec fn spec_flex_factor_sum(tracks: Seq<GridTrack>) -> int
    decreases tracks.len(),
{
    if tracks.len() == 0 {
        0
    } else {
        let head = match tracks[0].max_track_sizing_function {
            MaxTrackSizingFunction::Fraction(f) => f.repr as int,
            _ => 0,
        };
        head + spec_flex_factor_sum(tracks.drop_first())
    }
}

/// The sum of the proportional shares of the flexible tracks for a given
/// flex-fraction size: `fr` times each flex factor, in subunits.
pub open spec fn spec_flex_share_sum(tracks: Seq<GridTrack>, fr: Unit) -> int
    decreases tracks.len(),
{
    if tracks.len() == 0 {
        0
    } else {
        let head = match tracks[0].max_track_sizing_function {
            MaxTrackSizingFunction::Fraction(f) => fr.spec_times(f).repr as int,
            _ => 0,
        };
        head + spec_flex_share_sum(tracks.drop_first(), fr)
    }
}

/// Replacing one track changes the total of the base sizes by exactly the
/// difference of the one base size.
proof fn lemma_total_sum_update(tracks: Seq<GridTrack>, i: int, t: GridTrack)
    requires
        0 <= i < tracks.len(),
    ensures
        spec_total_base_sum(tracks.update(i, t)) == spec_total_base_sum(tracks)
            - tracks[i].base_size.repr + t.base_size.repr,
    decreases tracks.len(),
{
    if i == 0 {
        assert(tracks.update(0, t).drop_first() =~= tracks.drop_first());
    } else {
        assert(tracks.update(i, t).drop_first() =~= tracks.drop_first().update(i - 1, t));
        lemma_total_sum_update(tracks.drop_first(), i - 1, t);
    }
}

/// What initialization gives one track: a non-flexible track's base size
/// starts at the resolved value of its min sizing function when that
/// resolves, else zero (to be grown by content); the growth limit starts at
/// the resolved max sizing function, or infinity when the max function is
/// intrinsic, flexible or unresolvable.
pub open spec fn spec_initialized(t: GridTrack, axis_available_space: Option<Unit>) -> GridTrack {
    GridTrack {
        base_size: match t.min_track_sizing_function.spec_definite_value(axis_available_space) {
            Some(v) => v,
            None => Unit { repr: 0 },
        },
        growth_limit: match t.max_track_sizing_function.spec_definite_value(axis_available_space) {
            Some(v) => v,
            None => Unit { repr: INF },
        },
        ..t
    }
}

/// Initialization pass: set each track's base size and growth limit from
/// its sizing functions, resolved against the axis's available space.
pub fn initialize_track_sizes(tracks: &mut Vec<GridTrack>, axis_available_space: Option<Unit>)
    ensures
        final(tracks)@.len() == old(tracks)@.len(),
        forall|i: int|
            0 <= i < old(tracks)@.len() ==> #[trigger] final(tracks)@[i] == spec_initialized(
                old(tracks)@[i],
                axis_available_space,
            ),
{
    let n = tracks.len();
    let mut i: usize = 0;
    while i < n
        invariant
            0 <= i <= n,
            n == tracks@.len(),
            old(tracks)@.len() == n,
            forall|j: int|
                i <= j < n ==> #[trigger] tracks@[j] == old(tracks)@[j],
            forall|j: int|
                0 <= j < i ==> #[trigger] tracks@[j] == spec_initialized(
                    old(tracks)@[j],
                    axis_available_space,
                ),
        decreases n - i,
    {
        let base = match tracks[i].min_track_sizing_function.definite_value(axis_available_space) {
            Some(v) => v,
            None => Unit::zero(),
        };
        let growth = match tracks[i].max_track_sizing_function.definite_value(axis_available_space) {
            Some(v) => v,
            None => Unit::infinity(),
        };
        tracks[i].base_size = base;
        tracks[i].growth_limit = growth;
        i = i + 1;
    }
}

/// Widening a fixed max track sizing function never lowers the growth
/// limit that initialization gives the track; together with the
/// monotonicity of the fit-content limit, the ceiling a track's base size
/// may grow to is monotone in its max sizing function.
pub proof fn lemma_initialized_growth_limit_monotone(
    t1: GridTrack,
    t2: GridTrack,
    axis_available_space: Option<Unit>,
    l1: Unit,
    l2: Unit,
)
    requires
        t1.max_track_sizing_function == MaxTrackSizingFunction::Fixed(
            crate::style::LengthPercentage::Length(l1),
        ),
        t2.max_track_sizing_function == MaxTrackSizingFunction::Fixed(
            crate::style::LengthPercentage::Length(l2),
        ),
        l1.repr <= l2.repr,
    ensures
        spec_initialized(t1, axis_available_space).growth_limit.repr <= spec_initialized(
            t2,
            axis_available_space,
        ).growth_limit.repr,
{
}

/// Whether a track may still receive maximization space: not flexible, and
/// its base size is below its fit-content-limited growth limit.
pub open spec fn spec_growable(t: GridTrack, axis_available_space: Option<Unit>) -> bool {
    !(t.max_track_sizing_function is Fraction) && t.base_size.repr
        < t.spec_fit_content_limited_growth_limit(axis_available_space).repr
}

/// Distribute space to the growable tracks, each capped at its
/// fit-content-limited growth limit: first an equal share to every
/// growable track, then whatever remains left to right up to each cap.
/// Flexible tracks, and tracks already at their cap — in particular
/// collapsed tracks, whose cap is zero — receive nothing.
fn distribute_space_up_to_limits(
    tracks: &mut Vec<GridTrack>,
    space: Unit,
    axis_available_space: Option<Unit>,
) -> (leftover: Unit)
    requires
        0 <= space.repr < INF,
        forall|i: int| 0 <= i < old(tracks)@.len() ==> 0 <= (#[trigger] old(tracks)@[i]).base_size.repr,
        spec_total_base_sum(old(tracks)@) + space.repr < INF,
    ensures
        0 <= leftover.repr <= space.repr,
        spec_total_base_sum(final(tracks)@) == spec_total_base_sum(old(tracks)@) + space.repr
            - leftover.repr,
        leftover.repr > 0 ==> forall|i: int|
            0 <= i < old(tracks)@.len() && spec_growable(old(tracks)@[i], axis_available_space)
                ==> (#[trigger] final(tracks)@[i]).base_size.repr == old(
                tracks,
            )@[i].spec_fit_content_limited_growth_limit(axis_available_space).repr,
        final(tracks)@.len() == old(tracks)@.len(),
        forall|i: int|
            0 <= i < old(tracks)@.len() ==> #[trigger] final(tracks)@[i] == (GridTrack {
                base_size: final(tracks)@[i].base_size,
                ..old(tracks)@[i]
            }),
        forall|i: int|
            0 <= i < old(tracks)@.len() ==> (#[trigger] final(tracks)@[i]).base_size.repr >= old(
                tracks,
            )@[i].base_size.repr,
        forall|i: int|
            0 <= i < old(tracks)@.len() ==> (#[trigger] final(tracks)@[i]).base_size.repr
                <= max_repr(
                old(tracks)@[i].base_size.repr as int,
                old(tracks)@[i].spec_fit_content_limited_growth_limit(axis_available_space).repr
                    as int,
            ),
        forall|i: int|
            0 <= i < old(tracks)@.len() && !spec_growable(old(tracks)@[i], axis_available_space)
                ==> #[trigger] final(tracks)@[i] == old(tracks)@[i],
{
    let n = tracks.len();
    // Count the growable tracks for the equal share.
    let mut count: u64 = 0;
    let mut i: usize = 0;
    while i < n
        invariant
            0 <= i <= n,
            n == tracks@.len(),
            tracks@ == old(tracks)@,
            count <= i,
        decreases n - i,
    {
        let cap = tracks[i].fit_content_limited_growth_limit(axis_available_space);
        if !tracks[i].is_flexible() && tracks[i].base_size.lt(cap) {
            count = count + 1;
        }
        i = i + 1;
    }
    let mut remaining = space;
    if count > 0 {
        // One equal share for every growable track, capped.
        let share_repr = (space.repr as u64) / count;
        let share = Unit::from_subunits(share_repr as i64);
        proof {
            assert(0 <= share.repr < INF) by (nonlinear_arith)
                requires
                    share.repr as int == ((space.repr as u64) as int) / (count as int),
                    0 <= space.repr < INF,
                    count >= 1,
            ;
        }
        let mut i: usize = 0;
        while i < n
            invariant
                0 <= i <= n,
                n == tracks@.len(),
                old(tracks)@.len() == n,
                0 <= share.repr < INF,
                0 <= remaining.repr <= space.repr,
                spec_total_base_sum(old(tracks)@) + space.repr < INF,
                spec_total_base_sum(tracks@) == spec_total_base_sum(old(tracks)@) + space.repr
                    - remaining.repr,
                forall|j: int|
                    0 <= j < n ==> 0 <= (#[trigger] old(tracks)@[j]).base_size.repr,
                forall|j: int| 0 <= j < n ==> 0 <= (#[trigger] tracks@[j]).base_size.repr,
                forall|j: int|
                    i <= j < n ==> #[trigger] tracks@[j] == old(tracks)@[j],
                forall|j: int|
                    0 <= j < i ==> #[trigger] tracks@[j] == (GridTrack {
                        base_size: tracks@[j].base_size,
                        ..old(tracks)@[j]
                    }),
                forall|j: int|
                    0 <= j < i ==> (#[trigger] tracks@[j]).base_size.repr >= old(
                        tracks,
                    )@[j].base_size.repr,
                forall|j: int|
                    0 <= j < i ==> (#[trigger] tracks@[j]).base_size.repr <= max_repr(
                        old(tracks)@[j].base_size.repr as int,
                        old(tracks)@[j].spec_fit_content_limited_growth_limit(
                            axis_available_space,
                        ).repr as int,
                    ),
                forall|j: int|
                    0 <= j < i && !spec_growable(old(tracks)@[j], axis_available_space)
                        ==> #[trigger] tracks@[j] == old(tracks)@[j],
            decreases n - i,
        {
            let cap = tracks[i].fit_content_limited_growth_limit(axis_available_space);
            if !tracks[i].is_flexible() && tracks[i].base_size.lt(cap) {
                let headroom = cap.sub(tracks[i].base_size);
                let inc = share.min(headroom).min(remaining);
                let grown = tracks[i].base_size.add(inc);
                proof {
                    crate::unit::lemma_grow_within_cap(
                        tracks@[i as int].base_size.repr as int,
                        cap.repr as int,
                        inc.repr as int,
                    );
                    lemma_base_le_total(tracks@, i as int);
                    assert(grown.repr == tracks@[i as int].base_size.repr + inc.repr);
                }
                let ghost pre = tracks@;
                tracks[i].base_size = grown;
                proof {
                    lemma_total_sum_update(pre, i as int, tracks@[i as int]);
                }
                remaining = remaining.sub(inc);
            }
            i = i + 1;
        }
    }
    // Whatever remains goes left to right, up to each cap.
    let ghost mid = tracks@;
    let mut i: usize = 0;
    while i < n
        invariant
            0 <= i <= n,
            n == tracks@.len(),
            old(tracks)@.len() == n,
            mid.len() == n,
            0 <= space.repr < INF,
            0 <= remaining.repr <= space.repr,
            spec_total_base_sum(old(tracks)@) + space.repr < INF,
            spec_total_base_sum(tracks@) == spec_total_base_sum(old(tracks)@) + space.repr
                - remaining.repr,
            forall|j: int|
                0 <= j < i && spec_growable(old(tracks)@[j], axis_available_space) ==> ((
                #[trigger] tracks@[j]).base_size.repr == old(
                    tracks,
                )@[j].spec_fit_content_limited_growth_limit(axis_available_space).repr
                    || remaining.repr == 0),
            forall|j: int|
                0 <= j < n ==> 0 <= (#[trigger] old(tracks)@[j]).base_size.repr,
            forall|j: int| 0 <= j < n ==> 0 <= (#[trigger] tracks@[j]).base_size.repr,
            forall|j: int|
                i <= j < n ==> #[trigger] tracks@[j] == mid[j],
            forall|j: int|
                0 <= j < n ==> #[trigger] mid[j] == (GridTrack {
                    base_size: mid[j].base_size,
                    ..old(tracks)@[j]
                }),
            forall|j: int|
                0 <= j < n ==> (#[trigger] mid[j]).base_size.repr >= old(
                    tracks,
                )@[j].base_size.repr,
            forall|j: int|
                0 <= j < n ==> (#[trigger] mid[j]).base_size.repr <= max_repr(
                    old(tracks)@[j].base_size.repr as int,
                    old(tracks)@[j].spec_fit_content_limited_growth_limit(
                        axis_available_space,
                    ).repr as int,
                ),
            forall|j: int|
                0 <= j < n && !spec_growable(old(tracks)@[j], axis_available_space)
                    ==> #[trigger] mid[j] == old(tracks)@[j],
            forall|j: int|
                0 <= j < i ==> #[trigger] tracks@[j] == (GridTrack {
                    base_size: tracks@[j].base_size,
                    ..old(tracks)@[j]
                }),
            forall|j: int|
                0 <= j < i ==> (#[trigger] tracks@[j]).base_size.repr >= old(
                    tracks,
                )@[j].base_size.repr,
            forall|j: int|
                0 <= j < i ==> (#[trigger] tracks@[j]).base_size.repr <= max_repr(
                    old(tracks)@[j].base_size.repr as int,
                    old(tracks)@[j].spec_fit_content_limited_growth_limit(
                        axis_available_space,
                    ).repr as int,
                ),
            forall|j: int|
                0 <= j < i && !spec_growable(old(tracks)@[j], axis_available_space)
                    ==> #[trigger] tracks@[j] == old(tracks)@[j],
        decreases n - i,
    {
        let cap = tracks[i].fit_content_limited_growth_limit(axis_available_space);
        if !tracks[i].is_flexible() && tracks[i].base_size.lt(cap) {
            let headroom = cap.sub(tracks[i].base_size);
            let inc = remaining.min(headroom);
            let grown = tracks[i].base_size.add(inc);
            proof {
                crate::unit::lemma_grow_within_cap(
                    tracks@[i as int].base_size.repr as int,
                    cap.repr as int,
                    inc.repr as int,
                );
                lemma_base_le_total(tracks@, i as int);
                assert(grown.repr == tracks@[i as int].base_size.repr + inc.repr);
            }
            let ghost pre = tracks@;
            tracks[i].base_size = grown;
            proof {
                lemma_total_sum_update(pre, i as int, tracks@[i as int]);
            }
            remaining = remaining.sub(inc);
        }
        i = i + 1;
    }
    remaining
}

/// Every partial sum of base sizes is nonnegative when every base is.
proof fn lemma_nonflex_sum_nonneg(tracks: Seq<GridTrack>)
    requires
        forall|i: int| 0 <= i < tracks.len() ==> 0 <= (#[trigger] tracks[i]).base_size.repr,
    ensures
        spec_nonflex_base_sum(tracks) >= 0,
    decreases tracks.len(),
{
    if tracks.len() > 0 {
        assert(forall|i: int|
            0 <= i < tracks.drop_first().len() ==> 0 <= (#[trigger] tracks.drop_first()[i]).base_size.repr);
        lemma_nonflex_sum_nonneg(tracks.drop_first());
    }
}

/// The sum of all base sizes is nonnegative when every base is, and no
/// single base exceeds it.
proof fn lemma_base_le_total(tracks: Seq<GridTrack>, k: int)
    requires
        forall|i: int| 0 <= i < tracks.len() ==> 0 <= (#[trigger] tracks[i]).base_size.repr,
        0 <= k < tracks.len(),
    ensures
        spec_total_base_sum(tracks) >= 0,
        tracks[k].base_size.repr <= spec_total_base_sum(tracks),
    decreases tracks.len(),
{
    assert(forall|i: int|
        0 <= i < tracks.drop_first().len() ==> 0 <= (#[trigger] tracks.drop_first()[i]).base_size.repr);
    if k == 0 {
        lemma_total_sum_nonneg(tracks.drop_first());
    } else {
        lemma_base_le_total(tracks.drop_first(), k - 1);
    }
}

/// The sum of all base sizes is nonnegative when every base is.
proof fn lemma_total_sum_nonneg(tracks: Seq<GridTrack>)
    requires
        forall|i: int| 0 <= i < tracks.len() ==> 0 <= (#[trigger] tracks[i]).base_size.repr,
    ensures
        spec_total_base_sum(tracks) >= 0,
    decreases tracks.len(),
{
    if tracks.len() > 0 {
        assert(forall|i: int|
            0 <= i < tracks.drop_first().len() ==> 0 <= (#[trigger] tracks.drop_first()[i]).base_size.repr);
        lemma_total_sum_nonneg(tracks.drop_first());
    }
}

/// The sum of the base sizes of the non-flexible tracks, exactly.
fn sum_nonflex_bases(tracks: &Vec<GridTrack>) -> (r: i128)
    requires
        tracks@.len() <= MAX_TRACK_COUNT,
    ensures
        r as int == spec_nonflex_base_sum(tracks@),
        -((tracks@.len() as int) * 0x8000_0000_0000_0000) <= r as int <= (tracks@.len() as int)
            * 0x8000_0000_0000_0000,
{
    let n = tracks.len();
    let mut sum: i128 = 0;
    let mut i: usize = 0;
    proof {
        assert(tracks@.skip(0) =~= tracks@);
    }
    while i < n
        invariant
            0 <= i <= n,
            n == tracks@.len(),
            n <= MAX_TRACK_COUNT,
            -((i as int) * 0x8000_0000_0000_0000) <= sum as int <= (i as int) * 0x8000_0000_0000_0000,
            sum as int + spec_nonflex_base_sum(tracks@.skip(i as int)) == spec_nonflex_base_sum(
                tracks@,
            ),
        decreases n - i,
    {
        proof {
            assert(tracks@.skip(i as int).drop_first() =~= tracks@.skip(i as int + 1));
            assert(tracks@.skip(i as int)[0] == tracks@[i as int]);
        }
        let head: i128 = if tracks[i].is_flexible() {
            0
        } else {
            tracks[i].base_size.repr as i128
        };
        sum = sum + head;
        i = i + 1;
    }
    proof {
        assert(tracks@.skip(n as int) =~= Seq::<GridTrack>::empty());
    }
    sum
}

/// The sum of all base sizes, exactly.
fn sum_all_bases(tracks: &Vec<GridTrack>) -> (r: i128)
    requires
        tracks@.len() <= MAX_TRACK_COUNT,
    ensures
        r as int == spec_total_base_sum(tracks@),
        -((tracks@.len() as int) * 0x8000_0000_0000_0000) <= r as int <= (tracks@.len() as int)
            * 0x8000_0000_0000_0000,
{
    let n = tracks.len();
    let mut sum: i128 = 0;
    let mut i: usize = 0;
    proof {
        assert(tracks@.skip(0) =~= tracks@);
    }
    while i < n
        invariant
            0 <= i <= n,
            n == tracks@.len(),
            n <= MAX_TRACK_COUNT,
            -((i as int) * 0x8000_0000_0000_0000) <= sum as int <= (i as int) * 0x8000_0000_0000_0000,
            sum as int + spec_total_base_sum(tracks@.skip(i as int)) == spec_total_base_sum(
                tracks@,
            ),
        decreases n - i,
    {
        proof {
            assert(tracks@.skip(i as int).drop_first() =~= tracks@.skip(i as int + 1));
            assert(tracks@.skip(i as int)[0] == tracks@[i as int]);
        }
        sum = sum + tracks[i].base_size.repr as i128;
        i = i + 1;
    }
    proof {
        assert(tracks@.skip(n as int) =~= Seq::<GridTrack>::empty());
    }
    sum
}

/// The sum of the flex factors of the flexible tracks, exactly.
fn sum_flex_factors(tracks: &Vec<GridTrack>) -> (r: i128)
    requires
        tracks@.len() <= MAX_TRACK_COUNT,
    ensures
        r as int == spec_flex_factor_sum(tracks@),
        -((tracks@.len() as int) * 0x8000_0000_0000_0000) <= r as int <= (tracks@.len() as int)
            * 0x8000_0000_0000_0000,
{
    let n = tracks.len();
    let mut sum: i128 = 0;
    let mut i: usize = 0;
    proof {
        assert(tracks@.skip(0) =~= tracks@);
    }
    while i < n
        invariant
            0 <= i <= n,
            n == tracks@.len(),
            n <= MAX_TRACK_COUNT,
            -((i as int) * 0x8000_0000_0000_0000) <= sum as int <= (i as int) * 0x8000_0000_0000_0000,
            sum as int + spec_flex_factor_sum(tracks@.skip(i as int)) == spec_flex_factor_sum(
                tracks@,
            ),
        decreases n - i,
    {
        proof {
            assert(tracks@.skip(i as int).drop_first() =~= tracks@.skip(i as int + 1));
            assert(tracks@.skip(i as int)[0] == tracks@[i as int]);
        }
        let head: i128 = match tracks[i].max_track_sizing_function {
            MaxTrackSizingFunction::Fraction(f) => f.repr as i128,
            _ => 0,
        };
        sum = sum + head;
        i = i + 1;
    }
    proof {
        assert(tracks@.skip(n as int) =~= Seq::<GridTrack>::empty());
    }
    sum
}

/// Maximize tracks: if the available space is definite and exceeds the sum
/// of the base sizes, distribute the remainder to the tracks whose growth
/// limit exceeds their base size, each capped at its fit-content-limited
/// growth limit — afterwards either the base sizes fill the available
/// space exactly, or every such track stands at its cap. Indefinite
/// available space distributes nothing here, and flexible tracks are left
/// for their own pass.
pub fn maximize_tracks(tracks: &mut Vec<GridTrack>, axis_available_grid_space: AvailableSpace)
    requires
        old(tracks)@.len() <= MAX_TRACK_COUNT,
    ensures
        (match axis_available_grid_space {
            AvailableSpace::Definite(available) => crate::unit::finite_repr(available.repr as int)
                && (forall|i: int|
                0 <= i < old(tracks)@.len() ==> 0 <= (#[trigger] old(
                    tracks,
                )@[i]).base_size.repr) && available.repr - spec_total_base_sum(old(tracks)@) > 0,
            _ => false,
        }) ==> (match axis_available_grid_space {
            AvailableSpace::Definite(available) => spec_total_base_sum(final(tracks)@)
                == available.repr || (forall|i: int|
                0 <= i < old(tracks)@.len() && spec_growable(old(tracks)@[i], Some(available))
                    ==> (#[trigger] final(tracks)@[i]).base_size.repr == old(
                    tracks,
                )@[i].spec_fit_content_limited_growth_limit(Some(available)).repr),
            _ => false,
        }),
        final(tracks)@.len() == old(tracks)@.len(),
        forall|i: int|
            0 <= i < old(tracks)@.len() ==> #[trigger] final(tracks)@[i] == (GridTrack {
                base_size: final(tracks)@[i].base_size,
                ..old(tracks)@[i]
            }),
        forall|i: int|
            0 <= i < old(tracks)@.len() ==> (#[trigger] final(tracks)@[i]).base_size.repr >= old(
                tracks,
            )@[i].base_size.repr,
        forall|i: int|
            0 <= i < old(tracks)@.len() ==> (#[trigger] final(tracks)@[i]).base_size.repr
                <= max_repr(
                old(tracks)@[i].base_size.repr as int,
                old(tracks)@[i].spec_fit_content_limited_growth_limit(
                    axis_available_grid_space.spec_into_option(),
                ).repr as int,
            ),
        forall|i: int|
            0 <= i < old(tracks)@.len() && !spec_growable(
                old(tracks)@[i],
                axis_available_grid_space.spec_into_option(),
            ) ==> #[trigger] final(tracks)@[i] == old(tracks)@[i],
        !(axis_available_grid_space is Definite) ==> final(tracks)@ == old(tracks)@,
{
    match axis_available_grid_space {
        AvailableSpace::Definite(available) => {
            if available.repr == i64::MAX || available.repr == i64::MIN {
                return ;
            }
            let n = tracks.len();
            let mut all_nonnegative = true;
            let mut i: usize = 0;
            while i < n
                invariant
                    0 <= i <= n,
                    n == tracks@.len(),
                    tracks@ == old(tracks)@,
                    all_nonnegative == (forall|j: int|
                        0 <= j < i ==> 0 <= (#[trigger] tracks@[j]).base_size.repr),
                decreases n - i,
            {
                if tracks[i].base_size.repr < 0 {
                    all_nonnegative = false;
                }
                i = i + 1;
            }
            if !all_nonnegative {
                return ;
            }
            let used_wide = sum_all_bases(tracks);
            proof {
                lemma_total_sum_nonneg(tracks@);
            }
            let free_wide = (available.repr as i128) - used_wide;
            if free_wide <= 0 {
                return ;
            }
            let free = Unit::from_subunits(free_wide as i64);
            let leftover = distribute_space_up_to_limits(tracks, free, Some(available));
            proof {
                if leftover.repr == 0 {
                    assert(spec_total_base_sum(tracks@) == available.repr);
                }
            }
        },
        _ => {},
    }
}


/// Whether the inputs to flexible expansion are sane: definite finite
/// available space, every base size a nonnegative finite number, every
/// flex factor a nonnegative finite number, a positive finite total flex
/// factor, and space left over beyond the non-flexible base sizes.
pub open spec fn spec_flex_expansion_applies(tracks: Seq<GridTrack>, available: Unit) -> bool {
    &&& crate::unit::finite_repr(available.repr as int)
    &&& forall|i: int|
        0 <= i < tracks.len() ==> 0 <= (#[trigger] tracks[i]).base_size.repr < INF
    &&& forall|i: int|
        0 <= i < tracks.len() ==> match (#[trigger] tracks[i]).max_track_sizing_function {
            MaxTrackSizingFunction::Fraction(f) => 0 <= f.repr < INF,
            _ => true,
        }
    &&& 0 < spec_flex_factor_sum(tracks) < INF
    &&& available.repr - spec_nonflex_base_sum(tracks) > 0
}

/// The candidate flex-fraction size of the first expansion round: the
/// space left beyond the non-flexible base sizes, divided by the total
/// flex factor.
pub open spec fn spec_first_round_fr(tracks: Seq<GridTrack>, available: Unit) -> Unit {
    Unit {
        repr: crate::unit::spec_div(
            available.repr - spec_nonflex_base_sum(tracks),
            spec_flex_factor_sum(tracks),
        ) as i64,
    }
}

/// Whether no flexible track's proportional share falls below its own
/// base size, so that no track need be frozen at its minimum.
pub open spec fn spec_no_flex_freeze(tracks: Seq<GridTrack>, fr: Unit) -> bool {
    forall|i: int|
        0 <= i < tracks.len() ==> match (#[trigger] tracks[i]).max_track_sizing_function {
            MaxTrackSizingFunction::Fraction(f) => fr.spec_times(f).repr >= tracks[i].base_size.repr,
            _ => true,
        }
}

/// Expand flexible tracks: tracks with a fractional max sizing function
/// receive the remaining definite space in proportion to their flex
/// factors, by the standard iterative procedure: compute a candidate
/// flex-fraction size from the remaining space divided by the remaining
/// flex factor sum, freeze any flexible track whose resulting size would
/// fall below its own base size (treating it as non-flexible with that
/// base), and repeat until no more tracks freeze. Returns the used
/// flex-fraction size. Indefinite available space expands nothing.
pub fn expand_flexible_tracks(tracks: &mut Vec<GridTrack>, axis_available_space: AvailableSpace) -> (r:
    Unit)
    requires
        old(tracks)@.len() <= MAX_TRACK_COUNT,
    ensures
        final(tracks)@.len() == old(tracks)@.len(),
        forall|i: int|
            0 <= i < old(tracks)@.len() && !((#[trigger] old(tracks)@[i]).max_track_sizing_function
                is Fraction) ==> final(tracks)@[i] == old(tracks)@[i],
        forall|i: int|
            0 <= i < old(tracks)@.len() && (#[trigger] old(tracks)@[i]).max_track_sizing_function
                is Fraction ==> final(tracks)@[i] == (GridTrack {
                base_size: final(tracks)@[i].base_size,
                ..old(tracks)@[i]
            }) && (final(tracks)@[i].base_size == old(tracks)@[i].base_size || final(tracks)@[i].base_size == r.spec_times(
                match old(tracks)@[i].max_track_sizing_function {
                    MaxTrackSizingFunction::Fraction(f) => f,
                    _ => Unit { repr: 0 },
                },
            )),
        !(axis_available_space is Definite) ==> final(tracks)@ == old(tracks)@ && r.repr == 0,
        (match axis_available_space {
            AvailableSpace::Definite(available) => spec_flex_expansion_applies(
                old(tracks)@,
                available,
            ) && spec_no_flex_freeze(old(tracks)@, spec_first_round_fr(old(tracks)@, available)),
            _ => false,
        }) ==> (match axis_available_space {
            AvailableSpace::Definite(available) => r == spec_first_round_fr(
                old(tracks)@,
                available,
            ) && forall|i: int|
                0 <= i < old(tracks)@.len() ==> match (#[trigger] old(
                    tracks,
                )@[i]).max_track_sizing_function {
                    MaxTrackSizingFunction::Fraction(f) => final(tracks)@[i].base_size
                        == r.spec_times(f),
                    _ => true,
                },
            _ => false,
        }),
{
    let n = tracks.len();
    let available = match axis_available_space {
        AvailableSpace::Definite(a) => a,
        _ => {
            return Unit::zero();
        },
    };
    if available.repr == i64::MAX || available.repr == i64::MIN {
        return Unit::zero();
    }
    // Sanity scan: nonnegative finite bases and flex factors.
    let mut sane = true;
    let mut i: usize = 0;
    while i < n
        invariant
            0 <= i <= n,
            n == tracks@.len(),
            tracks@ == old(tracks)@,
            sane == ((forall|j: int|
                0 <= j < i ==> 0 <= (#[trigger] tracks@[j]).base_size.repr < INF) && (forall|j: int|
                0 <= j < i ==> match (#[trigger] tracks@[j]).max_track_sizing_function {
                    MaxTrackSizingFunction::Fraction(f) => 0 <= f.repr < INF,
                    _ => true,
                })),
        decreases n - i,
    {
        if tracks[i].base_size.repr < 0 || tracks[i].base_size.repr == i64::MAX {
            sane = false;
        }
        let factor = tracks[i].flex_factor();
        if tracks[i].is_flexible() && (factor.repr < 0 || factor.repr == i64::MAX) {
            sane = false;
        }
        i = i + 1;
    }
    if !sane {
        return Unit::zero();
    }
    let flex_sum_wide = sum_flex_factors(tracks);
    let nonflex_wide = sum_nonflex_bases(tracks);
    proof {
        lemma_nonflex_sum_nonneg(tracks@);
    }
    if flex_sum_wide <= 0 || flex_sum_wide >= INF as i128 {
        return Unit::zero();
    }
    let leftover_wide = (available.repr as i128) - nonflex_wide;
    if leftover_wide <= 0 {
        return Unit::zero();
    }
    let leftover = Unit::from_subunits(leftover_wide as i64);
    let flex_sum = Unit::from_subunits(flex_sum_wide as i64);
    let fr0 = leftover.div(flex_sum);

    // First round: if no flexible track's share falls below its base size,
    // every flexible track takes exactly its proportional share.
    let mut any_frozen = false;
    let mut i: usize = 0;
    while i < n
        invariant
            0 <= i <= n,
            n == tracks@.len(),
            tracks@ == old(tracks)@,
            !any_frozen ==> (forall|j: int|
                0 <= j < i ==> match (#[trigger] tracks@[j]).max_track_sizing_function {
                    MaxTrackSizingFunction::Fraction(f) => fr0.spec_times(f).repr
                        >= tracks@[j].base_size.repr,
                    _ => true,
                }),
            any_frozen ==> !spec_no_flex_freeze(tracks@, fr0),
        decreases n - i,
    {
        if tracks[i].is_flexible() {
            let factor = tracks[i].flex_factor();
            if fr0.mul(factor).lt(tracks[i].base_size) {
                any_frozen = true;
            }
        }
        i = i + 1;
    }
    if !any_frozen {
        apply_flex_fraction(tracks, fr0, n);
        return fr0;
    }

    // Later rounds: freeze minimums and re-derive the flex fraction until
    // the shares cover every unfrozen track's base size.
    let mut frozen: Vec<bool> = Vec::new();
    let mut i: usize = 0;
    while i < n
        invariant
            0 <= i <= n,
            frozen@.len() == i,
        decreases n - i,
    {
        frozen.push(false);
        i = i + 1;
    }
    let mut rounds: usize = 0;
    while rounds < n
        invariant
            n == tracks@.len(),
            n <= MAX_TRACK_COUNT,
            tracks@ == old(tracks)@,
            frozen@.len() == n,
            axis_available_space == AvailableSpace::Definite(available),
            !(spec_flex_expansion_applies(old(tracks)@, available) && spec_no_flex_freeze(
                old(tracks)@,
                spec_first_round_fr(old(tracks)@, available),
            )),
        decreases n - rounds,
    {
        // The frozen flexible tracks keep their base sizes and count as
        // non-flexible for this round's computation.
        let mut used_wide: i128 = 0;
        let mut flex_wide: i128 = 0;
        let mut i: usize = 0;
        while i < n
            invariant
                0 <= i <= n,
                n == tracks@.len(),
                n <= MAX_TRACK_COUNT,
                tracks@ == old(tracks)@,
                frozen@.len() == n,
                -((i as int) * 0x8000_0000_0000_0000) <= used_wide as int <= (i as int)
                    * 0x8000_0000_0000_0000,
                -((i as int) * 0x8000_0000_0000_0000) <= flex_wide as int <= (i as int)
                    * 0x8000_0000_0000_0000,
            decreases n - i,
        {
            if tracks[i].is_flexible() && !frozen[i] {
                flex_wide = flex_wide + tracks[i].flex_factor().repr as i128;
            } else {
                used_wide = used_wide + tracks[i].base_size.repr as i128;
            }
            i = i + 1;
        }
        if flex_wide <= 0 {
            return Unit::zero();
        }
        let leftover_wide = (available.repr as i128) - used_wide;
        if leftover_wide <= 0 {
            return Unit::zero();
        }
        let leftover = if leftover_wide >= INF as i128 {
            Unit::infinity()
        } else {
            Unit::from_subunits(leftover_wide as i64)
        };
        let flex_part = if flex_wide >= INF as i128 {
            Unit::infinity()
        } else {
            Unit::from_subunits(flex_wide as i64)
        };
        let fr = leftover.div(flex_part);
        let mut froze_now = false;
        let mut i: usize = 0;
        while i < n
            invariant
                0 <= i <= n,
                n == tracks@.len(),
                tracks@ == old(tracks)@,
                frozen@.len() == n,
                axis_available_space == AvailableSpace::Definite(available),
                !(spec_flex_expansion_applies(old(tracks)@, available) && spec_no_flex_freeze(
                    old(tracks)@,
                    spec_first_round_fr(old(tracks)@, available),
                )),
            decreases n - i,
        {
            if tracks[i].is_flexible() && !frozen[i] {
                let factor = tracks[i].flex_factor();
                if fr.mul(factor).lt(tracks[i].base_size) {
                    frozen[i] = true;
                    froze_now = true;
                }
            }
            i = i + 1;
        }
        if !froze_now {
            apply_flex_fraction_unfrozen(tracks, &frozen, fr, n);
            return fr;
        }
        rounds = rounds + 1;
    }
    Unit::zero()
}

/// Set every flexible track's base size to its proportional share of the
/// flex-fraction size.
fn apply_flex_fraction(tracks: &mut Vec<GridTrack>, fr: Unit, n: usize)
    requires
        n == old(tracks)@.len(),
    ensures
        final(tracks)@.len() == old(tracks)@.len(),
        forall|i: int|
            0 <= i < old(tracks)@.len() ==> match (#[trigger] old(
                tracks,
            )@[i]).max_track_sizing_function {
                MaxTrackSizingFunction::Fraction(f) => final(tracks)@[i] == (GridTrack {
                    base_size: fr.spec_times(f),
                    ..old(tracks)@[i]
                }),
                _ => final(tracks)@[i] == old(tracks)@[i],
            },
{
    let mut i: usize = 0;
    while i < n
        invariant
            0 <= i <= n,
            n == tracks@.len(),
            old(tracks)@.len() == n,
            forall|j: int|
                i <= j < n ==> #[trigger] tracks@[j] == old(tracks)@[j],
            forall|j: int|
                0 <= j < i ==> match (#[trigger] old(tracks)@[j]).max_track_sizing_function {
                    MaxTrackSizingFunction::Fraction(f) => tracks@[j] == (GridTrack {
                        base_size: fr.spec_times(f),
                        ..old(tracks)@[j]
                    }),
                    _ => tracks@[j] == old(tracks)@[j],
                },
        decreases n - i,
    {
        match tracks[i].max_track_sizing_function {
            MaxTrackSizingFunction::Fraction(f) => {
                let share = fr.mul(f);
                tracks[i].base_size = share;
            },
            _ => {},
        }
        i = i + 1;
    }
}

/// Set every unfrozen flexible track's base size to its proportional share
/// of the flex-fraction size; frozen tracks keep their base sizes.
fn apply_flex_fraction_unfrozen(tracks: &mut Vec<GridTrack>, frozen: &Vec<bool>, fr: Unit, n: usize)
    requires
        n == old(tracks)@.len(),
        frozen@.len() == n,
    ensures
        final(tracks)@.len() == old(tracks)@.len(),
        forall|i: int|
            0 <= i < old(tracks)@.len() ==> match (#[trigger] old(
                tracks,
            )@[i]).max_track_sizing_function {
                MaxTrackSizingFunction::Fraction(f) => final(tracks)@[i] == (GridTrack {
                    base_size: final(tracks)@[i].base_size,
                    ..old(tracks)@[i]
                }) && (final(tracks)@[i].base_size == old(tracks)@[i].base_size || final(tracks)@[i].base_size == fr.spec_times(f)),
                _ => final(tracks)@[i] == old(tracks)@[i],
            },
{
    let mut i: usize = 0;
    while i < n
        invariant
            0 <= i <= n,
            n == tracks@.len(),
            old(tracks)@.len() == n,
            frozen@.len() == n,
            forall|j: int|
                i <= j < n ==> #[trigger] tracks@[j] == old(tracks)@[j],
            forall|j: int|
                0 <= j < i ==> match (#[trigger] old(tracks)@[j]).max_track_sizing_function {
                    MaxTrackSizingFunction::Fraction(f) => tracks@[j] == (GridTrack {
                        base_size: tracks@[j].base_size,
                        ..old(tracks)@[j]
                    }) && (tracks@[j].base_size == old(tracks)@[j].base_size || tracks@[j].base_size
                        == fr.spec_times(f)),
                    _ => tracks@[j] == old(tracks)@[j],
                },
        decreases n - i,
    {
        if !frozen[i] {
            match tracks[i].max_track_sizing_function {
                MaxTrackSizingFunction::Fraction(f) => {
                    let share = fr.mul(f);
                    tracks[i].base_size = share;
                },
                _ => {},
            }
        }
        i = i + 1;
    }
}


/// How many tracks have an automatic max sizing function.
pub open spec fn spec_auto_count(tracks: Seq<GridTrack>) -> int
    decreases tracks.len(),
{
    if tracks.len() == 0 {
        0
    } else {
        let head: int = if tracks[0].max_track_sizing_function is Auto {
            1
        } else {
            0
        };
        head + spec_auto_count(tracks.drop_first())
    }
}

/// Whether the stretch pass distributes anything: definite finite
/// available space, nonnegative finite base sizes, at least one auto
/// track, and free space left beyond the sum of all base sizes.
pub open spec fn spec_stretch_applies(tracks: Seq<GridTrack>, available: Unit) -> bool {
    &&& crate::unit::finite_repr(available.repr as int)
    &&& forall|i: int|
        0 <= i < tracks.len() ==> 0 <= (#[trigger] tracks[i]).base_size.repr < INF
    &&& spec_auto_count(tracks) > 0
    &&& available.repr - spec_total_base_sum(tracks) > 0
}

/// The equal share each auto track receives from the stretch pass.
pub open spec fn spec_auto_share(tracks: Seq<GridTrack>, available: Unit) -> int {
    (available.repr - spec_total_base_sum(tracks)) / spec_auto_count(tracks)
}

/// Stretch auto tracks: when the container has definite extra space and
/// auto-sized tracks remain, distribute the remaining space equally across
/// them to fill the container.
pub fn stretch_auto_tracks(tracks: &mut Vec<GridTrack>, axis_available_space: AvailableSpace)
    requires
        old(tracks)@.len() <= MAX_TRACK_COUNT,
    ensures
        final(tracks)@.len() == old(tracks)@.len(),
        forall|i: int|
            0 <= i < old(tracks)@.len() && !((#[trigger] old(tracks)@[i]).max_track_sizing_function
                is Auto) ==> final(tracks)@[i] == old(tracks)@[i],
        forall|i: int|
            0 <= i < old(tracks)@.len() && (#[trigger] old(tracks)@[i]).max_track_sizing_function
                is Auto ==> final(tracks)@[i] == (GridTrack {
                base_size: final(tracks)@[i].base_size,
                ..old(tracks)@[i]
            }) && final(tracks)@[i].base_size.repr >= old(tracks)@[i].base_size.repr,
        !(axis_available_space is Definite) ==> final(tracks)@ == old(tracks)@,
        (match axis_available_space {
            AvailableSpace::Definite(available) => spec_stretch_applies(old(tracks)@, available),
            _ => false,
        }) ==> (match axis_available_space {
            AvailableSpace::Definite(available) => forall|i: int|
                0 <= i < old(tracks)@.len() && (#[trigger] old(
                    tracks,
                )@[i]).max_track_sizing_function is Auto ==> final(tracks)@[i].base_size.repr
                    as int == old(tracks)@[i].base_size.repr + spec_auto_share(
                    old(tracks)@,
                    available,
                ),
            _ => false,
        }),
{
    let n = tracks.len();
    let available = match axis_available_space {
        AvailableSpace::Definite(a) => a,
        _ => {
            return ;
        },
    };
    if available.repr == i64::MAX || available.repr == i64::MIN {
        return ;
    }
    // Sanity scan and auto-track count.
    let mut sane = true;
    let mut count: u64 = 0;
    let mut i: usize = 0;
    proof {
        assert(tracks@.skip(0) =~= tracks@);
    }
    while i < n
        invariant
            0 <= i <= n,
            n == tracks@.len(),
            tracks@ == old(tracks)@,
            count <= i,
            sane == (forall|j: int|
                0 <= j < i ==> 0 <= (#[trigger] tracks@[j]).base_size.repr < INF),
            count as int + spec_auto_count(tracks@.skip(i as int)) == spec_auto_count(tracks@),
        decreases n - i,
    {
        proof {
            assert(tracks@.skip(i as int).drop_first() =~= tracks@.skip(i as int + 1));
            assert(tracks@.skip(i as int)[0] == tracks@[i as int]);
        }
        if tracks[i].base_size.repr < 0 || tracks[i].base_size.repr == i64::MAX {
            sane = false;
        }
        match tracks[i].max_track_sizing_function {
            MaxTrackSizingFunction::Auto => {
                count = count + 1;
            },
            _ => {},
        }
        i = i + 1;
    }
    proof {
        assert(tracks@.skip(n as int) =~= Seq::<GridTrack>::empty());
    }
    if !sane || count == 0 {
        return ;
    }
    let total_wide = sum_all_bases(tracks);
    proof {
        lemma_total_sum_nonneg(tracks@);
    }
    let free_wide = (available.repr as i128) - total_wide;
    if free_wide <= 0 {
        return ;
    }
    let free: u64 = free_wide as u64;
    let share_repr: u64 = free / count;
    let share = Unit::from_subunits(share_repr as i64);
    proof {
        assert(share.repr as int == spec_auto_share(tracks@, available)) by (nonlinear_arith)
            requires
                share.repr as int == (free as int) / (count as int),
                free as int == available.repr - spec_total_base_sum(tracks@),
                count as int == spec_auto_count(tracks@),
                count >= 1,
                spec_auto_share(tracks@, available) == (available.repr - spec_total_base_sum(
                    tracks@,
                )) / spec_auto_count(tracks@),
        ;
        assert(0 <= share.repr <= free as int) by (nonlinear_arith)
            requires
                share.repr as int == (free as int) / (count as int),
                count >= 1,
                free >= 0,
        ;
    }
    let ghost before = tracks@;
    let mut i: usize = 0;
    while i < n
        invariant
            0 <= i <= n,
            n == tracks@.len(),
            before.len() == n,
            before == old(tracks)@,
            0 <= share.repr,
            (share.repr as int) + spec_total_base_sum(before) <= available.repr < INF,
            forall|j: int| 0 <= j < n ==> 0 <= (#[trigger] before[j]).base_size.repr < INF,
            forall|j: int|
                i <= j < n ==> #[trigger] tracks@[j] == before[j],
            forall|j: int|
                0 <= j < i && !((#[trigger] before[j]).max_track_sizing_function is Auto)
                    ==> tracks@[j] == before[j],
            forall|j: int|
                0 <= j < i && (#[trigger] before[j]).max_track_sizing_function is Auto
                    ==> tracks@[j] == (GridTrack {
                    base_size: Unit { repr: (before[j].base_size.repr + share.repr) as i64 },
                    ..before[j]
                }),
        decreases n - i,
    {
        match tracks[i].max_track_sizing_function {
            MaxTrackSizingFunction::Auto => {
                proof {
                    lemma_base_le_total(before, i as int);
                }
                let grown = tracks[i].base_size.add(share);
                tracks[i].base_size = grown;
            },
            _ => {},
        }
        i = i + 1;
    }
    proof {
        assert forall|j: int|
            0 <= j < n && (#[trigger] before[j]).max_track_sizing_function
                is Auto implies tracks@[j].base_size.repr as int == before[j].base_size.repr
            + share.repr by {
            lemma_base_le_total(before, j);
        }
    }
}

/// One grid item as the track-sizing algorithm sees it: the range of
/// tracks it spans (gutters included), and its content contributions under
/// the minimum- and maximum-content constraints, as measured by the item's
/// own layout algorithm.
#[derive(Copy, Clone, Debug, PartialEq, Eq, Structural)]
pub struct GridItem {
    /// The index of the first spanned track.
    pub span_start: usize,
    /// One past the index of the last spanned track.
    pub span_end: usize,
    /// The item's size under a minimum-content constraint.
    pub min_content_contribution: Unit,
    /// The item's size under a maximum-content constraint.
    pub max_content_contribution: Unit,
}

/// The first spanned track of an item, clamped to the track list.
pub open spec fn spec_span_lo(item: GridItem, n: int) -> int {
    if item.span_start as int <= n {
        item.span_start as int
    } else {
        n
    }
}

/// One past the last spanned track of an item, clamped to the track list.
pub open spec fn spec_span_hi(item: GridItem, n: int) -> int {
    if item.span_end as int <= n {
        item.span_end as int
    } else {
        n
    }
}

/// The growth limit a track offers during content sizing: an infinite
/// growth limit counts as the base size.
pub open spec fn spec_entry_limit(t: GridTrack) -> int {
    if t.growth_limit.repr == INF {
        t.base_size.repr as int
    } else {
        t.growth_limit.repr as int
    }
}

/// The sum of the base sizes over a track range.
pub open spec fn spec_span_base_sum(tracks: Seq<GridTrack>, lo: int, hi: int) -> int
    decreases hi - lo,
{
    if !(0 <= lo < hi <= tracks.len()) {
        0
    } else {
        tracks[lo].base_size.repr + spec_span_base_sum(tracks, lo + 1, hi)
    }
}

/// The sum of the entry growth limits over a track range.
pub open spec fn spec_span_limit_sum(tracks: Seq<GridTrack>, lo: int, hi: int) -> int
    decreases hi - lo,
{
    if !(0 <= lo < hi <= tracks.len()) {
        0
    } else {
        spec_entry_limit(tracks[lo]) + spec_span_limit_sum(tracks, lo + 1, hi)
    }
}

/// How many tracks of a range have an intrinsic min sizing function.
pub open spec fn spec_min_recipient_count(tracks: Seq<GridTrack>, lo: int, hi: int) -> int
    decreases hi - lo,
{
    if !(0 <= lo < hi <= tracks.len()) {
        0
    } else {
        let head: int = if tracks[lo].min_track_sizing_function.is_intrinsic_spec() {
            1
        } else {
            0
        };
        head + spec_min_recipient_count(tracks, lo + 1, hi)
    }
}

/// The base sizes of the range's intrinsic-min tracks, summed: the
/// existing space a minimum-content shortfall distributes against.
pub open spec fn spec_min_recipient_base_sum(tracks: Seq<GridTrack>, lo: int, hi: int) -> int
    decreases hi - lo,
{
    if !(0 <= lo < hi <= tracks.len()) {
        0
    } else {
        let head: int = if tracks[lo].min_track_sizing_function.is_intrinsic_spec() {
            tracks[lo].base_size.repr as int
        } else {
            0
        };
        head + spec_min_recipient_base_sum(tracks, lo + 1, hi)
    }
}

/// How many tracks of a range have an intrinsic max sizing function.
pub open spec fn spec_max_recipient_count(tracks: Seq<GridTrack>, lo: int, hi: int) -> int
    decreases hi - lo,
{
    if !(0 <= lo < hi <= tracks.len()) {
        0
    } else {
        let head: int = if tracks[lo].max_track_sizing_function.is_intrinsic_spec() {
            1
        } else {
            0
        };
        head + spec_max_recipient_count(tracks, lo + 1, hi)
    }
}

/// The entry growth limits of the range's intrinsic-max tracks, summed.
pub open spec fn spec_max_recipient_limit_sum(tracks: Seq<GridTrack>, lo: int, hi: int) -> int
    decreases hi - lo,
{
    if !(0 <= lo < hi <= tracks.len()) {
        0
    } else {
        let head: int = if tracks[lo].max_track_sizing_function.is_intrinsic_spec() {
            spec_entry_limit(tracks[lo])
        } else {
            0
        };
        head + spec_max_recipient_limit_sum(tracks, lo + 1, hi)
    }
}

/// Whether a spanned range is usable for distribution: nonnegative finite
/// base sizes, and growth limits either infinite or nonnegative finite.
pub open spec fn spec_span_sane(tracks: Seq<GridTrack>, lo: int, hi: int) -> bool {
    forall|i: int|
        lo <= i < hi && 0 <= i < tracks.len() ==> 0 <= (#[trigger] tracks[i]).base_size.repr < INF
            && (tracks[i].growth_limit.repr == INF || 0 <= tracks[i].growth_limit.repr < INF)
}

/// The base-size increase one item plans for one track: the item's
/// minimum-content shortfall beyond the spanned base sizes, distributed
/// over the spanned tracks with an intrinsic min sizing function in
/// proportion to their existing base sizes — equally when they have none.
/// An item with no usable span, no shortfall, or no intrinsic track to
/// grow plans nothing.
pub open spec fn spec_item_min_share(tracks: Seq<GridTrack>, item: GridItem, i: int) -> int {
    let n = tracks.len() as int;
    let lo = spec_span_lo(item, n);
    let hi = spec_span_hi(item, n);
    let count = spec_min_recipient_count(tracks, lo, hi);
    let shortfall = item.min_content_contribution.repr - spec_span_base_sum(tracks, lo, hi);
    if !(lo <= i < hi) || !tracks[i].min_track_sizing_function.is_intrinsic_spec()
        || !spec_span_sane(tracks, lo, hi) || !(0 <= item.min_content_contribution.repr < INF)
        || shortfall <= 0 || count <= 0 {
        0
    } else {
        let existing = spec_min_recipient_base_sum(tracks, lo, hi);
        if existing > 0 {
            shortfall * tracks[i].base_size.repr / existing
        } else {
            shortfall / count
        }
    }
}

/// The growth-limit increase one item plans for one track: its
/// maximum-content shortfall beyond the spanned entry growth limits,
/// distributed over the intrinsic-max tracks in proportion to those limits.
pub open spec fn spec_item_max_share(tracks: Seq<GridTrack>, item: GridItem, i: int) -> int {
    let n = tracks.len() as int;
    let lo = spec_span_lo(item, n);
    let hi = spec_span_hi(item, n);
    let count = spec_max_recipient_count(tracks, lo, hi);
    let shortfall = item.max_content_contribution.repr - spec_span_limit_sum(tracks, lo, hi);
    if !(lo <= i < hi) || !tracks[i].max_track_sizing_function.is_intrinsic_spec()
        || !spec_span_sane(tracks, lo, hi) || !(0 <= item.max_content_contribution.repr < INF)
        || shortfall <= 0 || count <= 0 {
        0
    } else {
        let existing = spec_max_recipient_limit_sum(tracks, lo, hi);
        if existing > 0 {
            shortfall * spec_entry_limit(tracks[i]) / existing
        } else {
            shortfall / count
        }
    }
}

/// The planned base-size increase of one track: the largest share any item
/// plans for it.
pub open spec fn spec_planned_min_increase(tracks: Seq<GridTrack>, items: Seq<GridItem>, i: int) -> int
    decreases items.len(),
{
    if items.len() == 0 {
        0
    } else {
        max_repr(
            spec_planned_min_increase(tracks, items.drop_last(), i),
            spec_item_min_share(tracks, items.last(), i),
        )
    }
}

/// The planned growth-limit increase of one track: the largest share any
/// item plans for it.
pub open spec fn spec_planned_max_increase(tracks: Seq<GridTrack>, items: Seq<GridItem>, i: int) -> int
    decreases items.len(),
{
    if items.len() == 0 {
        0
    } else {
        max_repr(
            spec_planned_max_increase(tracks, items.drop_last(), i),
            spec_item_max_share(tracks, items.last(), i),
        )
    }
}

/// What the content pass gives one track: the base size grows by the
/// track's planned increase; the growth limit grows by its own, an
/// infinite one restarting from the grown base size and marking the track
/// infinitely growable; the scratch accumulators end the pass zeroed.
pub open spec fn spec_content_sized(tracks: Seq<GridTrack>, items: Seq<GridItem>, i: int) -> GridTrack {
    let t = tracks[i];
    let bp = spec_planned_min_increase(tracks, items, i);
    let gp = spec_planned_max_increase(tracks, items, i);
    let new_base = crate::unit::spec_add(t.base_size.repr as int, bp);
    let new_growth = if gp <= 0 {
        t.growth_limit.repr as int
    } else if t.growth_limit.repr == INF {
        crate::unit::spec_add(new_base, gp)
    } else {
        crate::unit::spec_add(t.growth_limit.repr as int, gp)
    };
    GridTrack {
        base_size: Unit { repr: new_base as i64 },
        growth_limit: Unit { repr: new_growth as i64 },
        infinitely_growable: t.infinitely_growable || (t.growth_limit.repr == INF && gp > 0),
        item_incurred_increase: Unit { repr: 0 },
        base_size_planned_increase: Unit { repr: 0 },
        growth_limit_planned_increase: Unit { repr: 0 },
        ..t
    }
}

/// An element of a recipient sum never exceeds the sum, and the sum is
/// nonnegative, since a sane range has only nonnegative summands.
proof fn lemma_min_recipient_base_le_sum(tracks: Seq<GridTrack>, lo: int, hi: int, i: int)
    requires
        spec_span_sane(tracks, lo, hi),
        0 <= lo <= hi <= tracks.len(),
    ensures
        spec_min_recipient_base_sum(tracks, lo, hi) >= 0,
        lo <= i < hi && tracks[i].min_track_sizing_function.is_intrinsic_spec()
            ==> tracks[i].base_size.repr <= spec_min_recipient_base_sum(tracks, lo, hi),
    decreases hi - lo,
{
    if lo < hi {
        lemma_min_recipient_base_le_sum(tracks, lo + 1, hi, i);
    }
}

/// The same for the intrinsic-max recipients and their entry limits.
proof fn lemma_max_recipient_limit_le_sum(tracks: Seq<GridTrack>, lo: int, hi: int, i: int)
    requires
        spec_span_sane(tracks, lo, hi),
        0 <= lo <= hi <= tracks.len(),
    ensures
        spec_max_recipient_limit_sum(tracks, lo, hi) >= 0,
        lo <= i < hi && tracks[i].max_track_sizing_function.is_intrinsic_spec()
            ==> spec_entry_limit(tracks[i]) <= spec_max_recipient_limit_sum(tracks, lo, hi),
    decreases hi - lo,
{
    if lo < hi {
        lemma_max_recipient_limit_le_sum(tracks, lo + 1, hi, i);
    }
}

/// A proportional share of a shortfall never exceeds the shortfall: the
/// part is at most the whole.
proof fn lemma_proportional_share_bound(s: int, b: int, e: int)
    requires
        0 <= s,
        0 <= b <= e,
        1 <= e,
    ensures
        0 <= s * b / e <= s,
{
    vstd::arithmetic::mul::lemma_mul_inequality(b, e, s);
    assert(s * b == b * s) by (nonlinear_arith);
    assert(s * e == e * s) by (nonlinear_arith);
    vstd::arithmetic::div_mod::lemma_div_is_ordered(s * b, s * e, e);
    vstd::arithmetic::div_mod::lemma_div_multiples_vanish(s, e);
    assert(0 <= s * b) by (nonlinear_arith)
        requires
            0 <= s && 0 <= b,
    ;
    vstd::arithmetic::div_mod::lemma_div_pos_is_pos(s * b, e);
}

/// Every item share lies in the representable nonnegative range.
proof fn lemma_item_min_share_bounds(tracks: Seq<GridTrack>, item: GridItem, i: int)
    ensures
        0 <= spec_item_min_share(tracks, item, i) < INF,
{
    let n = tracks.len() as int;
    let lo = spec_span_lo(item, n);
    let hi = spec_span_hi(item, n);
    let count = spec_min_recipient_count(tracks, lo, hi);
    let shortfall = item.min_content_contribution.repr - spec_span_base_sum(tracks, lo, hi);
    if lo <= i < hi && tracks[i].min_track_sizing_function.is_intrinsic_spec()
        && spec_span_sane(tracks, lo, hi) && 0 <= item.min_content_contribution.repr < INF
        && shortfall > 0 && count > 0 {
        lemma_sane_span_sums_nonneg(tracks, lo, hi);
        assert(shortfall < INF);
        let existing = spec_min_recipient_base_sum(tracks, lo, hi);
        lemma_min_recipient_base_le_sum(tracks, lo, hi, i);
        if existing > 0 {
            lemma_proportional_share_bound(shortfall, tracks[i].base_size.repr as int, existing);
        } else {
            vstd::arithmetic::div_mod::lemma_div_pos_is_pos(shortfall, count);
            vstd::arithmetic::div_mod::lemma_div_is_ordered_by_denominator(shortfall, 1, count);
            assert(shortfall / 1 == shortfall) by (nonlinear_arith);
        }
    }
}

/// Every item share lies in the representable nonnegative range.
proof fn lemma_item_max_share_bounds(tracks: Seq<GridTrack>, item: GridItem, i: int)
    ensures
        0 <= spec_item_max_share(tracks, item, i) < INF,
{
    let n = tracks.len() as int;
    let lo = spec_span_lo(item, n);
    let hi = spec_span_hi(item, n);
    let count = spec_max_recipient_count(tracks, lo, hi);
    let shortfall = item.max_content_contribution.repr - spec_span_limit_sum(tracks, lo, hi);
    if lo <= i < hi && tracks[i].max_track_sizing_function.is_intrinsic_spec()
        && spec_span_sane(tracks, lo, hi) && 0 <= item.max_content_contribution.repr < INF
        && shortfall > 0 && count > 0 {
        lemma_sane_span_sums_nonneg(tracks, lo, hi);
        assert(shortfall < INF);
        let existing = spec_max_recipient_limit_sum(tracks, lo, hi);
        lemma_max_recipient_limit_le_sum(tracks, lo, hi, i);
        assert(spec_entry_limit(tracks[i]) >= 0);
        if existing > 0 {
            lemma_proportional_share_bound(shortfall, spec_entry_limit(tracks[i]), existing);
        } else {
            vstd::arithmetic::div_mod::lemma_div_pos_is_pos(shortfall, count);
            vstd::arithmetic::div_mod::lemma_div_is_ordered_by_denominator(shortfall, 1, count);
            assert(shortfall / 1 == shortfall) by (nonlinear_arith);
        }
    }
}

/// A planned increase lies in the representable nonnegative range.
proof fn lemma_planned_min_bounds(tracks: Seq<GridTrack>, items: Seq<GridItem>, i: int)
    ensures
        0 <= spec_planned_min_increase(tracks, items, i) < INF,
    decreases items.len(),
{
    if items.len() > 0 {
        lemma_planned_min_bounds(tracks, items.drop_last(), i);
        lemma_item_min_share_bounds(tracks, items.last(), i);
    }
}

/// A planned increase lies in the representable nonnegative range.
proof fn lemma_planned_max_bounds(tracks: Seq<GridTrack>, items: Seq<GridItem>, i: int)
    ensures
        0 <= spec_planned_max_increase(tracks, items, i) < INF,
    decreases items.len(),
{
    if items.len() > 0 {
        lemma_planned_max_bounds(tracks, items.drop_last(), i);
        lemma_item_max_share_bounds(tracks, items.last(), i);
    }
}

/// A track whose min sizing function is not intrinsic is planned nothing.
proof fn lemma_planned_min_zero(tracks: Seq<GridTrack>, items: Seq<GridItem>, i: int)
    requires
        0 <= i < tracks.len(),
        !tracks[i].min_track_sizing_function.is_intrinsic_spec(),
    ensures
        spec_planned_min_increase(tracks, items, i) == 0,
    decreases items.len(),
{
    if items.len() > 0 {
        lemma_planned_min_zero(tracks, items.drop_last(), i);
    }
}

/// A track whose max sizing function is not intrinsic is planned nothing.
proof fn lemma_planned_max_zero(tracks: Seq<GridTrack>, items: Seq<GridItem>, i: int)
    requires
        0 <= i < tracks.len(),
        !tracks[i].max_track_sizing_function.is_intrinsic_spec(),
    ensures
        spec_planned_max_increase(tracks, items, i) == 0,
    decreases items.len(),
{
    if items.len() > 0 {
        lemma_planned_max_zero(tracks, items.drop_last(), i);
    }
}


/// When an item's minimum-content shortfall does not call for growth, it
/// plans nothing for any track.
proof fn lemma_item_min_share_all_zero(tracks: Seq<GridTrack>, item: GridItem)
    requires
        ({
            let n = tracks.len() as int;
            let lo = spec_span_lo(item, n);
            let hi = spec_span_hi(item, n);
            lo >= hi || !spec_span_sane(tracks, lo, hi) || !(0
                <= item.min_content_contribution.repr < INF) || item.min_content_contribution.repr
                - spec_span_base_sum(tracks, lo, hi) <= 0 || spec_min_recipient_count(
                tracks,
                lo,
                hi,
            ) <= 0
        }),
    ensures
        forall|j: int| #[trigger] spec_item_min_share(tracks, item, j) == 0,
{
}

/// When an item's maximum-content shortfall does not call for growth, it
/// plans nothing for any track.
proof fn lemma_item_max_share_all_zero(tracks: Seq<GridTrack>, item: GridItem)
    requires
        ({
            let n = tracks.len() as int;
            let lo = spec_span_lo(item, n);
            let hi = spec_span_hi(item, n);
            lo >= hi || !spec_span_sane(tracks, lo, hi) || !(0
                <= item.max_content_contribution.repr < INF) || item.max_content_contribution.repr
                - spec_span_limit_sum(tracks, lo, hi) <= 0 || spec_max_recipient_count(
                tracks,
                lo,
                hi,
            ) <= 0
        }),
    ensures
        forall|j: int| #[trigger] spec_item_max_share(tracks, item, j) == 0,
{
}

/// Over a sane range, every range sum is nonnegative.
proof fn lemma_sane_span_sums_nonneg(tracks: Seq<GridTrack>, lo: int, hi: int)
    requires
        spec_span_sane(tracks, lo, hi),
        0 <= lo <= hi <= tracks.len(),
    ensures
        spec_span_base_sum(tracks, lo, hi) >= 0,
        spec_span_limit_sum(tracks, lo, hi) >= 0,
        spec_min_recipient_base_sum(tracks, lo, hi) >= 0,
        spec_max_recipient_limit_sum(tracks, lo, hi) >= 0,
    decreases hi - lo,
{
    if lo < hi {
        lemma_sane_span_sums_nonneg(tracks, lo + 1, hi);
    }
}

/// Distribute one item's minimum-content shortfall into the planned base
/// increases of the spanned intrinsic-min tracks, in proportion to their
/// existing base sizes (equally when they have none), keeping the largest
/// planned increase. `base_state` is the pass's frozen entry state and
/// `prior` the items already distributed.
fn distribute_item_min(
    tracks: &mut Vec<GridTrack>,
    item: GridItem,
    lo: usize,
    hi: usize,
    shortfall: i64,
    existing: i128,
    count: u64,
    Ghost(base_state): Ghost<Seq<GridTrack>>,
    Ghost(prior): Ghost<Seq<GridItem>>,
)
    requires
        old(tracks)@.len() == base_state.len(),
        forall|j: int|
            0 <= j < base_state.len() ==> #[trigger] old(tracks)@[j] == (GridTrack {
                item_incurred_increase: old(tracks)@[j].item_incurred_increase,
                base_size_planned_increase: Unit {
                    repr: spec_planned_min_increase(base_state, prior, j) as i64,
                },
                growth_limit_planned_increase: Unit {
                    repr: spec_planned_max_increase(base_state, prior, j) as i64,
                },
                ..base_state[j]
            }),
        lo as int == spec_span_lo(item, base_state.len() as int),
        hi as int == spec_span_hi(item, base_state.len() as int),
        lo < hi,
        spec_span_sane(base_state, lo as int, hi as int),
        0 <= item.min_content_contribution.repr < INF,
        shortfall as int == item.min_content_contribution.repr - spec_span_base_sum(
            base_state,
            lo as int,
            hi as int,
        ),
        shortfall > 0,
        existing as int == spec_min_recipient_base_sum(base_state, lo as int, hi as int),
        count as int == spec_min_recipient_count(base_state, lo as int, hi as int),
        count > 0,
    ensures
        final(tracks)@.len() == old(tracks)@.len(),
        forall|j: int|
            0 <= j < base_state.len() ==> #[trigger] final(tracks)@[j] == (GridTrack {
                item_incurred_increase: final(tracks)@[j].item_incurred_increase,
                base_size_planned_increase: Unit {
                    repr: max_repr(
                        spec_planned_min_increase(base_state, prior, j),
                        spec_item_min_share(base_state, item, j),
                    ) as i64,
                },
                growth_limit_planned_increase: Unit {
                    repr: spec_planned_max_increase(base_state, prior, j) as i64,
                },
                ..base_state[j]
            }),
{
    let n = tracks.len();
    let mut i: usize = lo;
    while i < hi
        invariant
            lo <= i <= hi <= n,
            n == tracks@.len(),
            n == base_state.len(),
            lo as int == spec_span_lo(item, base_state.len() as int),
            hi as int == spec_span_hi(item, base_state.len() as int),
            spec_span_sane(base_state, lo as int, hi as int),
            0 <= item.min_content_contribution.repr < INF,
            shortfall as int == item.min_content_contribution.repr - spec_span_base_sum(
                base_state,
                lo as int,
                hi as int,
            ),
            shortfall > 0,
            existing as int == spec_min_recipient_base_sum(base_state, lo as int, hi as int),
            count as int == spec_min_recipient_count(base_state, lo as int, hi as int),
            count > 0,
            forall|j: int|
                0 <= j < n ==> #[trigger] old(tracks)@[j] == (GridTrack {
                    item_incurred_increase: old(tracks)@[j].item_incurred_increase,
                    base_size_planned_increase: Unit {
                        repr: spec_planned_min_increase(base_state, prior, j) as i64,
                    },
                    growth_limit_planned_increase: Unit {
                        repr: spec_planned_max_increase(base_state, prior, j) as i64,
                    },
                    ..base_state[j]
                }),
            forall|j: int|
                0 <= j < n && !(lo <= j < i) ==> #[trigger] tracks@[j] == old(tracks)@[j],
            forall|j: int|
                lo <= j < i ==> #[trigger] tracks@[j] == (GridTrack {
                    item_incurred_increase: tracks@[j].item_incurred_increase,
                    base_size_planned_increase: Unit {
                        repr: max_repr(
                            spec_planned_min_increase(base_state, prior, j),
                            spec_item_min_share(base_state, item, j),
                        ) as i64,
                    },
                    growth_limit_planned_increase: Unit {
                        repr: spec_planned_max_increase(base_state, prior, j) as i64,
                    },
                    ..base_state[j]
                }),
        decreases hi - i,
    {
        proof {
            lemma_planned_min_bounds(base_state, prior, i as int);
            lemma_item_min_share_bounds(base_state, item, i as int);
            lemma_min_recipient_base_le_sum(base_state, lo as int, hi as int, i as int);
            assert(tracks@[i as int] == old(tracks)@[i as int]);
        }
        if tracks[i].min_track_sizing_function.is_intrinsic() {
            let base_repr = tracks[i].base_size.repr;
            proof {
                assert(tracks@[i as int].base_size == base_state[i as int].base_size);
                assert(tracks@[i as int].min_track_sizing_function == base_state[i as int].min_track_sizing_function);
                assert(0 <= base_repr < INF);
            }
            let share: i64 = if existing > 0 {
                proof {
                    assert((shortfall as u128) * (base_repr as u128) <= 0x7fffffffffffffffu128
                        * 0x7fffffffffffffffu128) by (nonlinear_arith)
                        requires
                            (shortfall as u128) <= 0x7fffffffffffffffu128,
                            (base_repr as u128) <= 0x7fffffffffffffffu128,
                    ;
                    lemma_proportional_share_bound(
                        shortfall as int,
                        base_repr as int,
                        existing as int,
                    );
                }
                let q: u128 = ((shortfall as u128) * (base_repr as u128)) / (existing as u128);
                q as i64
            } else {
                ((shortfall as u64) / count) as i64
            };
            proof {
                if !(existing > 0) {
                    vstd::arithmetic::div_mod::lemma_div_pos_is_pos(shortfall as int, count as int);
                    vstd::arithmetic::div_mod::lemma_div_is_ordered_by_denominator(
                        shortfall as int,
                        1,
                        count as int,
                    );
                    assert((shortfall as int) / 1 == shortfall as int) by (nonlinear_arith);
                }
                assert(share as int == spec_item_min_share(base_state, item, i as int));
            }
            tracks[i].item_incurred_increase = Unit::from_subunits(share);
            let planned = tracks[i].base_size_planned_increase.max(Unit::from_subunits(share));
            tracks[i].base_size_planned_increase = planned;
        } else {
            proof {
                assert(spec_item_min_share(base_state, item, i as int) == 0);
            }
        }
        i = i + 1;
    }
}

/// Distribute one item's maximum-content shortfall into the planned
/// growth-limit increases of the spanned intrinsic-max tracks, in
/// proportion to their entry growth limits.
fn distribute_item_max(
    tracks: &mut Vec<GridTrack>,
    item: GridItem,
    lo: usize,
    hi: usize,
    shortfall: i64,
    existing: i128,
    count: u64,
    Ghost(base_state): Ghost<Seq<GridTrack>>,
    Ghost(prior): Ghost<Seq<GridItem>>,
)
    requires
        old(tracks)@.len() == base_state.len(),
        forall|j: int|
            0 <= j < base_state.len() ==> #[trigger] old(tracks)@[j] == (GridTrack {
                item_incurred_increase: old(tracks)@[j].item_incurred_increase,
                base_size_planned_increase: Unit {
                    repr: max_repr(
                        spec_planned_min_increase(base_state, prior, j),
                        spec_item_min_share(base_state, item, j),
                    ) as i64,
                },
                growth_limit_planned_increase: Unit {
                    repr: spec_planned_max_increase(base_state, prior, j) as i64,
                },
                ..base_state[j]
            }),
        lo as int == spec_span_lo(item, base_state.len() as int),
        hi as int == spec_span_hi(item, base_state.len() as int),
        lo < hi,
        spec_span_sane(base_state, lo as int, hi as int),
        0 <= item.max_content_contribution.repr < INF,
        shortfall as int == item.max_content_contribution.repr - spec_span_limit_sum(
            base_state,
            lo as int,
            hi as int,
        ),
        shortfall > 0,
        existing as int == spec_max_recipient_limit_sum(base_state, lo as int, hi as int),
        count as int == spec_max_recipient_count(base_state, lo as int, hi as int),
        count > 0,
    ensures
        final(tracks)@.len() == old(tracks)@.len(),
        forall|j: int|
            0 <= j < base_state.len() ==> #[trigger] final(tracks)@[j] == (GridTrack {
                item_incurred_increase: final(tracks)@[j].item_incurred_increase,
                base_size_planned_increase: Unit {
                    repr: max_repr(
                        spec_planned_min_increase(base_state, prior, j),
                        spec_item_min_share(base_state, item, j),
                    ) as i64,
                },
                growth_limit_planned_increase: Unit {
                    repr: max_repr(
                        spec_planned_max_increase(base_state, prior, j),
                        spec_item_max_share(base_state, item, j),
                    ) as i64,
                },
                ..base_state[j]
            }),
{
    let n = tracks.len();
    let mut i: usize = lo;
    while i < hi
        invariant
            lo <= i <= hi <= n,
            n == tracks@.len(),
            n == base_state.len(),
            lo as int == spec_span_lo(item, base_state.len() as int),
            hi as int == spec_span_hi(item, base_state.len() as int),
            spec_span_sane(base_state, lo as int, hi as int),
            0 <= item.max_content_contribution.repr < INF,
            shortfall as int == item.max_content_contribution.repr - spec_span_limit_sum(
                base_state,
                lo as int,
                hi as int,
            ),
            shortfall > 0,
            existing as int == spec_max_recipient_limit_sum(base_state, lo as int, hi as int),
            count as int == spec_max_recipient_count(base_state, lo as int, hi as int),
            count > 0,
            forall|j: int|
                0 <= j < n ==> #[trigger] old(tracks)@[j] == (GridTrack {
                    item_incurred_increase: old(tracks)@[j].item_incurred_increase,
                    base_size_planned_increase: Unit {
                        repr: max_repr(
                            spec_planned_min_increase(base_state, prior, j),
                            spec_item_min_share(base_state, item, j),
                        ) as i64,
                    },
                    growth_limit_planned_increase: Unit {
                        repr: spec_planned_max_increase(base_state, prior, j) as i64,
                    },
                    ..base_state[j]
                }),
            forall|j: int|
                0 <= j < n && !(lo <= j < i) ==> #[trigger] tracks@[j] == old(tracks)@[j],
            forall|j: int|
                lo <= j < i ==> #[trigger] tracks@[j] == (GridTrack {
                    item_incurred_increase: tracks@[j].item_incurred_increase,
                    base_size_planned_increase: old(tracks)@[j].base_size_planned_increase,
                    growth_limit_planned_increase: Unit {
                        repr: max_repr(
                            spec_planned_max_increase(base_state, prior, j),
                            spec_item_max_share(base_state, item, j),
                        ) as i64,
                    },
                    ..base_state[j]
                }),
        decreases hi - i,
    {
        proof {
            lemma_planned_max_bounds(base_state, prior, i as int);
            lemma_item_max_share_bounds(base_state, item, i as int);
            lemma_max_recipient_limit_le_sum(base_state, lo as int, hi as int, i as int);
            assert(tracks@[i as int] == old(tracks)@[i as int]);
        }
        if tracks[i].max_track_sizing_function.is_intrinsic() {
            let limit_repr: i64 = if tracks[i].growth_limit.repr == i64::MAX {
                tracks[i].base_size.repr
            } else {
                tracks[i].growth_limit.repr
            };
            proof {
                assert(tracks@[i as int].base_size == base_state[i as int].base_size);
                assert(tracks@[i as int].growth_limit == base_state[i as int].growth_limit);
                assert(tracks@[i as int].max_track_sizing_function == base_state[i as int].max_track_sizing_function);
                assert(limit_repr as int == spec_entry_limit(base_state[i as int]));
                assert(0 <= limit_repr < INF);
            }
            let share: i64 = if existing > 0 {
                proof {
                    assert((shortfall as u128) * (limit_repr as u128) <= 0x7fffffffffffffffu128
                        * 0x7fffffffffffffffu128) by (nonlinear_arith)
                        requires
                            (shortfall as u128) <= 0x7fffffffffffffffu128,
                            (limit_repr as u128) <= 0x7fffffffffffffffu128,
                    ;
                    lemma_proportional_share_bound(
                        shortfall as int,
                        limit_repr as int,
                        existing as int,
                    );
                }
                let q: u128 = ((shortfall as u128) * (limit_repr as u128)) / (existing as u128);
                q as i64
            } else {
                ((shortfall as u64) / count) as i64
            };
            proof {
                if !(existing > 0) {
                    vstd::arithmetic::div_mod::lemma_div_pos_is_pos(shortfall as int, count as int);
                    vstd::arithmetic::div_mod::lemma_div_is_ordered_by_denominator(
                        shortfall as int,
                        1,
                        count as int,
                    );
                    assert((shortfall as int) / 1 == shortfall as int) by (nonlinear_arith);
                }
                assert(share as int == spec_item_max_share(base_state, item, i as int));
            }
            tracks[i].item_incurred_increase = Unit::from_subunits(share);
            let planned = tracks[i].growth_limit_planned_increase.max(Unit::from_subunits(share));
            tracks[i].growth_limit_planned_increase = planned;
        } else {
            proof {
                assert(spec_item_max_share(base_state, item, i as int) == 0);
            }
        }
        i = i + 1;
    }
}

/// Intrinsic sizing pass: grow the tracks with intrinsic sizing functions
/// to accommodate the items spanning them. Each item distributes its
/// minimum-content shortfall beyond the spanned base sizes over the
/// spanned intrinsic-min tracks, and its maximum-content shortfall beyond
/// the spanned entry growth limits over the intrinsic-max tracks, in
/// proportion to the existing space, through the planned-increase
/// accumulators: every item distributes against the frozen entry sizes, so
/// growth from one item does not bias the distribution for the next, and
/// the largest planned increase wins. The planned increases are then
/// applied: base sizes grow by theirs, growth limits by their own — one
/// that was infinity restarts from the grown base size and the track
/// becomes infinitely growable — and the scratch accumulators end zeroed.
pub fn size_tracks_to_content(tracks: &mut Vec<GridTrack>, items: &Vec<GridItem>)
    requires
        old(tracks)@.len() <= MAX_TRACK_COUNT,
    ensures
        final(tracks)@.len() == old(tracks)@.len(),
        forall|i: int|
            0 <= i < old(tracks)@.len() ==> #[trigger] final(tracks)@[i] == spec_content_sized(
                old(tracks)@,
                items@,
                i,
            ),
        forall|i: int|
            0 <= i < old(tracks)@.len() ==> #[trigger] final(tracks)@[i] == (GridTrack {
                base_size: final(tracks)@[i].base_size,
                growth_limit: final(tracks)@[i].growth_limit,
                infinitely_growable: final(tracks)@[i].infinitely_growable,
                item_incurred_increase: Unit { repr: 0 },
                base_size_planned_increase: Unit { repr: 0 },
                growth_limit_planned_increase: Unit { repr: 0 },
                ..old(tracks)@[i]
            }),
        forall|i: int|
            0 <= i < old(tracks)@.len() ==> (#[trigger] final(tracks)@[i]).base_size.repr >= old(
                tracks,
            )@[i].base_size.repr,
        forall|i: int|
            0 <= i < old(tracks)@.len() && !(#[trigger] old(
                tracks,
            )@[i]).min_track_sizing_function.is_intrinsic_spec() ==> final(tracks)@[i].base_size
                == old(tracks)@[i].base_size,
        forall|i: int|
            0 <= i < old(tracks)@.len() && !(#[trigger] old(
                tracks,
            )@[i]).min_track_sizing_function.is_intrinsic_spec() && !old(
                tracks,
            )@[i].max_track_sizing_function.is_intrinsic_spec() ==> final(tracks)@[i] == (GridTrack {
                item_incurred_increase: Unit { repr: 0 },
                base_size_planned_increase: Unit { repr: 0 },
                growth_limit_planned_increase: Unit { repr: 0 },
                ..old(tracks)@[i]
            }),
{
    let n = tracks.len();
    // Reset the scratch accumulators from any earlier pass.
    let mut i: usize = 0;
    while i < n
        invariant
            0 <= i <= n,
            n == tracks@.len(),
            old(tracks)@.len() == n,
            forall|j: int|
                i <= j < n ==> #[trigger] tracks@[j] == old(tracks)@[j],
            forall|j: int|
                0 <= j < i ==> #[trigger] tracks@[j] == (GridTrack {
                    item_incurred_increase: Unit { repr: 0 },
                    base_size_planned_increase: Unit { repr: 0 },
                    growth_limit_planned_increase: Unit { repr: 0 },
                    ..old(tracks)@[j]
                }),
        decreases n - i,
    {
        tracks[i].item_incurred_increase = Unit::zero();
        tracks[i].base_size_planned_increase = Unit::zero();
        tracks[i].growth_limit_planned_increase = Unit::zero();
        i = i + 1;
    }
    let ghost base_state = old(tracks)@;
    // Distribute every item's contributions into the planned increases,
    // against the frozen entry sizes.
    let m = items.len();
    let mut k: usize = 0;
    proof {
        assert(items@.take(0) =~= Seq::<GridItem>::empty());
    }
    while k < m
        invariant
            0 <= k <= m,
            m == items@.len(),
            n == tracks@.len(),
            n <= MAX_TRACK_COUNT,
            base_state == old(tracks)@,
            base_state.len() == n,
            forall|j: int|
                0 <= j < n ==> #[trigger] tracks@[j] == (GridTrack {
                    item_incurred_increase: tracks@[j].item_incurred_increase,
                    base_size_planned_increase: Unit {
                        repr: spec_planned_min_increase(base_state, items@.take(k as int), j) as i64,
                    },
                    growth_limit_planned_increase: Unit {
                        repr: spec_planned_max_increase(base_state, items@.take(k as int), j) as i64,
                    },
                    ..base_state[j]
                }),
        decreases m - k,
    {
        let ghost prior = items@.take(k as int);
        let item = items[k];
        let lo = if item.span_start < n {
            item.span_start
        } else {
            n
        };
        let hi = if item.span_end < n {
            item.span_end
        } else {
            n
        };
        proof {
            assert(lo as int == spec_span_lo(item, n as int));
            assert(hi as int == spec_span_hi(item, n as int));
        }
        let mut min_done = false;
        let mut max_done = false;
        if lo < hi {
            // Scan the span once against the frozen entry sizes: sums,
            // recipient counts and sanity.
            let mut span_base: i128 = 0;
            let mut span_limit: i128 = 0;
            let mut min_count: u64 = 0;
            let mut min_base: i128 = 0;
            let mut max_count: u64 = 0;
            let mut max_limit: i128 = 0;
            let mut sane = true;
            let mut i: usize = lo;
            while i < hi
                invariant
                    lo <= i <= hi <= n,
                    n == tracks@.len(),
                    n <= MAX_TRACK_COUNT,
                    base_state.len() == n,
                    forall|j: int|
                        0 <= j < n ==> (#[trigger] tracks@[j]).base_size == base_state[j].base_size
                            && tracks@[j].growth_limit == base_state[j].growth_limit
                            && tracks@[j].min_track_sizing_function
                            == base_state[j].min_track_sizing_function
                            && tracks@[j].max_track_sizing_function
                            == base_state[j].max_track_sizing_function,
                    span_base as int + spec_span_base_sum(base_state, i as int, hi as int)
                        == spec_span_base_sum(base_state, lo as int, hi as int),
                    span_limit as int + spec_span_limit_sum(base_state, i as int, hi as int)
                        == spec_span_limit_sum(base_state, lo as int, hi as int),
                    min_count as int + spec_min_recipient_count(base_state, i as int, hi as int)
                        == spec_min_recipient_count(base_state, lo as int, hi as int),
                    min_base as int + spec_min_recipient_base_sum(base_state, i as int, hi as int)
                        == spec_min_recipient_base_sum(base_state, lo as int, hi as int),
                    max_count as int + spec_max_recipient_count(base_state, i as int, hi as int)
                        == spec_max_recipient_count(base_state, lo as int, hi as int),
                    max_limit as int + spec_max_recipient_limit_sum(base_state, i as int, hi as int)
                        == spec_max_recipient_limit_sum(base_state, lo as int, hi as int),
                    -(((i - lo) as int) * 0x8000_0000_0000_0000) <= span_base as int <= ((i
                        - lo) as int) * 0x8000_0000_0000_0000,
                    -(((i - lo) as int) * 0x8000_0000_0000_0000) <= span_limit as int <= ((i
                        - lo) as int) * 0x8000_0000_0000_0000,
                    -(((i - lo) as int) * 0x8000_0000_0000_0000) <= min_base as int <= ((i
                        - lo) as int) * 0x8000_0000_0000_0000,
                    -(((i - lo) as int) * 0x8000_0000_0000_0000) <= max_limit as int <= ((i
                        - lo) as int) * 0x8000_0000_0000_0000,
                    min_count as int <= (i - lo) as int,
                    max_count as int <= (i - lo) as int,
                    sane == spec_span_sane(base_state, lo as int, i as int),
                decreases hi - i,
            {
                let t = tracks[i];
                if t.base_size.repr < 0 || t.base_size.repr == i64::MAX {
                    sane = false;
                }
                if t.growth_limit.repr != i64::MAX && t.growth_limit.repr < 0 {
                    sane = false;
                }
                let limit: i64 = if t.growth_limit.repr == i64::MAX {
                    t.base_size.repr
                } else {
                    t.growth_limit.repr
                };
                span_base = span_base + t.base_size.repr as i128;
                span_limit = span_limit + limit as i128;
                if t.min_track_sizing_function.is_intrinsic() {
                    min_count = min_count + 1;
                    min_base = min_base + t.base_size.repr as i128;
                }
                if t.max_track_sizing_function.is_intrinsic() {
                    max_count = max_count + 1;
                    max_limit = max_limit + limit as i128;
                }
                i = i + 1;
            }
            if sane {
                proof {
                    lemma_sane_span_sums_nonneg(base_state, lo as int, hi as int);
                }
                // The minimum-content shortfall grows base sizes.
                if min_count > 0 && item.min_content_contribution.repr >= 0
                    && item.min_content_contribution.repr < i64::MAX {
                    let shortfall_wide: i128 = (item.min_content_contribution.repr as i128)
                        - span_base;
                    if shortfall_wide > 0 {
                        distribute_item_min(
                            tracks,
                            item,
                            lo,
                            hi,
                            shortfall_wide as i64,
                            min_base,
                            min_count,
                            Ghost(base_state),
                            Ghost(prior),
                        );
                        min_done = true;
                    }
                }
                // The maximum-content shortfall grows growth limits.
                if max_count > 0 && item.max_content_contribution.repr >= 0
                    && item.max_content_contribution.repr < i64::MAX {
                    let shortfall_wide: i128 = (item.max_content_contribution.repr as i128)
                        - span_limit;
                    if shortfall_wide > 0 {
                        if !min_done {
                            proof {
                                lemma_item_min_share_all_zero(base_state, item);
                            }
                        }
                        distribute_item_max(
                            tracks,
                            item,
                            lo,
                            hi,
                            shortfall_wide as i64,
                            max_limit,
                            max_count,
                            Ghost(base_state),
                            Ghost(prior),
                        );
                        max_done = true;
                    }
                }
            }
        }
        proof {
            let next = items@.take(k as int + 1);
            assert(next.drop_last() =~= prior);
            assert(next.last() == item);
            assert forall|j: int| 0 <= j < n implies #[trigger] tracks@[j] == (GridTrack {
                item_incurred_increase: tracks@[j].item_incurred_increase,
                base_size_planned_increase: Unit {
                    repr: spec_planned_min_increase(base_state, next, j) as i64,
                },
                growth_limit_planned_increase: Unit {
                    repr: spec_planned_max_increase(base_state, next, j) as i64,
                },
                ..base_state[j]
            }) by {
                lemma_planned_min_bounds(base_state, prior, j);
                lemma_planned_max_bounds(base_state, prior, j);
                lemma_item_min_share_bounds(base_state, item, j);
                lemma_item_max_share_bounds(base_state, item, j);
                if !min_done {
                    lemma_item_min_share_all_zero(base_state, item);
                }
                if !max_done {
                    lemma_item_max_share_all_zero(base_state, item);
                }
            }
        }
        k = k + 1;
    }
    proof {
        assert(items@.take(m as int) =~= items@);
    }
    // Apply the planned increases and zero the scratch accumulators.
    let ghost planned_state = tracks@;
    let mut i: usize = 0;
    while i < n
        invariant
            0 <= i <= n,
            n == tracks@.len(),
            base_state == old(tracks)@,
            base_state.len() == n,
            planned_state.len() == n,
            forall|j: int|
                i <= j < n ==> #[trigger] tracks@[j] == planned_state[j],
            forall|j: int|
                0 <= j < n ==> #[trigger] planned_state[j] == (GridTrack {
                    item_incurred_increase: planned_state[j].item_incurred_increase,
                    base_size_planned_increase: Unit {
                        repr: spec_planned_min_increase(base_state, items@, j) as i64,
                    },
                    growth_limit_planned_increase: Unit {
                        repr: spec_planned_max_increase(base_state, items@, j) as i64,
                    },
                    ..base_state[j]
                }),
            forall|j: int|
                0 <= j < i ==> #[trigger] tracks@[j] == spec_content_sized(base_state, items@, j),
        decreases n - i,
    {
        proof {
            lemma_planned_min_bounds(base_state, items@, i as int);
            lemma_planned_max_bounds(base_state, items@, i as int);
        }
        let base_planned = tracks[i].base_size_planned_increase;
        if base_planned.is_positive() {
            let grown = tracks[i].base_size.add(base_planned);
            tracks[i].base_size = grown;
        }
        let growth_planned = tracks[i].growth_limit_planned_increase;
        if growth_planned.is_positive() {
            if tracks[i].growth_limit.is_infinite() {
                let from_base = tracks[i].base_size.add(growth_planned);
                tracks[i].growth_limit = from_base;
                tracks[i].infinitely_growable = true;
            } else {
                let grown_limit = tracks[i].growth_limit.add(growth_planned);
                tracks[i].growth_limit = grown_limit;
            }
        }
        tracks[i].item_incurred_increase = Unit::zero();
        tracks[i].base_size_planned_increase = Unit::zero();
        tracks[i].growth_limit_planned_increase = Unit::zero();
        i = i + 1;
    }
    proof {
        assert forall|j: int| 0 <= j < n implies ((#[trigger] tracks@[j]).base_size.repr
            >= base_state[j].base_size.repr) by {
            lemma_planned_min_bounds(base_state, items@, j);
        }
        assert forall|j: int|
            0 <= j < n && !(#[trigger] base_state[j]).min_track_sizing_function.is_intrinsic_spec()
            implies tracks@[j].base_size == base_state[j].base_size by {
            lemma_planned_min_zero(base_state, items@, j);
        }
        assert forall|j: int|
            0 <= j < n && !(#[trigger] base_state[j]).min_track_sizing_function.is_intrinsic_spec()
                && !base_state[j].max_track_sizing_function.is_intrinsic_spec()
            implies tracks@[j] == (GridTrack {
            item_incurred_increase: Unit { repr: 0 },
            base_size_planned_increase: Unit { repr: 0 },
            growth_limit_planned_increase: Unit { repr: 0 },
            ..base_state[j]
        }) by {
            lemma_planned_min_zero(base_state, items@, j);
            lemma_planned_max_zero(base_state, items@, j);
        }
    }
}

/// The tracks as they stand entering maximization: initialized from their
/// sizing functions against the axis's available space, then sized to the
/// items' content.
pub open spec fn spec_prepared_tracks(
    tracks: Seq<GridTrack>,
    items: Seq<GridItem>,
    axis_available_space: Option<Unit>,
) -> Seq<GridTrack> {
    let initialized = tracks.map_values(|t: GridTrack| spec_initialized(t, axis_available_space));
    Seq::new(tracks.len(), |i: int| spec_content_sized(initialized, items, i))
}

/// Run the track-sizing passes over one axis's tracks, in the order the
/// state machine prescribes: initialization, intrinsic content sizing,
/// maximization, flexible expansion, and — when the alignment policy calls
/// for stretching — the stretch of auto tracks. Collapsed tracks, whose
/// sizing functions were forced to fixed zero when they were collapsed,
/// end with a base size of exactly zero: no pass distributes space to
/// them. Under definite available space the passes' outcomes carry up to
/// the entry point: when maximization finds nothing to grow and the
/// flexible shares cover their base sizes, every flexible track ends at
/// its proportional share of the leftover and every other non-auto track
/// keeps its prepared size; and a grid of non-flexible, non-auto tracks
/// either fills the available space exactly or ends with every growable
/// track at its fit-content-limited growth limit.
pub fn determine_track_sizes(
    tracks: &mut Vec<GridTrack>,
    items: &Vec<GridItem>,
    axis_available_space: AvailableSpace,
    stretch: bool,
)
    requires
        old(tracks)@.len() <= MAX_TRACK_COUNT,
    ensures
        final(tracks)@.len() == old(tracks)@.len(),
        forall|i: int|
            0 <= i < old(tracks)@.len() ==> {
                let t = #[trigger] final(tracks)@[i];
                t.kind == old(tracks)@[i].kind && t.is_collapsed == old(tracks)@[i].is_collapsed
                    && t.min_track_sizing_function == old(tracks)@[i].min_track_sizing_function
                    && t.max_track_sizing_function == old(tracks)@[i].max_track_sizing_function
            },
        forall|i: int|
            0 <= i < old(tracks)@.len() && (#[trigger] old(tracks)@[i]).is_collapsed && old(
                tracks,
            )@[i].spec_collapsed_zeroed() ==> final(tracks)@[i].base_size.repr == 0,
        (match axis_available_space {
            AvailableSpace::Definite(available) => {
                let prepared = spec_prepared_tracks(old(tracks)@, items@, Some(available));
                &&& forall|i: int|
                    0 <= i < prepared.len() ==> !spec_growable(
                        #[trigger] prepared[i],
                        Some(available),
                    )
                &&& spec_flex_expansion_applies(prepared, available)
                &&& spec_no_flex_freeze(prepared, spec_first_round_fr(prepared, available))
            },
            _ => false,
        }) ==> (match axis_available_space {
            AvailableSpace::Definite(available) => {
                let prepared = spec_prepared_tracks(old(tracks)@, items@, Some(available));
                let fr = spec_first_round_fr(prepared, available);
                forall|i: int|
                    0 <= i < old(tracks)@.len() ==> match (#[trigger] old(
                        tracks,
                    )@[i]).max_track_sizing_function {
                        MaxTrackSizingFunction::Fraction(f) => final(tracks)@[i].base_size
                            == fr.spec_times(f),
                        MaxTrackSizingFunction::Auto => true,
                        _ => final(tracks)@[i].base_size == prepared[i].base_size,
                    }
            },
            _ => false,
        }),
        (match axis_available_space {
            AvailableSpace::Definite(available) => {
                let prepared = spec_prepared_tracks(old(tracks)@, items@, Some(available));
                &&& crate::unit::finite_repr(available.repr as int)
                &&& forall|i: int|
                    0 <= i < prepared.len() ==> 0 <= (#[trigger] prepared[i]).base_size.repr
                &&& available.repr - spec_total_base_sum(prepared) > 0
                &&& forall|i: int|
                    0 <= i < prepared.len() ==> !((#[trigger] prepared[i]).max_track_sizing_function
                        is Fraction) && !(prepared[i].max_track_sizing_function is Auto)
            },
            _ => false,
        }) ==> (match axis_available_space {
            AvailableSpace::Definite(available) => {
                let prepared = spec_prepared_tracks(old(tracks)@, items@, Some(available));
                spec_total_base_sum(final(tracks)@) == available.repr || (forall|i: int|
                    0 <= i < prepared.len() && spec_growable(prepared[i], Some(available)) ==> (
                    #[trigger] final(tracks)@[i]).base_size.repr
                        == prepared[i].spec_fit_content_limited_growth_limit(
                        Some(available),
                    ).repr)
            },
            _ => false,
        }),
{
    let space_option = axis_available_space.into_option();
    initialize_track_sizes(tracks, space_option);
    let ghost s1 = tracks@;
    size_tracks_to_content(tracks, items);
    let ghost s2 = tracks@;
    maximize_tracks(tracks, axis_available_space);
    let ghost s3 = tracks@;
    expand_flexible_tracks(tracks, axis_available_space);
    let ghost s4 = tracks@;
    if stretch {
        stretch_auto_tracks(tracks, axis_available_space);
    }
    proof {
        let n = old(tracks)@.len() as int;
        let space = axis_available_space.spec_into_option();
        let init_map = old(tracks)@.map_values(
            |t: GridTrack| spec_initialized(t, space),
        );
        assert(s1 =~= init_map);
        let prepared = spec_prepared_tracks(old(tracks)@, items@, space);
        assert(prepared =~= s2);
        if axis_available_space is Definite {
            assert(space == Some(axis_available_space->Definite_0));
        }
        if (match axis_available_space {
            AvailableSpace::Definite(available) => {
                let p = spec_prepared_tracks(old(tracks)@, items@, Some(available));
                &&& forall|i: int|
                    0 <= i < p.len() ==> !spec_growable(#[trigger] p[i], Some(available))
                &&& spec_flex_expansion_applies(p, available)
                &&& spec_no_flex_freeze(p, spec_first_round_fr(p, available))
            },
            _ => false,
        }) {
            let available = axis_available_space->Definite_0;
            assert(s3 =~= s2);
            assert(s3 == prepared);
        }
        if (match axis_available_space {
            AvailableSpace::Definite(available) => {
                let p = spec_prepared_tracks(old(tracks)@, items@, Some(available));
                &&& crate::unit::finite_repr(available.repr as int)
                &&& forall|i: int| 0 <= i < p.len() ==> 0 <= (#[trigger] p[i]).base_size.repr
                &&& available.repr - spec_total_base_sum(p) > 0
                &&& forall|i: int|
                    0 <= i < p.len() ==> !((#[trigger] p[i]).max_track_sizing_function is Fraction)
                        && !(p[i].max_track_sizing_function is Auto)
            },
            _ => false,
        }) {
            let available = axis_available_space->Definite_0;
            assert(s4 =~= s3);
            assert(tracks@ =~= s4);
            assert(spec_total_base_sum(tracks@) == spec_total_base_sum(s3));
        }
        assert forall|i: int| 0 <= i < n implies {
            let t = #[trigger] tracks@[i];
            &&& t.kind == old(tracks)@[i].kind
            &&& t.is_collapsed == old(tracks)@[i].is_collapsed
            &&& t.min_track_sizing_function == old(tracks)@[i].min_track_sizing_function
            &&& t.max_track_sizing_function == old(tracks)@[i].max_track_sizing_function
        } by {
            assert(s1[i] == spec_initialized(old(tracks)@[i], axis_available_space.spec_into_option()));
            assert(s2[i].kind == s1[i].kind && s2[i].is_collapsed == s1[i].is_collapsed
                && s2[i].min_track_sizing_function == s1[i].min_track_sizing_function
                && s2[i].max_track_sizing_function == s1[i].max_track_sizing_function);
            assert(s3[i].kind == s2[i].kind && s3[i].is_collapsed == s2[i].is_collapsed
                && s3[i].min_track_sizing_function == s2[i].min_track_sizing_function
                && s3[i].max_track_sizing_function == s2[i].max_track_sizing_function);
            if s3[i].max_track_sizing_function is Fraction {
                assert(s4[i] == (GridTrack { base_size: s4[i].base_size, ..s3[i] }));
            } else {
                assert(s4[i] == s3[i]);
            }
            if s4[i].max_track_sizing_function is Auto {
                assert(tracks@[i] == (GridTrack { base_size: tracks@[i].base_size, ..s4[i] }));
            } else {
                assert(tracks@[i] == s4[i]);
            }
        }
        assert forall|i: int|
            0 <= i < n && (#[trigger] old(tracks)@[i]).is_collapsed && old(
                tracks,
            )@[i].spec_collapsed_zeroed() implies tracks@[i].base_size.repr == 0 by {
            assert(s1[i] == spec_initialized(old(tracks)@[i], axis_available_space.spec_into_option()));
            assert(s1[i].base_size.repr == 0);
            assert(s1[i].growth_limit.repr == 0);
            assert(!s1[i].min_track_sizing_function.is_intrinsic_spec());
            assert(!s1[i].max_track_sizing_function.is_intrinsic_spec());
            assert(s2[i].base_size == s1[i].base_size);
            assert(s2[i].growth_limit == s1[i].growth_limit);
            assert(s2[i].max_track_sizing_function == s1[i].max_track_sizing_function);
            assert(!spec_growable(s2[i], axis_available_space.spec_into_option()));
            assert(s3[i] == s2[i]);
            assert(s4[i] == s3[i]);
            assert(tracks@[i] == s4[i]);
        }
    }
}

/// The total of the final base sizes splits into the untouched
/// non-flexible bases plus the flexible tracks' proportional shares.
proof fn lemma_total_is_nonflex_plus_shares(before: Seq<GridTrack>, after: Seq<GridTrack>, fr: Unit)
    requires
        before.len() == after.len(),
        forall|i: int|
            0 <= i < before.len() && !((#[trigger] before[i]).max_track_sizing_function is Fraction)
                ==> after[i] == before[i],
        forall|i: int|
            0 <= i < before.len() ==> match (#[trigger] before[i]).max_track_sizing_function {
                MaxTrackSizingFunction::Fraction(f) => after[i].base_size == fr.spec_times(f),
                _ => true,
            },
    ensures
        spec_total_base_sum(after) == spec_nonflex_base_sum(before) + spec_flex_share_sum(
            before,
            fr,
        ),
    decreases before.len(),
{
    if before.len() > 0 {
        assert(forall|i: int|
            0 <= i < before.drop_first().len() && !((#[trigger] before.drop_first()[i]).max_track_sizing_function
                is Fraction) ==> after.drop_first()[i] == before.drop_first()[i]);
        assert(forall|i: int|
            0 <= i < before.drop_first().len() ==> match (#[trigger] before.drop_first()[i]).max_track_sizing_function {
                MaxTrackSizingFunction::Fraction(f) => after.drop_first()[i].base_size
                    == fr.spec_times(f),
                _ => true,
            });
        lemma_total_is_nonflex_plus_shares(before.drop_first(), after.drop_first(), fr);
    }
}

/// Flex-factor conservation: when the available space is definite, no
/// flexible track's proportional share falls below its base size (the
/// minimums do not overconsume the space), and the proportional shares
/// consume the leftover space exactly, the flexible tracks' final sizes
/// plus all the non-flexible base sizes together equal the available
/// space. The exactness hypothesis is what fixed-point truncation can
/// break: the expansion of `expand_flexible_tracks` satisfies the other
/// two hypotheses by its contract whenever the inputs are sane and no
/// track freezes.
pub proof fn lemma_flex_factor_conservation(
    before: Seq<GridTrack>,
    after: Seq<GridTrack>,
    available: Unit,
    fr: Unit,
)
    requires
        before.len() == after.len(),
        forall|i: int|
            0 <= i < before.len() && !((#[trigger] before[i]).max_track_sizing_function is Fraction)
                ==> after[i] == before[i],
        forall|i: int|
            0 <= i < before.len() ==> match (#[trigger] before[i]).max_track_sizing_function {
                MaxTrackSizingFunction::Fraction(f) => after[i].base_size == fr.spec_times(f),
                _ => true,
            },
        spec_flex_share_sum(before, fr) == available.repr - spec_nonflex_base_sum(before),
    ensures
        spec_total_base_sum(after) == available.repr,
{
    lemma_total_is_nonflex_plus_shares(before, after, fr);
}

} // verus!
