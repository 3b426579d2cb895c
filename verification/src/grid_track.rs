//! A single grid track (row/column) during layout. Gutters between tracks
//! are sized like tracks, so they are represented by the same struct.

use vstd::prelude::*;
use crate::unit::{Unit, INF};
use crate::style::{LengthPercentage, MaxTrackSizingFunction, MinTrackSizingFunction};

verus! {

/// Whether a grid track represents an actual track or a gutter.
#[derive(Copy, Clone, Debug, PartialEq, Eq, Structural)]
pub enum GridTrackKind {
    /// An actual track.
    Track,
    /// A gutter (the gap between two tracks).
    Gutter,
}

/// Internal sizing information for a single grid track (row/column).
#[derive(Copy, Clone, Debug, PartialEq, Eq, Structural)]
pub struct GridTrack {
    /// Whether the track is a full track or a gutter.
    pub kind: GridTrackKind,
    /// Whether the track is collapsed. Collapsed tracks are treated as if
    /// they did not exist for the purposes of grid sizing.
    pub is_collapsed: bool,
    /// The minimum track sizing function of the track.
    pub min_track_sizing_function: MinTrackSizingFunction,
    /// The maximum track sizing function of the track.
    pub max_track_sizing_function: MaxTrackSizingFunction,
    /// The distance of the start of the track from the start of the grid
    /// container; written once placement begins.
    pub offset: Unit,
    /// The size (width/height as applicable) of the track.
    pub base_size: Unit,
    /// The ceiling the base size may grow to during distribution; may be
    /// infinity.
    pub growth_limit: Unit,
    /// Scratch: an additional amount added to the opposite-axis estimate
    /// when content-sizing items.
    pub content_alignment_adjustment: Unit,
    /// Scratch while distributing space: one item's share, kept apart so it
    /// does not clobber the planned increase.
    pub item_incurred_increase: Unit,
    /// Scratch while distributing space: the pending increase of the base
    /// size, applied only after a whole distribution step.
    pub base_size_planned_increase: Unit,
    /// Scratch while distributing space: the pending increase of the growth
    /// limit, applied only after a whole distribution step.
    pub growth_limit_planned_increase: Unit,
    /// Whether the track's growth limit was set from infinity by an item,
    /// which relaxes the equal-distribution rule in later growth.
    pub infinitely_growable: bool,
}

impl GridTrack {
    /// A track of the given kind and sizing functions, with every size and
    /// scratch accumulator zeroed.
    pub open spec fn spec_new_with_kind(
        kind: GridTrackKind,
        min_track_sizing_function: MinTrackSizingFunction,
        max_track_sizing_function: MaxTrackSizingFunction,
    ) -> GridTrack {
        GridTrack {
            kind,
            is_collapsed: false,
            min_track_sizing_function,
            max_track_sizing_function,
            offset: Unit { repr: 0 },
            base_size: Unit { repr: 0 },
            growth_limit: Unit { repr: 0 },
            content_alignment_adjustment: Unit { repr: 0 },
            item_incurred_increase: Unit { repr: 0 },
            base_size_planned_increase: Unit { repr: 0 },
            growth_limit_planned_increase: Unit { repr: 0 },
            infinitely_growable: false,
        }
    }

    /// GridTrack constructor with all configuration parameters for the
    /// other constructors exposed.
    fn new_with_kind(
        kind: GridTrackKind,
        min_track_sizing_function: MinTrackSizingFunction,
        max_track_sizing_function: MaxTrackSizingFunction,
    ) -> (r: GridTrack)
        ensures
            r == GridTrack::spec_new_with_kind(
                kind,
                min_track_sizing_function,
                max_track_sizing_function,
            ),
    {
        GridTrack {
            kind,
            is_collapsed: false,
            min_track_sizing_function,
            max_track_sizing_function,
            offset: Unit::zero(),
            base_size: Unit::zero(),
            growth_limit: Unit::zero(),
            content_alignment_adjustment: Unit::zero(),
            item_incurred_increase: Unit::zero(),
            base_size_planned_increase: Unit::zero(),
            growth_limit_planned_increase: Unit::zero(),
            infinitely_growable: false,
        }
    }

    /// Create a new track representing an actual track (not a gutter).
    pub fn new(
        min_track_sizing_function: MinTrackSizingFunction,
        max_track_sizing_function: MaxTrackSizingFunction,
    ) -> (r: GridTrack)
        ensures
            r == GridTrack::spec_new_with_kind(
                GridTrackKind::Track,
                min_track_sizing_function,
                max_track_sizing_function,
            ),
    {
        Self::new_with_kind(GridTrackKind::Track, min_track_sizing_function, max_track_sizing_function)
    }

    /// Create a new track representing a gutter of the given size.
    pub fn gutter(size: LengthPercentage) -> (r: GridTrack)
        ensures
            r == GridTrack::spec_new_with_kind(
                GridTrackKind::Gutter,
                MinTrackSizingFunction::Fixed(size),
                MaxTrackSizingFunction::Fixed(size),
            ),
    {
        Self::new_with_kind(
            GridTrackKind::Gutter,
            MinTrackSizingFunction::Fixed(size),
            MaxTrackSizingFunction::Fixed(size),
        )
    }

    /// Whether the track keeps its collapsed invariant: a collapsed track
    /// has fixed zero-sized min and max sizing functions, so no sizing pass
    /// ever distributes space to it.
    pub open spec fn spec_collapsed_zeroed(self) -> bool {
        self.is_collapsed ==> (self.min_track_sizing_function
            == MinTrackSizingFunction::Fixed(LengthPercentage::Length(Unit { repr: 0 }))
            && self.max_track_sizing_function == MaxTrackSizingFunction::Fixed(
            LengthPercentage::Length(Unit { repr: 0 }),
        ))
    }

    /// Mark a track as collapsed; also sets both of the track's sizing
    /// functions to fixed zero-sized functions, so it is excluded from all
    /// growth distribution.
    pub fn collapse(&mut self)
        ensures
            *final(self) == (GridTrack {
                is_collapsed: true,
                min_track_sizing_function: MinTrackSizingFunction::Fixed(
                    LengthPercentage::Length(Unit { repr: 0 }),
                ),
                max_track_sizing_function: MaxTrackSizingFunction::Fixed(
                    LengthPercentage::Length(Unit { repr: 0 }),
                ),
                ..*old(self)
            }),
            final(self).spec_collapsed_zeroed(),
    {
        self.is_collapsed = true;
        self.min_track_sizing_function = MinTrackSizingFunction::Fixed(
            LengthPercentage::Length(Unit::zero()),
        );
        self.max_track_sizing_function = MaxTrackSizingFunction::Fixed(
            LengthPercentage::Length(Unit::zero()),
        );
    }

    /// Returns true if the track is flexible (has a fractional max track
    /// sizing function), else false.
    pub fn is_flexible(&self) -> (r: bool)
        ensures
            r == (self.max_track_sizing_function is Fraction),
    {
        match self.max_track_sizing_function {
            MaxTrackSizingFunction::Fraction(_) => true,
            _ => false,
        }
    }

    /// Returns true if either of the track's sizing functions holds a
    /// percentage.
    pub fn uses_percentage(&self) -> (r: bool)
        ensures
            r == (self.min_track_sizing_function
                matches MinTrackSizingFunction::Fixed(LengthPercentage::Percent(_))
                || self.max_track_sizing_function
                matches MaxTrackSizingFunction::Fixed(LengthPercentage::Percent(_))
                || self.max_track_sizing_function
                matches MaxTrackSizingFunction::FitContent(LengthPercentage::Percent(_))),
    {
        self.min_track_sizing_function.uses_percentage()
            || self.max_track_sizing_function.uses_percentage()
    }

    /// Returns true if the track has an intrinsic min or max sizing
    /// function.
    pub fn has_intrinsic_sizing_function(&self) -> (r: bool)
        ensures
            r == (self.min_track_sizing_function.is_intrinsic_spec()
                || self.max_track_sizing_function.is_intrinsic_spec()),
    {
        self.min_track_sizing_function.is_intrinsic()
            || self.max_track_sizing_function.is_intrinsic()
    }

    /// The limit a fit-content track may grow to: the fixed limit, or the
    /// given fraction of the available grid space. The limit of a
    /// percentage against indefinite available space — and of any other
    /// sizing function — is genuinely unconstrained: positive infinity,
    /// never zero.
    pub open spec fn spec_fit_content_limit(self, axis_available_grid_space: Option<Unit>) -> Unit {
        match self.max_track_sizing_function {
            MaxTrackSizingFunction::FitContent(LengthPercentage::Length(limit)) => limit,
            MaxTrackSizingFunction::FitContent(LengthPercentage::Percent(fraction)) => match axis_available_grid_space {
                Some(space) => space.spec_times(fraction),
                None => Unit { repr: INF },
            },
            _ => Unit { repr: INF },
        }
    }

    /// The fit-content limit of the track against the available grid space.
    pub fn fit_content_limit(&self, axis_available_grid_space: Option<Unit>) -> (r: Unit)
        ensures
            r == self.spec_fit_content_limit(axis_available_grid_space),
    {
        match self.max_track_sizing_function {
            MaxTrackSizingFunction::FitContent(LengthPercentage::Length(limit)) => limit,
            MaxTrackSizingFunction::FitContent(LengthPercentage::Percent(fraction)) => {
                match axis_available_grid_space {
                    Some(space) => space.mul(fraction),
                    None => Unit::infinity(),
                }
            },
            _ => Unit::infinity(),
        }
    }

    /// The growth limit further capped by the fit-content limit. The
    /// minimum of a finite growth limit and an infinite fit-content limit
    /// is the growth limit itself.
    pub open spec fn spec_fit_content_limited_growth_limit(
        self,
        axis_available_grid_space: Option<Unit>,
    ) -> Unit {
        self.growth_limit.spec_minimum(self.spec_fit_content_limit(axis_available_grid_space))
    }

    /// The track's growth limit, capped by its fit-content limit.
    pub fn fit_content_limited_growth_limit(&self, axis_available_grid_space: Option<Unit>) -> (r:
        Unit)
        ensures
            r == self.spec_fit_content_limited_growth_limit(axis_available_grid_space),
    {
        self.growth_limit.min(self.fit_content_limit(axis_available_grid_space))
    }

    /// Returns the track's flex factor if it is a flex track, else zero.
    pub fn flex_factor(&self) -> (r: Unit)
        ensures
            r == (match self.max_track_sizing_function {
                MaxTrackSizingFunction::Fraction(flex_factor) => flex_factor,
                _ => Unit { repr: 0 },
            }),
    {
        match self.max_track_sizing_function {
            MaxTrackSizingFunction::Fraction(flex_factor) => flex_factor,
            _ => Unit::zero(),
        }
    }
}

/// Widening a fixed fit-content limit never lowers the limit a track may
/// grow to, nor the growth limit capped by it.
pub proof fn lemma_fit_content_limit_monotone(
    t1: GridTrack,
    t2: GridTrack,
    space: Option<Unit>,
    l1: Unit,
    l2: Unit,
)
    requires
        t1.max_track_sizing_function == MaxTrackSizingFunction::FitContent(
            LengthPercentage::Length(l1),
        ),
        t2.max_track_sizing_function == MaxTrackSizingFunction::FitContent(
            LengthPercentage::Length(l2),
        ),
        t2.growth_limit == t1.growth_limit,
        l1.repr <= l2.repr,
    ensures
        t1.spec_fit_content_limit(space).repr <= t2.spec_fit_content_limit(space).repr,
        t1.spec_fit_content_limited_growth_limit(space).repr
            <= t2.spec_fit_content_limited_growth_limit(space).repr,
{
}

} // verus!
