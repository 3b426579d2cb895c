//! The measurement capability a host supplies for leaf nodes with
//! intrinsic content (text, images): a pure function from the sizing
//! constraints to a content size.

use vstd::prelude::*;
use crate::unit::Unit;
use crate::geometry::Size;
use crate::style::AvailableSpace;

verus! {

/// Measures the intrinsic content of a leaf node. The measurement must be
/// a pure function of its inputs — deterministic and without side effects —
/// since its result may be cached; an implementor states that function as
/// `spec_measure` and proves `measure` returns it.
pub trait Measurable {
    /// The measured size as a function of the constraints.
    spec fn spec_measure(
        &self,
        known_dimensions: Size<Option<Unit>>,
        available_space: Size<AvailableSpace>,
    ) -> Size<Unit>;

    /// Measure the node's content under the given constraints.
    fn measure(
        &self,
        known_dimensions: Size<Option<Unit>>,
        available_space: Size<AvailableSpace>,
    ) -> (r: Size<Unit>)
        ensures
            r == self.spec_measure(known_dimensions, available_space),
    ;
}

/// A measurement that reports the same content size whatever the
/// constraints: the simplest host-supplied measure, and the one the tree
/// stores for test content.
#[derive(Copy, Clone, Debug, PartialEq, Eq, Structural)]
pub struct FixedMeasure {
    /// The content size reported for every call.
    pub size: Size<Unit>,
}

impl Measurable for FixedMeasure {
    open spec fn spec_measure(
        &self,
        known_dimensions: Size<Option<Unit>>,
        available_space: Size<AvailableSpace>,
    ) -> Size<Unit> {
        self.size
    }

    fn measure(
        &self,
        known_dimensions: Size<Option<Unit>>,
        available_space: Size<AvailableSpace>,
    ) -> (r: Size<Unit>) {
        self.size
    }
}

} // verus!
