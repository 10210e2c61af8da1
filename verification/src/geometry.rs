//! Geometry of the embedded view.
//!
//! The one non-trivial computation of the shell: given the parent window's
//! physical size, the display scale factor and the logical titlebar height,
//! place the embedded view at the left edge just below the titlebar,
//! spanning the full parent width and filling the remaining height (clamped
//! at zero when the parent is shorter than the titlebar).

use vstd::prelude::*;

use crate::constants::SCALE_ONE_MILLIS;

verus! {

/// A per-monitor display scale factor: the ratio of physical to logical
/// pixels, carried in thousandths so that fractional scales are exact.
/// A scale factor is positive.
#[derive(Clone, Copy, Debug, PartialEq, Eq, Structural)]
pub struct ScaleFactor {
    /// Thousandths of the ratio: 1000 is a scale of one, 2000 a scale of two.
    pub millis: u32,
}

impl ScaleFactor {
    /// Well-formedness: a scale factor is positive.
    pub open spec fn wf(self) -> bool {
        self.millis > 0
    }

    /// A scale factor of `millis` thousandths.
    pub fn new(millis: u32) -> (s: ScaleFactor)
        requires
            millis > 0,
        ensures
            s.millis == millis,
            s.wf(),
    {
        ScaleFactor { millis }
    }

    /// A scale factor of one: the fallback when the host cannot report one.
    pub fn identity() -> (s: ScaleFactor)
        ensures
            s.millis == SCALE_ONE_MILLIS,
            s.wf(),
    {
        ScaleFactor { millis: SCALE_ONE_MILLIS }
    }
}

/// Physical-pixel rectangle of the embedded view inside its parent window:
/// position of the top-left corner and size. All components are
/// non-negative.
#[derive(Clone, Copy, Debug, PartialEq, Eq, Structural)]
pub struct Bounds {
    /// Horizontal position of the left edge, in physical pixels.
    pub x: u32,
    /// Vertical position of the top edge, in physical pixels.
    pub y: u32,
    /// Width in physical pixels.
    pub width: u32,
    /// Height in physical pixels.
    pub height: u32,
}

/// A logical length scaled to physical pixels and rounded to the nearest
/// whole pixel (halves round up; every quantity here is non-negative).
pub open spec fn spec_scaled_physical(logical: int, scale_millis: int) -> int {
    (logical * scale_millis + (SCALE_ONE_MILLIS as int) / 2) / (SCALE_ONE_MILLIS as int)
}

/// What the geometry computation owes: the view starts at the left edge
/// just below the titlebar, spans the full parent width, and fills the
/// remaining height, clamped at zero when the parent window is no taller
/// than the scaled titlebar.
pub open spec fn is_bounds_for(
    b: Bounds,
    parent_width: int,
    parent_height: int,
    scale_millis: int,
    titlebar_logical: int,
) -> bool {
    &&& b.x == 0
    &&& b.y == spec_scaled_physical(titlebar_logical, scale_millis)
    &&& b.width == parent_width
    &&& b.height == if parent_height > b.y { parent_height - b.y } else { 0 }
}

/// Compute the physical position and size for the embedded view from the
/// parent window's physical size, the display scale factor and the logical
/// titlebar height. Total and pure: every well-formed input yields the one
/// rectangle `is_bounds_for` describes.
pub fn compute_bounds(
    parent_width: u32,
    parent_height: u32,
    scale: ScaleFactor,
    titlebar_logical: u32,
) -> (b: Bounds)
    requires
        scale.wf(),
        spec_scaled_physical(titlebar_logical as int, scale.millis as int) <= u32::MAX,
    ensures
        is_bounds_for(
            b,
            parent_width as int,
            parent_height as int,
            scale.millis as int,
            titlebar_logical as int,
        ),
{
    proof {
        assert((titlebar_logical as int) * (scale.millis as int) <= (u32::MAX as int)
            * (u32::MAX as int)) by (nonlinear_arith)
            requires
                titlebar_logical <= u32::MAX,
                scale.millis <= u32::MAX,
        ;
    }
    let titlebar_physical_wide: u64 = ((titlebar_logical as u64) * (scale.millis as u64)
        + ((SCALE_ONE_MILLIS / 2) as u64)) / (SCALE_ONE_MILLIS as u64);
    let titlebar_physical: u32 = titlebar_physical_wide as u32;
    let height: u32 = if parent_height > titlebar_physical {
        parent_height - titlebar_physical
    } else {
        0
    };
    Bounds { x: 0, y: titlebar_physical, width: parent_width, height }
}

/// Law: the geometry computation is deterministic, hence idempotent — any
/// two bounds computed from identical inputs coincide, so repeating the
/// computation with unchanged inputs changes nothing.
pub proof fn lemma_bounds_deterministic(
    b1: Bounds,
    b2: Bounds,
    parent_width: int,
    parent_height: int,
    scale_millis: int,
    titlebar_logical: int,
)
    requires
        is_bounds_for(b1, parent_width, parent_height, scale_millis, titlebar_logical),
        is_bounds_for(b2, parent_width, parent_height, scale_millis, titlebar_logical),
    ensures
        b1 == b2,
{
}

} // verus!
