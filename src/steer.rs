//! Sign decisions of the steering step: which way a proximity force turns
//! a bird, and how a bird that left the arena re-enters it.
use vstd::prelude::*;

verus! {

/// The sign with which a rotation is applied.
#[derive(Copy, Clone, Debug, PartialEq, Eq, Structural)]
pub enum Sign {
    Plus,
    Minus,
}

/// The quadrant table of the proximity turn. In a frame aligned with the
/// neighbours' mean heading, a bird on the non-negative side of the axis
/// (`y >= +0`) applies the rotation as given when it heads into the front
/// half-circle and negated when it heads into the back half-circle (headings
/// strictly between a quarter and three quarters of a turn); a bird on the
/// negative side does the opposite.
pub open spec fn rotation_sign_spec(y_non_negative: bool, facing_back: bool) -> Sign {
    if y_non_negative != facing_back {
        Sign::Plus
    } else {
        Sign::Minus
    }
}

/// Picks the sign of the proximity turn from the side of the bird and the
/// half-circle its heading points into.
pub fn rotation_sign(y_non_negative: bool, facing_back: bool) -> (r: Sign)
    ensures
        r == rotation_sign_spec(y_non_negative, facing_back),
{
    if y_non_negative {
        if facing_back {
            Sign::Minus
        } else {
            Sign::Plus
        }
    } else {
        if facing_back {
            Sign::Plus
        } else {
            Sign::Minus
        }
    }
}

/// How a position is moved on one axis to wrap around the arena.
#[derive(Copy, Clone, Debug, PartialEq, Eq, Structural)]
pub enum AxisWrap {
    /// Within bounds: unchanged.
    Stay,
    /// At or beyond the high bound: moved back by the arena size plus bleed.
    Back,
    /// At or beyond the low bound: moved forward by the arena size plus bleed.
    Forward,
}

/// The wrap of one axis, given whether the coordinate has reached the high
/// bound (plus bleed) and the low bound (minus bleed); the high bound is
/// checked first.
pub fn axis_wrap(at_high: bool, at_low: bool) -> (r: AxisWrap)
    ensures
        r == (if at_high {
            AxisWrap::Back
        } else if at_low {
            AxisWrap::Forward
        } else {
            AxisWrap::Stay
        }),
{
    if at_high {
        AxisWrap::Back
    } else if at_low {
        AxisWrap::Forward
    } else {
        AxisWrap::Stay
    }
}

} // verus!
