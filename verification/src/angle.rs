//! Angles on the dial, held exactly.

use vstd::prelude::*;

verus! {

/// Half-degrees in a full turn.
pub const FULL_TURN: u32 = 720;

/// Half-degrees in a quarter turn.
pub const QUARTER_TURN: u32 = 180;

/// A direction on the dial, measured clockwise from twelve o'clock.
///
/// The unit is half a degree: the hour hand moves by half a degree per
/// minute, and every other angle of the face is a whole number of degrees,
/// so half-degrees represent all of them exactly.
///
/// A point at distance `len` from the centre `(cx, cy)` in this direction
/// lies at `x = cx + len * sin(angle)`, `y = cy - len * cos(angle)`, with
/// `y` growing downwards as on a screen.
#[derive(Clone, Copy, Debug, PartialEq, Eq, Structural)]
pub struct Angle {
    pub half_degrees: u32,
}

impl Angle {
    /// An angle is well formed when it lies in `[0°, 360°)`.
    pub open spec fn wf(self) -> bool {
        self.half_degrees < FULL_TURN
    }

    /// The angle of `n` half-degrees, wrapped into one turn.
    pub open spec fn of_half_degrees(n: int) -> Angle {
        Angle { half_degrees: (n % 720) as u32 }
    }

    /// The angle of `degrees` whole degrees, wrapped into `[0°, 360°)`.
    pub fn from_degrees(degrees: u32) -> (angle: Angle)
        ensures
            angle == Angle::of_half_degrees(2 * degrees),
            angle.wf(),
    {
        let whole: u32 = degrees % 360;
        Angle { half_degrees: whole * 2 }
    }

    /// The same direction measured from twelve o'clock, for an angle that was
    /// measured clockwise from three o'clock (the positive horizontal axis).
    pub fn from_three_oclock(self) -> (angle: Angle)
        requires
            self.wf(),
        ensures
            angle == Angle::of_half_degrees(self.half_degrees + QUARTER_TURN),
            angle.wf(),
    {
        let shifted: u32 = self.half_degrees + QUARTER_TURN;
        if shifted >= FULL_TURN {
            Angle { half_degrees: shifted - FULL_TURN }
        } else {
            Angle { half_degrees: shifted }
        }
    }
}

} // verus!
