//! The geometry of the dial: where the face sits, how the hands point and
//! how long the tick marks are.

use vstd::prelude::*;
use crate::angle::{Angle, QUARTER_TURN};
use crate::reading::ClockReading;

verus! {

/// Hundredths in one logical unit. Every length of this crate is a whole
/// number of hundredths.
pub const UNIT: i64 = 100;

/// The number of tick marks round the face.
pub const TICKS: u32 = 12;

/// A position on the logical canvas, in hundredths of a unit, with the origin
/// at the top left and `y` growing downwards.
#[derive(Clone, Copy, Debug, PartialEq, Eq, Structural)]
pub struct Point {
    pub x: i64,
    pub y: i64,
}

/// The size of the logical canvas and of the face on it, in whole units.
#[derive(Clone, Copy, Debug, PartialEq, Eq, Structural)]
pub struct Layout {
    pub width: u32,
    pub height: u32,
    pub radius: u32,
}

impl Layout {
    /// The centre of the face: the middle of the canvas, lifted by 40 units
    /// to leave room for the label below.
    pub open spec fn center(self) -> Point {
        Point { x: (50 * self.width) as i64, y: (50 * self.height - 4000) as i64 }
    }

    /// The baseline of the digital label: 40 units above the bottom edge.
    pub open spec fn baseline(self) -> int {
        100 * self.height - 4000
    }

    /// The canvas of 400 by 300 units with a face of radius 100.
    pub fn standard() -> (layout: Layout)
        ensures
            layout == (Layout { width: 400, height: 300, radius: 100 }),
    {
        Layout { width: 400, height: 300, radius: 100 }
    }

    /// Computes [`Layout::center`].
    pub fn face_center(&self) -> (center: Point)
        ensures
            center == self.center(),
            2 * center.x == 100 * self.width,
            2 * (center.y + 4000) == 100 * self.height,
    {
        let w: i64 = self.width as i64;
        let h: i64 = self.height as i64;
        Point { x: 50 * w, y: 50 * h - 4000 }
    }

    /// Computes [`Layout::baseline`].
    pub fn label_baseline(&self) -> (baseline: i64)
        ensures
            baseline == self.baseline(),
    {
        let h: i64 = self.height as i64;
        100 * h - 4000
    }
}

/// One of the three hands.
#[derive(Clone, Copy, Debug, PartialEq, Eq, Structural)]
pub enum Hand {
    Hour,
    Minute,
    Second,
}

impl Hand {
    /// Where the hand points at a given time.
    ///
    /// The hour hand turns 30° per hour and half a degree per minute, so it
    /// moves smoothly between the hour marks; the minute and second hands
    /// turn 6° per minute and per second.
    pub open spec fn angle_at(self, reading: ClockReading) -> Angle {
        match self {
            Hand::Hour => Angle::of_half_degrees(60 * reading.hour + reading.minute),
            Hand::Minute => Angle::of_half_degrees(12 * reading.minute),
            Hand::Second => Angle::of_half_degrees(12 * reading.second),
        }
    }

    /// The length of the hand in hundredths, for a face of `radius` units:
    /// a half, seven tenths and three quarters of the radius.
    pub open spec fn length_for(self, radius: int) -> int {
        match self {
            Hand::Hour => 50 * radius,
            Hand::Minute => 70 * radius,
            Hand::Second => 75 * radius,
        }
    }

    /// The thickness of the hand in hundredths: 5, 4 and 3 units.
    pub open spec fn thickness(self) -> int {
        match self {
            Hand::Hour => 500,
            Hand::Minute => 400,
            Hand::Second => 300,
        }
    }

    /// Computes [`Hand::angle_at`].
    pub fn angle(self, reading: &ClockReading) -> (angle: Angle)
        requires
            reading.wf(),
        ensures
            angle == self.angle_at(*reading),
            angle.wf(),
            self == Hand::Hour ==> angle.half_degrees == (60 * reading.hour + reading.minute) % 720,
            self == Hand::Minute ==> angle.half_degrees == 12 * reading.minute,
            self == Hand::Second ==> angle.half_degrees == 12 * reading.second,
    {
        match self {
            Hand::Hour => {
                let on_dial: u32 = reading.hour % 12;
                assert((60 * reading.hour + reading.minute) % 720 == 60 * on_dial + reading.minute) by {
                    if reading.hour >= 12 {
                        assert(on_dial == reading.hour - 12);
                    }
                }
                Angle { half_degrees: 60 * on_dial + reading.minute }
            },
            Hand::Minute => Angle { half_degrees: 12 * reading.minute },
            Hand::Second => Angle { half_degrees: 12 * reading.second },
        }
    }

    /// Computes [`Hand::length_for`].
    pub fn length(self, radius: u32) -> (length: i64)
        ensures
            length == self.length_for(radius as int),
            self == Hand::Hour ==> 2 * length == 100 * radius,
            self == Hand::Minute ==> 10 * length == 700 * radius,
            self == Hand::Second ==> 4 * length == 300 * radius,
    {
        let r: i64 = radius as i64;
        match self {
            Hand::Hour => 50 * r,
            Hand::Minute => 70 * r,
            Hand::Second => 75 * r,
        }
    }

    /// Computes [`Hand::thickness`].
    pub fn line_width(self) -> (width: i64)
        ensures
            width == self.thickness(),
    {
        match self {
            Hand::Hour => 500,
            Hand::Minute => 400,
            Hand::Second => 300,
        }
    }
}

/// How far the tick mark `index` reaches inwards from the rim, in hundredths,
/// on a face of `radius` units: a fifth of the radius for every third mark,
/// a tenth for the others.
pub open spec fn tick_inset_for(index: int, radius: int) -> int {
    if index % 3 == 0 {
        20 * radius
    } else {
        10 * radius
    }
}

/// The direction of tick mark `index`, measured clockwise from three o'clock:
/// 30° per mark.
pub open spec fn tick_angle_of(index: int) -> Angle {
    Angle::of_half_degrees(60 * index)
}

/// The direction of tick mark `index`, measured clockwise from twelve o'clock.
pub open spec fn tick_bearing_of(index: int) -> Angle {
    Angle::of_half_degrees(60 * index + 180)
}

/// Computes [`tick_inset_for`].
pub fn tick_inset(index: u32, radius: u32) -> (inset: i64)
    ensures
        inset == tick_inset_for(index as int, radius as int),
        index % 3 == 0 ==> 5 * inset == 100 * radius,
        index % 3 != 0 ==> 10 * inset == 100 * radius,
{
    let r: i64 = radius as i64;
    if index % 3 == 0 {
        20 * r
    } else {
        10 * r
    }
}

/// Computes [`tick_angle_of`].
pub fn tick_angle(index: u32) -> (angle: Angle)
    ensures
        angle == tick_angle_of(index as int),
        angle.wf(),
        index < TICKS ==> angle.half_degrees == 60 * index,
{
    let on_dial: u32 = index % 12;
    Angle { half_degrees: 60 * on_dial }
}

/// Computes [`tick_bearing_of`].
pub fn tick_bearing(index: u32) -> (angle: Angle)
    ensures
        angle == tick_bearing_of(index as int),
        angle.wf(),
{
    tick_angle(index).from_three_oclock()
}

/// In the first half of the day the hour hand stands at `hour * 30 +
/// minute * 0.5` degrees, without any wrapping: twice that angle is
/// `60 * hour + minute` half-degrees, short of a full turn.
pub proof fn hour_hand_moves_smoothly(reading: ClockReading)
    requires
        reading.wf(),
        reading.hour < 12,
    ensures
        Hand::Hour.angle_at(reading).half_degrees == 2 * (30 * reading.hour) + reading.minute,
        Hand::Hour.angle_at(reading).wf(),
{
}

/// The hour hand shows the same angle twelve hours later: the angle of a
/// time in the second half of the day is that of `hour - 12`, which is how
/// the angle wraps into one turn.
pub proof fn hour_hand_wraps_at_noon(reading: ClockReading)
    requires
        reading.wf(),
        reading.hour >= 12,
    ensures
        Hand::Hour.angle_at(reading) == Hand::Hour.angle_at(
            ClockReading { hour: (reading.hour - 12) as u32, ..reading },
        ),
        Hand::Hour.angle_at(reading).wf(),
{
}

/// The minute hand stands at exactly `minute * 6` degrees and the second
/// hand at exactly `second * 6` degrees.
pub proof fn minute_and_second_hands_step_by_six_degrees(reading: ClockReading)
    requires
        reading.wf(),
    ensures
        Hand::Minute.angle_at(reading).half_degrees == 2 * (6 * reading.minute),
        Hand::Second.angle_at(reading).half_degrees == 2 * (6 * reading.second),
        Hand::Minute.angle_at(reading).wf(),
        Hand::Second.angle_at(reading).wf(),
{
}

/// The inset of a tick mark is a fifth of the radius where its index is a
/// multiple of three and a tenth of the radius elsewhere.
pub proof fn tick_inset_is_fifth_or_tenth(index: int, radius: int)
    requires
        0 <= index < TICKS,
        0 <= radius,
    ensures
        index % 3 == 0 ==> 5 * tick_inset_for(index, radius) == 100 * radius,
        index % 3 != 0 ==> 10 * tick_inset_for(index, radius) == 100 * radius,
        0 <= tick_inset_for(index, radius) <= 100 * radius,
{
}

/// Seen from twelve o'clock a tick mark stands a quarter turn further than
/// seen from three o'clock, and the long marks are the four that stand at
/// twelve, three, six and nine: those whose bearing is a multiple of 90°.
pub proof fn long_ticks_stand_on_the_quarters(index: int)
    requires
        0 <= index < TICKS,
    ensures
        tick_angle_of(index).wf(),
        tick_angle_of(index).half_degrees == 2 * (30 * index),
        tick_bearing_of(index) == Angle::of_half_degrees(
            tick_angle_of(index).half_degrees + QUARTER_TURN,
        ),
        index % 3 == 0 <==> tick_bearing_of(index).half_degrees % QUARTER_TURN == 0,
{
}

} // verus!
