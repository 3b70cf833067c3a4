//! The time of day that a clock face shows.

use vstd::prelude::*;

verus! {

/// A wall-clock reading: hour, minute and second of the day.
#[derive(Clone, Copy, Debug, PartialEq, Eq, Structural)]
pub struct ClockReading {
    pub hour: u32,
    pub minute: u32,
    pub second: u32,
}

/// The decimal digit `d` as a character.
pub open spec fn digit_char(d: int) -> char {
    (('0' as u8) + d) as u8 as char
}

/// The number `n` below 100 as two decimal digits, the first of them `0`
/// where `n` is below ten.
pub open spec fn two_digits(n: int) -> Seq<char> {
    seq![digit_char(n / 10), digit_char(n % 10)]
}

impl ClockReading {
    /// A reading is well formed when it names a second of the day.
    pub open spec fn wf(self) -> bool {
        self.hour < 24 && self.minute < 60 && self.second < 60
    }

    /// The digital label of the reading: `HH:MM:SS` on the 24-hour clock.
    pub open spec fn label(self) -> Seq<char> {
        two_digits(self.hour as int) + seq![':'] + two_digits(self.minute as int) + seq![':']
            + two_digits(self.second as int)
    }

    /// The reading `hour:minute:second`, or `None` when that is no time of day.
    pub fn new(hour: u32, minute: u32, second: u32) -> (reading: Option<ClockReading>)
        ensures
            reading == if hour < 24 && minute < 60 && second < 60 {
                Some(ClockReading { hour, minute, second })
            } else {
                None
            },
    {
        if hour < 24 && minute < 60 && second < 60 {
            Some(ClockReading { hour, minute, second })
        } else {
            None
        }
    }

    /// Computes [`ClockReading::label`].
    pub fn digital_label(&self) -> (text: String)
        requires
            self.wf(),
        ensures
            text@ == self.label(),
            text@.len() == 8,
    {
        format_hms(self.hour, self.minute, self.second)
    }
}

/// The local time of day at the moment of the call.
///
/// Calls `chrono::Local::now` and reads the result with `Timelike::hour`,
/// `Timelike::minute` and `Timelike::second`. Nothing is claimed about which
/// time comes back, only what chrono documents of every time: the hour lies
/// in `0..=23`, the minute and the second in `0..=59`.
#[verifier::external_body]
pub(crate) fn local_now() -> (reading: ClockReading)
    ensures
        reading.wf(),
{
    let now = chrono::Local::now();
    ClockReading {
        hour: chrono::Timelike::hour(&now),
        minute: chrono::Timelike::minute(&now),
        second: chrono::Timelike::second(&now),
    }
}

/// The text `HH:MM:SS` for a time of day.
///
/// Builds a `chrono::NaiveTime` with `from_hms_opt` and formats it with
/// `NaiveTime::format` and the pattern `%H:%M:%S`. The contract claims what
/// chrono documents of that pattern: hour, minute and second, each as two
/// decimal digits padded with a zero, with a colon between them.
/// `from_hms_opt` returns `None` for a time out of range, which the
/// precondition rules out.
#[verifier::external_body]
pub(crate) fn format_hms(hour: u32, minute: u32, second: u32) -> (text: String)
    requires
        hour < 24,
        minute < 60,
        second < 60,
    ensures
        text@ == (ClockReading { hour, minute, second }).label(),
{
    chrono::NaiveTime::from_hms_opt(hour, minute, second).unwrap().format("%H:%M:%S").to_string()
}

} // verus!
