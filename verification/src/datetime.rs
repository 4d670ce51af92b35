//! The clock of the bar: when it is to look at the time again, and whether it
//! is drawn as open.

use crate::overlay::ActiveOverlay;
use vstd::prelude::*;

verus! {

/// How long the clock sleeps after it read the time, as whole seconds and
/// further nanoseconds: the seconds left of the minute and the nanoseconds left
/// of the second, each counted from its full length. Nothing is left of a part
/// that is already past its length, as the nanoseconds are within a leap
/// second.
pub open spec fn pause(second: u32, nanosecond: u32) -> (u64, u32) {
    (
        if second <= 60 {
            (60 - second) as u64
        } else {
            0
        },
        if nanosecond <= 1_000_000_000 {
            (1_000_000_000 - nanosecond) as u32
        } else {
            0
        },
    )
}

/// How long the clock sleeps after it read the time `second`, `nanosecond`.
pub fn sleep_duration(second: u32, nanosecond: u32) -> (duration: (u64, u32))
    ensures
        duration == pause(second, nanosecond),
{
    let seconds_remaining: u32 = if second <= 60 {
        60 - second
    } else {
        0
    };
    let nanos_remaining: u32 = if nanosecond <= 1_000_000_000 {
        1_000_000_000 - nanosecond
    } else {
        0
    };
    (seconds_remaining as u64, nanos_remaining)
}

/// The clock in the middle of the bar.
pub struct DateTime {
    open: bool,
}

impl DateTime {
    /// Whether the clock is drawn as open.
    pub closed spec fn open(&self) -> bool {
        self.open
    }

    /// A clock that is not open.
    pub fn new() -> (clock: Self)
        ensures
            !clock.open(),
    {
        DateTime { open: false }
    }

    /// Whether the clock is drawn as open.
    pub fn is_open(&self) -> (b: bool)
        ensures
            b == self.open(),
    {
        self.open
    }

    /// What the clock is told when the open overlay changes: it is open
    /// exactly while the centre overlay is.
    pub fn watch(overlay: Option<ActiveOverlay>) -> (open: bool)
        ensures
            open == (overlay == Some(ActiveOverlay::Center)),
    {
        ActiveOverlay::is_center(overlay)
    }

    /// Draws the clock as open or not.
    pub fn update(&mut self, open: bool)
        ensures
            final(self).open() == open,
    {
        self.open = open;
    }
}

} // verus!
