//! Wall-clock and in-game time counters.

use vstd::prelude::*;

verus! {

/// How far one minute is, in milliseconds.
pub const MILLIS_PER_MINUTE: u32 = 60_000;

/// The time state of a running world: the last frame delta, the total
/// elapsed wall-clock time, and the in-game calendar clock.
#[derive(Clone, Copy, Debug, PartialEq, Eq, Structural)]
pub struct Time {
    pub dt_millis: u32,
    pub t_millis: u64,
    pub game_time_days: u16,
    pub game_time_hours: u8,
    pub game_time_minutes: u8,
    pub game_time_millis: u32,
}

/// The in-game clock advanced by one frame of `dt * time_scale`
/// milliseconds, with at most one carry into each larger unit.
pub open spec fn spec_advanced_game_time(t: Time, time_scale: u32) -> Time {
    let millis0 = t.game_time_millis + t.dt_millis * time_scale;
    let millis1 = if millis0 >= MILLIS_PER_MINUTE {
        millis0 - MILLIS_PER_MINUTE
    } else {
        millis0
    };
    let minutes0 = if millis0 >= MILLIS_PER_MINUTE {
        t.game_time_minutes + 1
    } else {
        t.game_time_minutes as int
    };
    let minutes1 = if minutes0 >= 60 {
        minutes0 - 60
    } else {
        minutes0
    };
    let hours0 = if minutes0 >= 60 {
        t.game_time_hours + 1
    } else {
        t.game_time_hours as int
    };
    let hours1 = if hours0 >= 24 {
        hours0 - 24
    } else {
        hours0
    };
    let days = if hours0 >= 24 {
        t.game_time_days + 1
    } else {
        t.game_time_days as int
    };
    Time {
        game_time_days: days as u16,
        game_time_hours: hours1 as u8,
        game_time_minutes: minutes1 as u8,
        game_time_millis: millis1 as u32,
        ..t
    }
}

impl Time {
    /// Record one frame: set the frame delta and add it to the total
    /// elapsed time.
    pub fn advance_dt(&mut self, dt: u32)
        requires
            old(self).t_millis + dt <= u64::MAX,
        ensures
            *final(self) == (Time {
                dt_millis: dt,
                t_millis: (old(self).t_millis + dt) as u64,
                ..*old(self)
            }),
    {
        self.dt_millis = dt;
        self.t_millis = self.t_millis + (dt as u64);
    }

    /// The delta of the last recorded frame, in milliseconds.
    pub fn dt_millis(self) -> (r: u32)
        ensures
            r == self.dt_millis,
    {
        self.dt_millis
    }

    /// The in-game day counter.
    pub fn game_time_days(self) -> (r: u16)
        ensures
            r == self.game_time_days,
    {
        self.game_time_days
    }

    /// The in-game hour of the day.
    pub fn game_time_hours(self) -> (r: u8)
        ensures
            r == self.game_time_hours,
    {
        self.game_time_hours
    }

    /// The in-game milliseconds within the minute.
    pub fn game_time_millis(self) -> (r: u32)
        ensures
            r == self.game_time_millis,
    {
        self.game_time_millis
    }

    /// The in-game minute of the hour.
    pub fn game_time_minutes(self) -> (r: u8)
        ensures
            r == self.game_time_minutes,
    {
        self.game_time_minutes
    }

    /// Set the in-game calendar clock.
    pub fn set_game_time(&mut self, days: u16, hours: u8, minutes: u8, millis: u32)
        ensures
            *final(self) == (Time {
                game_time_days: days,
                game_time_hours: hours,
                game_time_minutes: minutes,
                game_time_millis: millis,
                ..*old(self)
            }),
    {
        self.game_time_days = days;
        self.game_time_hours = hours;
        self.game_time_minutes = minutes;
        self.game_time_millis = millis;
    }

    /// The total elapsed wall-clock time, in milliseconds.
    pub fn t_millis(self) -> (r: u64)
        ensures
            r == self.t_millis,
    {
        self.t_millis
    }

    /// Advance the in-game clock by the last frame delta scaled by
    /// `time_scale`, carrying at most one unit into minutes, hours and
    /// days.
    pub fn advance_game_time(&mut self, time_scale: u32)
        requires
            old(self).game_time_millis + old(self).dt_millis * time_scale <= u32::MAX,
            old(self).game_time_minutes < u8::MAX,
            old(self).game_time_hours < u8::MAX,
            old(self).game_time_days < u16::MAX,
        ensures
            *final(self) == spec_advanced_game_time(*old(self), time_scale),
    {
        let mut days = self.game_time_days;
        let mut hours = self.game_time_hours;
        let mut minutes = self.game_time_minutes;
        let scaled: u64 = (self.dt_millis as u64) * (time_scale as u64);
        let mut millis: u32 = self.game_time_millis + (scaled as u32);
        if millis >= MILLIS_PER_MINUTE {
            millis = millis - MILLIS_PER_MINUTE;
            minutes = minutes + 1;
        }
        if minutes >= 60 {
            minutes = minutes - 60;
            hours = hours + 1;
        }
        if hours >= 24 {
            hours = hours - 24;
            days = days + 1;
        }
        self.set_game_time(days, hours, minutes, millis);
    }
}

/// The total milliseconds of an elapsed time given as whole seconds and
/// the milliseconds of the fractional second.
pub fn duration_to_millis(secs: u64, subsec_millis: u32) -> (r: u64)
    requires
        secs * 1000 + subsec_millis <= u64::MAX,
    ensures
        r == secs * 1000 + subsec_millis,
{
    secs * 1000 + (subsec_millis as u64)
}

impl Default for Time {
    /// The zero time state: nothing elapsed, the calendar at day zero.
    fn default() -> (r: Time)
        ensures
            r == (Time {
                dt_millis: 0,
                t_millis: 0,
                game_time_days: 0,
                game_time_hours: 0,
                game_time_minutes: 0,
                game_time_millis: 0,
            }),
    {
        Time {
            dt_millis: 0,
            t_millis: 0,
            game_time_days: 0,
            game_time_hours: 0,
            game_time_minutes: 0,
            game_time_millis: 0,
        }
    }
}

} // verus!
