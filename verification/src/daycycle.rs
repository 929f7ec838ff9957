//! The day/night clock: game time runs at a mode-dependent rate, pauses
//! at dusk until the player sleeps, and rolls over into a new day.

use vstd::prelude::*;

verus! {

/// Raised once each time the clock rolls over into a new day.
#[derive(Clone, Copy, Debug, PartialEq, Eq, Structural)]
pub struct NewDayEvent;

/// The clock's mode: daytime runs at normal rate, Pending stands still
/// at dusk until the player sleeps, Night runs fast until morning.
#[derive(Clone, Copy, Debug, PartialEq, Eq, Structural)]
pub enum TimeMode {
    Day,
    Pending,
    Night,
}

/// How long one game day takes in microseconds of real time at day rate.
pub const DAY_LEN_US: u64 = 240000000;

/// The largest tick the clock accepts, in microseconds of real time.
pub const TICK_LIMIT_US: u64 = 3600000000;

/// The day/night clock. `daytime` is game time since 7 AM within the
/// current day, in the same microsecond scale as `DAY_LEN_US`: 0 is
/// 7 AM, half a day is 7 PM, a full day is 7 AM again.
#[derive(Clone, Copy, Debug, PartialEq, Eq, Structural)]
pub struct DayCycle {
    pub daytime: u64,
    pub mode: TimeMode,
    pub day: usize,
}

impl DayCycle {
    /// The clock never runs past the end of a day without rolling over.
    pub open spec fn wf(self) -> bool {
        self.daytime <= DAY_LEN_US
    }

    /// How many microseconds of game time pass per microsecond of real
    /// time in each mode.
    pub open spec fn rate(mode: TimeMode) -> int {
        match mode {
            TimeMode::Day => 1,
            TimeMode::Pending => 0,
            TimeMode::Night => 24,
        }
    }

    /// The clock after one tick of `delta_us` microseconds of real time:
    /// game time advances at the mode's rate; a day that reaches dusk
    /// stops there pending sleep; a night that reaches morning starts
    /// the next day.
    pub open spec fn ticked(self, delta_us: u64) -> DayCycle {
        let t = self.daytime + Self::rate(self.mode) * delta_us;
        if self.mode is Day && t > DAY_LEN_US / 2 {
            DayCycle { daytime: DAY_LEN_US / 2, mode: TimeMode::Pending, day: self.day }
        } else if self.mode is Night && t > DAY_LEN_US {
            DayCycle { daytime: 0, mode: TimeMode::Day, day: (self.day + 1) as usize }
        } else {
            DayCycle { daytime: t as u64, mode: self.mode, day: self.day }
        }
    }

    /// Whether a tick of `delta_us` rolls the clock over into a new day.
    pub open spec fn rolls_over(self, delta_us: u64) -> bool {
        self.mode is Night && self.daytime + Self::rate(self.mode) * delta_us > DAY_LEN_US
    }

    /// The clock after the player goes to sleep: night begins, time and
    /// day count untouched.
    pub open spec fn slept(self) -> DayCycle {
        DayCycle { mode: TimeMode::Night, ..self }
    }

    /// A fresh clock: 7 AM of day one.
    pub fn new() -> (r: DayCycle)
        ensures
            r == (DayCycle { daytime: 0u64, mode: TimeMode::Day, day: 1usize }),
            r.wf(),
    {
        DayCycle { daytime: 0, mode: TimeMode::Day, day: 1 }
    }

    /// Advance the clock by one tick of real time, reporting the new day
    /// when night rolls over into morning.
    pub fn tick(&mut self, delta_us: u64) -> (r: Option<NewDayEvent>)
        requires
            old(self).wf(),
            delta_us <= TICK_LIMIT_US,
            old(self).day < usize::MAX,
        ensures
            *final (self) == old(self).ticked(delta_us),
            final (self).wf(),
            r == if old(self).rolls_over(delta_us) {
                Some(NewDayEvent)
            } else {
                None::<NewDayEvent>
            },
    {
        let rate: u64 = match self.mode {
            TimeMode::Day => 1,
            TimeMode::Pending => 0,
            TimeMode::Night => 24,
        };
        let t = self.daytime + rate * delta_us;
        if self.mode == TimeMode::Day && t > DAY_LEN_US / 2 {
            self.daytime = DAY_LEN_US / 2;
            self.mode = TimeMode::Pending;
            None
        } else if self.mode == TimeMode::Night && t > DAY_LEN_US {
            self.daytime = 0;
            self.mode = TimeMode::Day;
            self.day = self.day + 1;
            Some(NewDayEvent)
        } else {
            self.daytime = t;
            None
        }
    }

    /// Go to sleep: switch the clock to night.
    pub fn sleep(&mut self)
        ensures
            *final (self) == old(self).slept(),
    {
        self.mode = TimeMode::Night;
    }
}

} // verus!
