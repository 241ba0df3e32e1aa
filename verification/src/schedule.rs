//! The weekly schedule and the decision taken at each wake.

use vstd::prelude::*;

verus! {

/// The minute of the hour before the deletion hour at which the warning is due.
pub const WARNING_MINUTE: u32 = 45;

/// Seconds between two wakes of the cleaner.
pub const POLL_INTERVAL_SECS: u64 = 60;

/// A day of the week.
#[derive(Clone, Copy, Debug, PartialEq, Eq, Structural)]
pub enum Weekday {
    Mon,
    Tue,
    Wed,
    Thu,
    Fri,
    Sat,
    Sun,
}

/// What the local clock shows at a wake: the day of the week, the hour of the
/// day and the minute of the hour.
#[derive(Clone, Copy, Debug, PartialEq, Eq, Structural)]
pub struct ClockReading {
    pub weekday: Weekday,
    pub hour: u32,
    pub minute: u32,
}

impl ClockReading {
    /// A reading is well formed when it names a time of day that exists.
    pub open spec fn wf(self) -> bool {
        self.hour < 24 && self.minute < 60
    }

    /// The reading with these parts, if they name a time of day that exists.
    pub fn new(weekday: Weekday, hour: u32, minute: u32) -> (reading: Option<ClockReading>)
        ensures
            reading is Some <==> hour < 24 && minute < 60,
            reading is Some ==> reading->0 == (ClockReading { weekday, hour, minute }),
    {
        if hour < 24 && minute < 60 {
            Some(ClockReading { weekday, hour, minute })
        } else {
            None
        }
    }
}

/// What the cleaner does at a wake.
#[derive(Clone, Copy, Debug, PartialEq, Eq, Structural)]
pub enum Action {
    /// Tell the user that the files go in a quarter of an hour.
    Warn,
    /// Empty the folder and report.
    Clean,
    /// Nothing is due.
    Idle,
}

/// The weekly deletion time: a day of the week and an hour of that day.
#[derive(Clone, Copy, Debug, PartialEq, Eq, Structural)]
pub struct Schedule {
    pub weekday: Weekday,
    pub hour: u32,
}

impl Schedule {
    /// A schedule is well formed when its hour is an hour of the day.
    pub open spec fn wf(self) -> bool {
        self.hour < 24
    }

    /// The reading is the one minute at which the warning is due: the
    /// schedule's day, the hour before its hour, minute 45. A schedule for
    /// hour 0 has no such minute.
    pub open spec fn warning_due(self, now: ClockReading) -> bool {
        &&& now.weekday == self.weekday
        &&& now.hour == self.hour - 1
        &&& now.minute == WARNING_MINUTE
    }

    /// The reading lies in the deletion hour: the schedule's day and hour, at
    /// any minute.
    pub open spec fn deletion_due(self, now: ClockReading) -> bool {
        &&& now.weekday == self.weekday
        &&& now.hour == self.hour
    }

    /// The action that is due at a reading.
    pub open spec fn action_at(self, now: ClockReading) -> Action {
        if self.warning_due(now) {
            Action::Warn
        } else if self.deletion_due(now) {
            Action::Clean
        } else {
            Action::Idle
        }
    }

    /// The schedule for this day and hour, if the hour is an hour of the day.
    pub fn new(weekday: Weekday, hour: u32) -> (schedule: Option<Schedule>)
        ensures
            schedule is Some <==> hour < 24,
            schedule is Some ==> schedule->0 == (Schedule { weekday, hour }),
    {
        if hour < 24 {
            Some(Schedule { weekday, hour })
        } else {
            None
        }
    }

    /// The schedule the cleaner runs on: Sunday at noon.
    pub fn weekly() -> (schedule: Schedule)
        ensures
            schedule == (Schedule { weekday: Weekday::Sun, hour: 12 }),
            schedule.wf(),
    {
        Schedule { weekday: Weekday::Sun, hour: 12 }
    }

    /// Decides what is due at a reading of the clock.
    pub fn decide(&self, now: &ClockReading) -> (action: Action)
        ensures
            action == self.action_at(*now),
    {
        if now.weekday == self.weekday && self.hour >= 1 && now.hour == self.hour - 1
            && now.minute == WARNING_MINUTE {
            Action::Warn
        } else if now.weekday == self.weekday && now.hour == self.hour {
            Action::Clean
        } else {
            Action::Idle
        }
    }
}

} // verus!
