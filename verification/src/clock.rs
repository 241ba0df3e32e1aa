//! Reading the local clock.

use vstd::prelude::*;
use chrono::Datelike;
use chrono::Timelike;
use crate::schedule::Action;
use crate::schedule::ClockReading;
use crate::schedule::Schedule;
use crate::schedule::Weekday;

verus! {

/// Reads the local clock. The body asks chrono for the current moment in the
/// machine's time zone (`chrono::Local::now`) and takes from that one moment
/// its day of the week, hour and minute (`Datelike::weekday`,
/// `Timelike::hour`, `Timelike::minute`), chrono's seven days mapped one for
/// one.
///
/// Not proved, but taken from chrono's documentation: the hour number lies
/// between 0 and 23 and the minute number between 0 and 59. Nothing is
/// claimed of which moment comes back. chrono panics on a machine whose
/// clock stands before 1970.
#[verifier::external_body]
fn local_reading() -> (now: ClockReading)
    ensures
        now.wf(),
{
    let moment = chrono::Local::now();
    let weekday = match moment.weekday() {
        chrono::Weekday::Mon => Weekday::Mon,
        chrono::Weekday::Tue => Weekday::Tue,
        chrono::Weekday::Wed => Weekday::Wed,
        chrono::Weekday::Thu => Weekday::Thu,
        chrono::Weekday::Fri => Weekday::Fri,
        chrono::Weekday::Sat => Weekday::Sat,
        chrono::Weekday::Sun => Weekday::Sun,
    };
    ClockReading { weekday, hour: moment.hour(), minute: moment.minute() }
}

/// Reads the local clock and decides what is due on this schedule at the
/// moment read. Which moment that is depends on when the call is made;
/// whatever it is, the reading names a time of day that exists and the action
/// is the one due at it.
pub fn due_now(schedule: &Schedule) -> (wake: (ClockReading, Action))
    ensures
        wake.0.wf(),
        wake.1 == schedule.action_at(wake.0),
{
    let now = local_reading();
    let action = schedule.decide(&now);
    (now, action)
}

} // verus!
