use chrono::Datelike;
use chrono::Timelike;
use clean_up::clock::due_now;
use clean_up::schedule::Action;
use clean_up::schedule::ClockReading;
use clean_up::schedule::Schedule;
use clean_up::schedule::Weekday;
use clean_up::schedule::POLL_INTERVAL_SECS;
use clean_up::schedule::WARNING_MINUTE;

const DAYS: [Weekday; 7] = [
    Weekday::Mon,
    Weekday::Tue,
    Weekday::Wed,
    Weekday::Thu,
    Weekday::Fri,
    Weekday::Sat,
    Weekday::Sun,
];

fn at(weekday: Weekday, hour: u32, minute: u32) -> ClockReading {
    ClockReading::new(weekday, hour, minute).unwrap()
}

#[test]
fn weekly_schedule_is_sunday_noon() {
    let schedule = Schedule::weekly();
    assert_eq!(schedule.weekday, Weekday::Sun);
    assert_eq!(schedule.hour, 12);
    assert_eq!(Schedule::new(Weekday::Sun, 12), Some(schedule));
}

#[test]
fn constants_of_the_schedule() {
    assert_eq!(WARNING_MINUTE, 45);
    assert_eq!(POLL_INTERVAL_SECS, 60);
}

#[test]
fn schedule_hour_must_be_an_hour_of_the_day() {
    assert!(Schedule::new(Weekday::Mon, 0).is_some());
    assert!(Schedule::new(Weekday::Mon, 23).is_some());
    assert_eq!(Schedule::new(Weekday::Mon, 24), None);
    assert_eq!(Schedule::new(Weekday::Mon, u32::MAX), None);
}

#[test]
fn clock_reading_must_name_a_time_of_day() {
    assert_eq!(
        ClockReading::new(Weekday::Tue, 23, 59),
        Some(ClockReading { weekday: Weekday::Tue, hour: 23, minute: 59 })
    );
    assert_eq!(ClockReading::new(Weekday::Tue, 24, 0), None);
    assert_eq!(ClockReading::new(Weekday::Tue, 0, 60), None);
}

#[test]
fn warns_at_a_quarter_to_the_hour() {
    let schedule = Schedule::weekly();
    assert_eq!(schedule.decide(&at(Weekday::Sun, 11, 45)), Action::Warn);
}

#[test]
fn warns_at_no_other_minute_of_the_hour_before() {
    let schedule = Schedule::weekly();
    for minute in 0..60 {
        if minute != 45 {
            assert_eq!(schedule.decide(&at(Weekday::Sun, 11, minute)), Action::Idle);
        }
    }
}

#[test]
fn cleans_at_every_minute_of_the_deletion_hour() {
    let schedule = Schedule::weekly();
    for minute in 0..60 {
        assert_eq!(schedule.decide(&at(Weekday::Sun, 12, minute)), Action::Clean);
    }
}

#[test]
fn idle_on_the_other_days() {
    let schedule = Schedule::weekly();
    for day in DAYS {
        if day != Weekday::Sun {
            assert_eq!(schedule.decide(&at(day, 11, 45)), Action::Idle);
            assert_eq!(schedule.decide(&at(day, 12, 0)), Action::Idle);
        }
    }
}

#[test]
fn idle_at_the_other_hours() {
    let schedule = Schedule::weekly();
    for hour in 0..24 {
        if hour != 11 && hour != 12 {
            assert_eq!(schedule.decide(&at(Weekday::Sun, hour, 45)), Action::Idle);
        }
    }
    assert_eq!(schedule.decide(&at(Weekday::Sun, 13, 0)), Action::Idle);
}

#[test]
fn every_action_of_a_week_is_the_one_due() {
    let schedule = Schedule::new(Weekday::Wed, 7).unwrap();
    for day in DAYS {
        for hour in 0..24 {
            for minute in 0..60 {
                let expected = if day == Weekday::Wed && hour == 6 && minute == 45 {
                    Action::Warn
                } else if day == Weekday::Wed && hour == 7 {
                    Action::Clean
                } else {
                    Action::Idle
                };
                assert_eq!(schedule.decide(&at(day, hour, minute)), expected);
            }
        }
    }
}

#[test]
fn a_schedule_at_midnight_never_warns() {
    let schedule = Schedule::new(Weekday::Sun, 0).unwrap();
    assert_eq!(schedule.decide(&at(Weekday::Sat, 23, 45)), Action::Idle);
    assert_eq!(schedule.decide(&at(Weekday::Sun, 23, 45)), Action::Idle);
    assert_eq!(schedule.decide(&at(Weekday::Sun, 0, 45)), Action::Clean);
}

#[test]
fn decide_takes_readings_outside_the_day() {
    let schedule = Schedule::weekly();
    let odd = ClockReading { weekday: Weekday::Sun, hour: 36, minute: 99 };
    assert_eq!(schedule.decide(&odd), Action::Idle);
}

fn same_minute(reading: &ClockReading, moment: &chrono::DateTime<chrono::Local>) -> bool {
    let day = match moment.weekday() {
        chrono::Weekday::Mon => Weekday::Mon,
        chrono::Weekday::Tue => Weekday::Tue,
        chrono::Weekday::Wed => Weekday::Wed,
        chrono::Weekday::Thu => Weekday::Thu,
        chrono::Weekday::Fri => Weekday::Fri,
        chrono::Weekday::Sat => Weekday::Sat,
        chrono::Weekday::Sun => Weekday::Sun,
    };
    reading.weekday == day && reading.hour == moment.hour() && reading.minute == moment.minute()
}

#[test]
fn due_now_reads_the_local_clock() {
    let schedule = Schedule::weekly();
    let before = chrono::Local::now();
    let (reading, action) = due_now(&schedule);
    let after = chrono::Local::now();
    assert!(reading.hour < 24);
    assert!(reading.minute < 60);
    assert!(same_minute(&reading, &before) || same_minute(&reading, &after));
    assert_eq!(action, schedule.decide(&reading));
}
