//! The notifications that the program shows.

use vstd::prelude::*;
use vstd::string::StringExecFns;
use crate::schedule::Schedule;
use crate::text::decimal;
use crate::text::weekday_label;
use crate::text::write_decimal;
use crate::text::write_weekday;

verus! {

/// A desktop notification, ready to be shown.
#[derive(Debug, PartialEq, Eq)]
pub struct Notice {
    /// The headline.
    pub summary: String,
    /// The text under the headline.
    pub body: String,
    /// The application that the notification is shown for.
    pub app_name: String,
    /// Whether the notification stays until the user dismisses it; one that
    /// does not goes away after the desktop's usual time.
    pub persistent: bool,
}

/// A notification as a value of text and a flag.
pub struct NoticeView {
    pub summary: Seq<char>,
    pub body: Seq<char>,
    pub app_name: Seq<char>,
    pub persistent: bool,
}

impl View for Notice {
    type V = NoticeView;

    open spec fn view(&self) -> NoticeView {
        NoticeView {
            summary: self.summary@,
            body: self.body@,
            app_name: self.app_name@,
            persistent: self.persistent,
        }
    }
}

/// The name under which every notification is shown.
pub open spec fn app_name() -> Seq<char> {
    "Clean Up"@
}

/// Shown at startup: the schedule and the folder it applies to.
pub open spec fn running_notice(schedule: Schedule, directory: Seq<char>) -> NoticeView {
    NoticeView {
        summary: "Clean Up - Running"@,
        body: "Clean Up is running and will delete your temporary files at "@ + decimal(
            schedule.hour as nat,
        ) + ":00 every "@ + weekday_label(schedule.weekday) + ". The files inside your "@
            + directory + " will be deleted."@,
        app_name: app_name(),
        persistent: true,
    }
}

/// Shown a quarter of an hour before the deletion.
pub open spec fn warning_notice() -> NoticeView {
    NoticeView {
        summary: "Clean Up - Deleting Temp Files in 15 Minutes"@,
        body: "Clean Up will delete your temp files in 15 minutes!"@,
        app_name: app_name(),
        persistent: false,
    }
}

/// Shown after the files were deleted.
pub open spec fn deleted_notice() -> NoticeView {
    NoticeView {
        summary: "Clean Up - Deleted Files"@,
        body: "Your temp files were cleared"@,
        app_name: app_name(),
        persistent: false,
    }
}

/// Shown when the deletion hour finds the folder empty.
pub open spec fn nothing_to_delete_notice() -> NoticeView {
    NoticeView {
        summary: "Clean Up - There were no files to delete"@,
        body: "There were no temporary files to delete."@,
        app_name: app_name(),
        persistent: false,
    }
}

/// Shown when the program is started on an operating system it is not made
/// for.
pub open spec fn unsupported_platform_notice() -> NoticeView {
    NoticeView {
        summary: "Clean Up - Error"@,
        body: "Clean Up is designed to work with Microsoft Windows. A different operating system was detected. The program will now exit."@,
        app_name: app_name(),
        persistent: true,
    }
}

/// Shown when the user's home directory cannot be found.
pub open spec fn home_not_found_notice() -> NoticeView {
    NoticeView {
        summary: "Clean Up - Unable to find home directory"@,
        body: "Clean up was unable to determine your home directory."@,
        app_name: app_name(),
        persistent: true,
    }
}

impl Notice {
    /// The notification shown at startup for this schedule and folder.
    pub fn running(schedule: &Schedule, directory: &str) -> (notice: Notice)
        ensures
            notice@ == running_notice(*schedule, directory@),
    {
        let mut body = String::from_str(
            "Clean Up is running and will delete your temporary files at ",
        );
        let hour = write_decimal(schedule.hour);
        body.append(hour.as_str());
        body.append(":00 every ");
        let day = write_weekday(schedule.weekday);
        body.append(day.as_str());
        body.append(". The files inside your ");
        body.append(directory);
        body.append(" will be deleted.");
        Notice {
            summary: String::from_str("Clean Up - Running"),
            body,
            app_name: String::from_str("Clean Up"),
            persistent: true,
        }
    }

    /// The notification shown a quarter of an hour before the deletion.
    pub fn warning() -> (notice: Notice)
        ensures
            notice@ == warning_notice(),
    {
        Notice {
            summary: String::from_str("Clean Up - Deleting Temp Files in 15 Minutes"),
            body: String::from_str("Clean Up will delete your temp files in 15 minutes!"),
            app_name: String::from_str("Clean Up"),
            persistent: false,
        }
    }

    /// The notification shown after the files were deleted.
    pub fn deleted() -> (notice: Notice)
        ensures
            notice@ == deleted_notice(),
    {
        Notice {
            summary: String::from_str("Clean Up - Deleted Files"),
            body: String::from_str("Your temp files were cleared"),
            app_name: String::from_str("Clean Up"),
            persistent: false,
        }
    }

    /// The notification shown when the deletion hour finds the folder empty.
    pub fn nothing_to_delete() -> (notice: Notice)
        ensures
            notice@ == nothing_to_delete_notice(),
    {
        Notice {
            summary: String::from_str("Clean Up - There were no files to delete"),
            body: String::from_str("There were no temporary files to delete."),
            app_name: String::from_str("Clean Up"),
            persistent: false,
        }
    }

    /// The notification shown on an operating system the program is not made
    /// for.
    pub fn unsupported_platform() -> (notice: Notice)
        ensures
            notice@ == unsupported_platform_notice(),
    {
        Notice {
            summary: String::from_str("Clean Up - Error"),
            body: String::from_str(
                "Clean Up is designed to work with Microsoft Windows. A different operating system was detected. The program will now exit.",
            ),
            app_name: String::from_str("Clean Up"),
            persistent: true,
        }
    }

    /// The notification shown when the user's home directory cannot be found.
    pub fn home_not_found() -> (notice: Notice)
        ensures
            notice@ == home_not_found_notice(),
    {
        Notice {
            summary: String::from_str("Clean Up - Unable to find home directory"),
            body: String::from_str("Clean up was unable to determine your home directory."),
            app_name: String::from_str("Clean Up"),
            persistent: true,
        }
    }
}

} // verus!
