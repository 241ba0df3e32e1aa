//! One wake of the cleaner, from the clock's reading to what is to be done.
//!
//! A wake shows at most one notification and deletes the files of at most
//! one listing. The program that runs the cleaner carries the outcome out:
//! it deletes the plan's targets in their order, stops with the error of the
//! unreadable item if the plan names one, and shows the notification last.
//! A file that cannot be deleted ends the wake there, with nothing shown.
//!
//! A program that lists the folder only in the deletion hour, and only after
//! a scan found something in it, takes the same decisions step by step:
//! `Schedule::decide`, `Scan::from_count`, then `clean` on the listing.

use vstd::prelude::*;
use crate::cleanup::deletion_plan;
use crate::cleanup::first_unreadable;
use crate::cleanup::lemma_aftermath;
use crate::cleanup::lemma_first_unreadable;
use crate::cleanup::lemma_nothing_left;
use crate::cleanup::lemma_only_files;
use crate::cleanup::lemma_targets;
use crate::cleanup::no_plan;
use crate::cleanup::plan_of;
use crate::cleanup::reached;
use crate::cleanup::readable;
use crate::cleanup::stays;
use crate::cleanup::without;
use crate::cleanup::EntryKind;
use crate::cleanup::Plan;
use crate::cleanup::PlanView;
use crate::notice::deleted_notice;
use crate::notice::nothing_to_delete_notice;
use crate::notice::warning_notice;
use crate::notice::Notice;
use crate::notice::NoticeView;
use crate::scan::scan_of;
use crate::scan::Scan;
use crate::schedule::Action;
use crate::schedule::ClockReading;
use crate::schedule::Schedule;

verus! {

/// What a wake leads to.
#[derive(Debug, PartialEq, Eq)]
pub struct Outcome {
    /// The notification to show, if one is due.
    pub notice: Option<Notice>,
    /// What to delete before the notification is shown.
    pub plan: Plan,
}

/// An outcome as a value.
pub struct OutcomeView {
    pub notice: Option<NoticeView>,
    pub plan: PlanView,
}

/// A notification, if any, as a value.
pub open spec fn notice_view(notice: Option<Notice>) -> Option<NoticeView> {
    match notice {
        Some(notice) => Some(notice@),
        None => None,
    }
}

impl View for Outcome {
    type V = OutcomeView;

    open spec fn view(&self) -> OutcomeView {
        OutcomeView { notice: notice_view(self.notice), plan: self.plan@ }
    }
}

/// What a wake in the deletion hour leads to, for a folder with this
/// listing. An empty folder is reported as such. Otherwise its files are
/// deleted and the deletion is reported, unless an item could not be read:
/// then the files before that item are deleted and nothing is reported.
pub open spec fn clean_effects(listing: Seq<EntryKind>) -> OutcomeView {
    OutcomeView {
        notice: match scan_of(listing.len()) {
            Scan::Empty => Some(nothing_to_delete_notice()),
            Scan::Occupied => if first_unreadable(listing) is None {
                Some(deleted_notice())
            } else {
                None
            },
        },
        plan: plan_of(listing),
    }
}

/// What a wake leads to, for a schedule, a reading of the clock and a folder
/// with this listing.
pub open spec fn effects(
    schedule: Schedule,
    now: ClockReading,
    listing: Seq<EntryKind>,
) -> OutcomeView {
    match schedule.action_at(now) {
        Action::Warn => OutcomeView { notice: Some(warning_notice()), plan: no_plan() },
        Action::Clean => clean_effects(listing),
        Action::Idle => OutcomeView { notice: None, plan: no_plan() },
    }
}

/// Works out a wake in the deletion hour from the folder's listing.
pub fn clean(listing: &Vec<EntryKind>) -> (outcome: Outcome)
    ensures
        outcome@ == clean_effects(listing@),
        outcome.plan.fits(listing@),
{
    let plan = deletion_plan(listing);
    let notice = match Scan::from_count(listing.len()) {
        Scan::Empty => Some(Notice::nothing_to_delete()),
        Scan::Occupied => if plan.unreadable_at.is_none() {
            Some(Notice::deleted())
        } else {
            None
        },
    };
    Outcome { notice, plan }
}

/// Works out a wake from the clock's reading and the folder's listing. The
/// listing is looked at in the deletion hour only.
pub fn poll(schedule: &Schedule, now: &ClockReading, listing: &Vec<EntryKind>) -> (outcome:
    Outcome)
    ensures
        outcome@ == effects(*schedule, *now, listing@),
        outcome.plan.fits(listing@),
{
    match schedule.decide(now) {
        Action::Warn => Outcome { notice: Some(Notice::warning()), plan: Plan::nothing() },
        Action::Clean => clean(listing),
        Action::Idle => Outcome { notice: None, plan: Plan::nothing() },
    }
}

/// At the warning minute (the schedule's day, the hour before its hour,
/// minute 45) a wake shows the warning and nothing else, and deletes
/// nothing, whatever is in the folder.
pub proof fn lemma_warning_minute(schedule: Schedule, now: ClockReading, listing: Seq<EntryKind>)
    requires
        schedule.warning_due(now),
    ensures
        effects(schedule, now, listing) == (OutcomeView {
            notice: Some(warning_notice()),
            plan: no_plan(),
        }),
{
}

/// In the deletion hour, at any minute, a wake that finds the folder
/// occupied and can read it to its end deletes every file directly in it and
/// nothing else, and reports the deletion and nothing else. What was no file
/// is still there afterwards, in its place.
pub proof fn lemma_deletion_hour(schedule: Schedule, now: ClockReading, listing: Seq<EntryKind>)
    requires
        schedule.deletion_due(now),
        listing.len() > 0,
        readable(listing),
    ensures
        effects(schedule, now, listing).notice == Some(deleted_notice()),
        effects(schedule, now, listing).plan.unreadable_at is None,
        forall|at: int| #[trigger]
            effects(schedule, now, listing).plan.targets.contains(at) <==> 0 <= at < listing.len()
                && listing[at] == EntryKind::File,
        forall|j: int, k: int|
            0 <= j < k < effects(schedule, now, listing).plan.targets.len() ==> effects(
                schedule,
                now,
                listing,
            ).plan.targets[j] < effects(schedule, now, listing).plan.targets[k],
        without(listing, effects(schedule, now, listing).plan.targets.to_set()) == listing.filter(
            stays(),
        ),
{
    lemma_first_unreadable(listing);
    lemma_targets(listing);
    lemma_aftermath(listing);
    assert forall|at: int| 0 <= at < listing.len() implies reached(listing, at) by {}
}

/// In the deletion hour, at any minute, a wake that finds the folder empty
/// reports that there was nothing to delete, and deletes nothing.
pub proof fn lemma_empty_folder(schedule: Schedule, now: ClockReading)
    requires
        schedule.deletion_due(now),
    ensures
        effects(schedule, now, Seq::empty()) == (OutcomeView {
            notice: Some(nothing_to_delete_notice()),
            plan: no_plan(),
        }),
{
}

/// At any other time a wake shows nothing and deletes nothing, whatever is
/// in the folder.
pub proof fn lemma_idle(schedule: Schedule, now: ClockReading, listing: Seq<EntryKind>)
    requires
        !schedule.warning_due(now),
        !schedule.deletion_due(now),
    ensures
        effects(schedule, now, listing) == (OutcomeView { notice: None, plan: no_plan() }),
{
}

/// A second wake in the deletion hour, on the folder as the first one left
/// it, does not fail and finds nothing to delete. Where the folder held only
/// files, the second wake is that of an empty folder; where something else
/// is left in it, the deletion is reported again.
pub proof fn lemma_second_pass(
    schedule: Schedule,
    first: ClockReading,
    second: ClockReading,
    listing: Seq<EntryKind>,
)
    requires
        schedule.deletion_due(first),
        schedule.deletion_due(second),
        readable(listing),
    ensures
        ({
            let left = without(listing, effects(schedule, first, listing).plan.targets.to_set());
            let again = effects(schedule, second, left);
            &&& again.plan == no_plan()
            &&& again.notice == if left.len() == 0 {
                Some(nothing_to_delete_notice())
            } else {
                Some(deleted_notice())
            }
            &&& (forall|i: int| 0 <= i < listing.len() ==> listing[i] == EntryKind::File) ==> again
                == effects(schedule, second, Seq::empty())
        }),
{
    lemma_aftermath(listing);
    lemma_nothing_left(listing);
    if forall|i: int| 0 <= i < listing.len() ==> listing[i] == EntryKind::File {
        lemma_only_files(listing);
        assert(listing.filter(stays()) =~= Seq::<EntryKind>::empty());
    }
}

} // verus!
