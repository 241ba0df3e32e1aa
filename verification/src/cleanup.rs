//! Emptying the folder: which of its entries are deleted.
//!
//! The folder is seen as a listing: one item for each entry directly inside
//! it, in the order in which the entries were read. Only the kind of each
//! item matters here, so an item is named by its position in the listing.

use vstd::prelude::*;

verus! {

/// What one item of a listing turned out to be.
#[derive(Clone, Copy, Debug, PartialEq, Eq, Structural)]
pub enum EntryKind {
    /// A file, or a link that leads to one.
    File,
    /// A directory, or anything else that is not a file.
    Other,
    /// The entry could not be read.
    Unreadable,
}

/// The position of the first item that could not be read, if there is one.
/// Reading a listing is given up there.
pub open spec fn first_unreadable(listing: Seq<EntryKind>) -> Option<int>
    decreases listing.len(),
{
    if listing.len() == 0 {
        None
    } else {
        match first_unreadable(listing.drop_last()) {
            Some(at) => Some(at),
            None => if listing.last() == EntryKind::Unreadable {
                Some(listing.len() - 1)
            } else {
                None
            },
        }
    }
}

/// The positions of the items to delete, in ascending order: every file that
/// comes before the first unreadable item.
pub open spec fn targets_of(listing: Seq<EntryKind>) -> Seq<int>
    decreases listing.len(),
{
    if listing.len() == 0 {
        Seq::empty()
    } else {
        let before = targets_of(listing.drop_last());
        if first_unreadable(listing.drop_last()) is None && listing.last() == EntryKind::File {
            before.push(listing.len() - 1)
        } else {
            before
        }
    }
}

/// What is left of a listing once the items at the positions in `removed`
/// are gone: the other items, in their order.
pub open spec fn without(listing: Seq<EntryKind>, removed: Set<int>) -> Seq<EntryKind>
    decreases listing.len(),
{
    if listing.len() == 0 {
        Seq::empty()
    } else {
        let before = without(listing.drop_last(), removed);
        if removed.contains(listing.len() - 1) {
            before
        } else {
            before.push(listing.last())
        }
    }
}

/// What to delete from a listing, and where reading it was given up.
#[derive(Debug, PartialEq, Eq)]
pub struct Plan {
    /// The positions of the items to delete, in the order in which to delete
    /// them.
    pub targets: Vec<usize>,
    /// The position of the item that could not be read. Where there is one,
    /// the deletion ends in that item's error once the targets are gone.
    pub unreadable_at: Option<usize>,
}

/// A plan as a value: positions as numbers without a bound.
pub struct PlanView {
    pub targets: Seq<int>,
    pub unreadable_at: Option<int>,
}

/// Machine positions as numbers without a bound.
pub open spec fn positions(indices: Seq<usize>) -> Seq<int> {
    indices.map_values(|at: usize| at as int)
}

/// A machine position, if any, as a number without a bound.
pub open spec fn position(index: Option<usize>) -> Option<int> {
    match index {
        Some(at) => Some(at as int),
        None => None,
    }
}

impl View for Plan {
    type V = PlanView;

    open spec fn view(&self) -> PlanView {
        PlanView {
            targets: positions(self.targets@),
            unreadable_at: position(self.unreadable_at),
        }
    }
}

/// The plan that deletes nothing and fails nowhere.
pub open spec fn no_plan() -> PlanView {
    PlanView { targets: Seq::empty(), unreadable_at: None }
}

impl Plan {
    /// Every position that the plan names lies in the listing: each target
    /// is a file of it, and the item that could not be read is unreadable.
    pub open spec fn fits(self, listing: Seq<EntryKind>) -> bool {
        &&& forall|k: int|
            0 <= k < self.targets@.len() ==> (#[trigger] self.targets@[k]) < listing.len()
                && listing[self.targets@[k] as int] == EntryKind::File
        &&& self.unreadable_at matches Some(at) ==> at < listing.len() && listing[at as int]
            == EntryKind::Unreadable
    }

    /// The plan that deletes nothing and fails nowhere.
    pub fn nothing() -> (plan: Plan)
        ensures
            plan@ == no_plan(),
            forall|listing: Seq<EntryKind>| plan.fits(listing),
    {
        let plan = Plan { targets: Vec::new(), unreadable_at: None };
        assert(positions(plan.targets@) =~= Seq::<int>::empty());
        plan
    }
}

/// The plan for a listing.
pub open spec fn plan_of(listing: Seq<EntryKind>) -> PlanView {
    PlanView { targets: targets_of(listing), unreadable_at: first_unreadable(listing) }
}

/// Goes through a listing as the deletion does: item by item, each file
/// marked for deletion, anything else passed over, and nothing looked at
/// after the first item that could not be read.
pub fn deletion_plan(listing: &Vec<EntryKind>) -> (plan: Plan)
    ensures
        plan@ == plan_of(listing@),
        plan.fits(listing@),
{
    let mut targets: Vec<usize> = Vec::new();
    let mut unreadable_at: Option<usize> = None;
    let mut i: usize = 0;
    while i < listing.len()
        invariant
            i <= listing.len(),
            positions(targets@) == targets_of(listing@.take(i as int)),
            position(unreadable_at) == first_unreadable(listing@.take(i as int)),
            forall|k: int|
                0 <= k < targets@.len() ==> (#[trigger] targets@[k]) < i && listing@[targets@[k] as int]
                    == EntryKind::File,
            unreadable_at matches Some(at) ==> at < i && listing@[at as int]
                == EntryKind::Unreadable,
        decreases listing.len() - i,
    {
        proof {
            assert(listing@.take(i + 1).drop_last() =~= listing@.take(i as int));
        }
        if unreadable_at.is_none() {
            match listing[i] {
                EntryKind::File => {
                    let ghost before = targets@;
                    targets.push(i);
                    assert(positions(targets@) =~= positions(before).push(i as int));
                },
                EntryKind::Other => {},
                EntryKind::Unreadable => {
                    unreadable_at = Some(i);
                },
            }
        }
        i += 1;
    }
    proof {
        assert(listing@.take(listing.len() as int) =~= listing@);
    }
    Plan { targets, unreadable_at }
}

/// No item of the listing is unreadable.
pub open spec fn readable(listing: Seq<EntryKind>) -> bool {
    forall|i: int| 0 <= i < listing.len() ==> listing[i] != EntryKind::Unreadable
}

/// The item at `at` is read: it is in the listing and no item before it is
/// unreadable.
pub open spec fn reached(listing: Seq<EntryKind>, at: int) -> bool {
    &&& 0 <= at < listing.len()
    &&& forall|j: int| 0 <= j < at ==> listing[j] != EntryKind::Unreadable
}

/// Reading is given up at an unreadable item that nothing unreadable
/// precedes, and nowhere if every item can be read.
pub proof fn lemma_first_unreadable(listing: Seq<EntryKind>)
    ensures
        first_unreadable(listing) is None <==> readable(listing),
        first_unreadable(listing) matches Some(at) ==> reached(listing, at) && listing[at]
            == EntryKind::Unreadable,
    decreases listing.len(),
{
    if listing.len() > 0 {
        let init = listing.drop_last();
        lemma_first_unreadable(init);
        assert(forall|j: int| 0 <= j < init.len() ==> init[j] == listing[j]);
        if first_unreadable(init) is None && listing.last() != EntryKind::Unreadable {
            assert forall|i: int| 0 <= i < listing.len() implies listing[i]
                != EntryKind::Unreadable by {
                if i < init.len() {
                    assert(init[i] == listing[i]);
                }
            }
        }
    }
}

/// The targets are exactly the files that are read, each once and in the
/// order of the listing. Directories and unreadable items are never among
/// them, nor is anything behind an unreadable item.
pub proof fn lemma_targets(listing: Seq<EntryKind>)
    ensures
        forall|at: int| #[trigger]
            targets_of(listing).contains(at) <==> reached(listing, at) && listing[at]
                == EntryKind::File,
        forall|j: int, k: int|
            0 <= j < k < targets_of(listing).len() ==> targets_of(listing)[j] < targets_of(
                listing,
            )[k],
    decreases listing.len(),
{
    if listing.len() > 0 {
        let init = listing.drop_last();
        let last = listing.len() - 1;
        lemma_targets(init);
        lemma_first_unreadable(init);
        assert(forall|j: int| 0 <= j < init.len() ==> init[j] == listing[j]);
        let before = targets_of(init);
        let all = targets_of(listing);
        assert forall|k: int| 0 <= k < before.len() implies before[k] < last by {
            assert(before.contains(before[k]));
        }
        assert forall|at: int| #[trigger]
            all.contains(at) <==> reached(listing, at) && listing[at] == EntryKind::File by {
            if at < last {
                assert(reached(init, at) <==> reached(listing, at));
            }
            if all.contains(at) {
                let k = choose|k: int| 0 <= k < all.len() && all[k] == at;
                if k < before.len() {
                    assert(before[k] == at);
                    assert(before.contains(at));
                }
            }
            if reached(listing, at) && listing[at] == EntryKind::File {
                if at < last {
                    assert(before.contains(at));
                    let k = choose|k: int| 0 <= k < before.len() && before[k] == at;
                    assert(all[k] == at);
                } else {
                    assert(at == last);
                    assert(readable(init));
                    assert(all[all.len() - 1] == at);
                }
            }
        }
    }
}

/// The kinds of item that a deletion leaves in place.
pub open spec fn stays() -> spec_fn(EntryKind) -> bool {
    |kind: EntryKind| kind != EntryKind::File
}

/// Removing exactly the files of a listing leaves its other items.
proof fn lemma_without_files(listing: Seq<EntryKind>, removed: Set<int>)
    requires
        forall|i: int|
            0 <= i < listing.len() ==> (removed.contains(i) <==> listing[i] == EntryKind::File),
    ensures
        without(listing, removed) == listing.filter(stays()),
    decreases listing.len(),
{
    reveal(Seq::filter);
    if listing.len() > 0 {
        let init = listing.drop_last();
        assert(forall|j: int| 0 <= j < init.len() ==> init[j] == listing[j]);
        lemma_without_files(init, removed);
    }
}

/// Once the targets of a listing that could be read to its end are deleted,
/// the folder holds what was no file, in the same order, and nothing else:
/// every file is gone and every directory is where it was.
pub proof fn lemma_aftermath(listing: Seq<EntryKind>)
    requires
        readable(listing),
    ensures
        without(listing, targets_of(listing).to_set()) == listing.filter(stays()),
{
    lemma_targets(listing);
    let removed = targets_of(listing).to_set();
    assert forall|i: int| 0 <= i < listing.len() implies (removed.contains(i) <==> listing[i]
        == EntryKind::File) by {
        assert(reached(listing, i));
        assert(removed.contains(i) <==> targets_of(listing).contains(i));
    }
    lemma_without_files(listing, removed);
}

/// What is left after a deletion holds nothing to delete, and can be read to
/// its end if the listing could.
pub proof fn lemma_nothing_left(listing: Seq<EntryKind>)
    ensures
        targets_of(listing.filter(stays())) == Seq::<int>::empty(),
        readable(listing) ==> first_unreadable(listing.filter(stays())) is None,
{
    let rest = listing.filter(stays());
    lemma_targets(rest);
    lemma_first_unreadable(rest);
    assert forall|k: int| 0 <= k < rest.len() implies rest[k] != EntryKind::File by {
        listing.lemma_filter_pred(stays(), k);
    }
    if targets_of(rest).len() > 0 {
        assert(targets_of(rest).contains(targets_of(rest)[0]));
    }
    assert(targets_of(rest) =~= Seq::<int>::empty());
    if readable(listing) {
        assert forall|k: int| 0 <= k < rest.len() implies rest[k] != EntryKind::Unreadable by {
            assert(rest.contains(rest[k]));
            listing.lemma_filter_contains_rev(stays(), rest[k]);
        }
    }
}

/// A folder of files only is empty after a deletion.
pub proof fn lemma_only_files(listing: Seq<EntryKind>)
    requires
        forall|i: int| 0 <= i < listing.len() ==> listing[i] == EntryKind::File,
    ensures
        listing.filter(stays()).len() == 0,
{
    let rest = listing.filter(stays());
    if rest.len() > 0 {
        listing.lemma_filter_pred(stays(), 0);
        assert(rest.contains(rest[0]));
        listing.lemma_filter_contains_rev(stays(), rest[0]);
    }
}

} // verus!
