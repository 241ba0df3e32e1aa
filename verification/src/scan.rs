//! Looking into the folder before anything is deleted.

use vstd::prelude::*;

verus! {

/// What a look into the folder found.
#[derive(Clone, Copy, Debug, PartialEq, Eq, Structural)]
pub enum Scan {
    /// Nothing is in the folder.
    Empty,
    /// Something is in the folder.
    Occupied,
}

/// The finding for a number of entries: empty for none, occupied for any.
pub open spec fn scan_of(entries: nat) -> Scan {
    if entries == 0 {
        Scan::Empty
    } else {
        Scan::Occupied
    }
}

impl Scan {
    /// The finding for a number of entries.
    pub fn from_count(entries: usize) -> (scan: Scan)
        ensures
            scan == scan_of(entries as nat),
    {
        if entries > 0 {
            Scan::Occupied
        } else {
            Scan::Empty
        }
    }
}

/// Walks a directory with walkdir (`WalkDir::new`, `min_depth(1)`,
/// `into_iter`) and counts the items that the walk yields: one for each entry
/// below the directory, at any depth, and one for each error met on the way;
/// the directory itself is not among them. A directory that cannot be opened
/// therefore counts one item, its error.
///
/// Nothing is claimed of the number: it depends on what is on disk.
#[verifier::external_body]
fn count_entries(directory: &str) -> usize {
    walkdir::WalkDir::new(directory).min_depth(1).into_iter().count()
}

/// Looks into a directory and says whether anything is in it. The number of
/// items found depends on what is on disk; whatever it is, the finding is the
/// one for that number.
pub fn scan_directory(directory: &str) -> (found: (usize, Scan))
    ensures
        found.1 == scan_of(found.0 as nat),
{
    let entries = count_entries(directory);
    (entries, Scan::from_count(entries))
}

} // verus!
