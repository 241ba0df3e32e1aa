use clean_up::scan::scan_directory;
use clean_up::scan::Scan;

#[test]
fn no_entries_is_empty() {
    assert_eq!(Scan::from_count(0), Scan::Empty);
}

#[test]
fn any_entries_is_occupied() {
    assert_eq!(Scan::from_count(1), Scan::Occupied);
    assert_eq!(Scan::from_count(2), Scan::Occupied);
    assert_eq!(Scan::from_count(usize::MAX), Scan::Occupied);
}

#[test]
fn scan_of_an_empty_directory() {
    let directory = tempfile::tempdir().unwrap();
    let found = scan_directory(directory.path().to_str().unwrap());
    assert_eq!(found, (0, Scan::Empty));
}

#[test]
fn scan_of_a_directory_with_one_file() {
    let directory = tempfile::tempdir().unwrap();
    let _file = tempfile::NamedTempFile::new_in(directory.path()).unwrap();
    let found = scan_directory(directory.path().to_str().unwrap());
    assert_eq!(found, (1, Scan::Occupied));
}

#[test]
fn scan_counts_what_is_below_the_directory() {
    let directory = tempfile::tempdir().unwrap();
    let _file = tempfile::NamedTempFile::new_in(directory.path()).unwrap();
    let below = tempfile::tempdir_in(directory.path()).unwrap();
    let _inner = tempfile::NamedTempFile::new_in(below.path()).unwrap();
    let found = scan_directory(directory.path().to_str().unwrap());
    assert_eq!(found, (3, Scan::Occupied));
}

#[test]
fn scan_of_a_directory_with_an_empty_directory_in_it() {
    let directory = tempfile::tempdir().unwrap();
    let _below = tempfile::tempdir_in(directory.path()).unwrap();
    let found = scan_directory(directory.path().to_str().unwrap());
    assert_eq!(found, (1, Scan::Occupied));
}

#[test]
fn scan_agrees_with_a_walk_below_the_root() {
    let directory = tempfile::tempdir().unwrap();
    let _first = tempfile::NamedTempFile::new_in(directory.path()).unwrap();
    let _second = tempfile::NamedTempFile::new_in(directory.path()).unwrap();
    let walked = walkdir::WalkDir::new(directory.path()).into_iter().count();
    let found = scan_directory(directory.path().to_str().unwrap());
    assert_eq!(walked, 3);
    assert_eq!(found, (2, Scan::Occupied));
}

#[test]
fn scan_of_a_directory_that_is_not_there() {
    let found = scan_directory("/clean_up/no/such/directory");
    assert_eq!(found, (1, Scan::Occupied));
}
