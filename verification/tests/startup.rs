use clean_up::notice::Notice;
use clean_up::startup::check_platform;
use clean_up::startup::get_home_directory;
use clean_up::startup::resolve_home;
use clean_up::startup::target_directory;
use clean_up::startup::Fatal;
use clean_up::startup::EXIT_FAILURE;

#[test]
fn windows_is_supported() {
    assert_eq!(check_platform("windows"), Ok(()));
}

#[test]
fn other_systems_are_turned_away() {
    for os in ["linux", "macos", "freebsd", "", "Windows", "windows ", "window"] {
        let fatal = check_platform(os).unwrap_err();
        assert_eq!(fatal.notice, Notice::unsupported_platform());
        assert_eq!(fatal.exit_code, 1);
    }
}

#[test]
fn failure_exits_with_one() {
    assert_eq!(EXIT_FAILURE, 1);
}

#[test]
fn target_is_documents_temp_under_home() {
    assert_eq!(target_directory("C:\\Users\\Alice"), "C:\\Users\\Alice\\Documents\\temp");
    assert_eq!(target_directory(""), "\\Documents\\temp");
    assert_eq!(target_directory("/home/alice"), "/home/alice\\Documents\\temp");
}

#[test]
fn a_home_that_was_found_is_kept() {
    assert_eq!(
        resolve_home(Some(String::from("C:\\Users\\Alice"))),
        Ok(String::from("C:\\Users\\Alice"))
    );
}

#[test]
fn a_missing_home_is_fatal() {
    assert_eq!(
        resolve_home(None),
        Err(Fatal { notice: Notice::home_not_found(), exit_code: 1 })
    );
}

#[test]
fn home_directory_is_the_one_dirs_finds() {
    let expected = match dirs::home_dir() {
        Some(path) => Ok(path.display().to_string()),
        None => Err(Fatal { notice: Notice::home_not_found(), exit_code: 1 }),
    };
    assert_eq!(get_home_directory(), expected);
}
