//! What is settled before the cleaner starts: that the operating system is
//! the supported one, and which folder is cleaned.

use vstd::prelude::*;
use vstd::string::StringExecFns;
use crate::notice::home_not_found_notice;
use crate::notice::unsupported_platform_notice;
use crate::notice::Notice;
use crate::notice::NoticeView;

verus! {

/// The exit status of a program that could not start.
pub const EXIT_FAILURE: i32 = 1;

/// Why the program cannot start: what to tell the user, and the status to
/// exit with.
#[derive(Debug, PartialEq, Eq)]
pub struct Fatal {
    pub notice: Notice,
    pub exit_code: i32,
}

/// A fatal condition as a value.
pub struct FatalView {
    pub notice: NoticeView,
    pub exit_code: int,
}

impl View for Fatal {
    type V = FatalView;

    open spec fn view(&self) -> FatalView {
        FatalView { notice: self.notice@, exit_code: self.exit_code as int }
    }
}

/// The name of the one operating system family that the program runs on.
pub open spec fn supported_os() -> Seq<char> {
    "windows"@
}

/// What is appended to the home directory to name the folder that is
/// cleaned.
pub open spec fn target_suffix() -> Seq<char> {
    "\\Documents\\temp"@
}

/// The folder that is cleaned, for a home directory.
pub open spec fn target_of(home: Seq<char>) -> Seq<char> {
    home + target_suffix()
}

/// Lets the program start on the supported operating system family and on
/// no other. `os` is the family's name as the standard library gives it.
pub fn check_platform(os: &str) -> (verdict: Result<(), Fatal>)
    ensures
        verdict is Ok <==> os@ == supported_os(),
        verdict matches Err(fatal) ==> fatal@ == (FatalView {
            notice: unsupported_platform_notice(),
            exit_code: 1,
        }),
{
    let found = String::from_str(os);
    let supported = String::from_str("windows");
    if found == supported {
        Ok(())
    } else {
        Err(Fatal { notice: Notice::unsupported_platform(), exit_code: EXIT_FAILURE })
    }
}

/// `dirs::home_dir`, with the path it finds written out as text
/// (`Path::display`). Nothing is claimed of the outcome: whether a home
/// directory is found, and which, depends on the user and the machine.
#[verifier::external_body]
fn find_home_directory() -> Option<String> {
    match dirs::home_dir() {
        Some(path) => Some(path.display().to_string()),
        None => None,
    }
}

/// Turns the outcome of the search for the home directory into the
/// directory, or into the reason why the program cannot start.
pub fn resolve_home(found: Option<String>) -> (home: Result<String, Fatal>)
    ensures
        match found {
            Some(path) => home matches Ok(text) && text@ == path@,
            None => home matches Err(fatal) && fatal@ == (FatalView {
                notice: home_not_found_notice(),
                exit_code: 1,
            }),
        },
{
    match found {
        Some(path) => Ok(path),
        None => Err(Fatal { notice: Notice::home_not_found(), exit_code: EXIT_FAILURE }),
    }
}

/// Looks for the user's home directory. Whether one is found depends on the
/// user and the machine; if none is, the program cannot start.
pub fn get_home_directory() -> (home: Result<String, Fatal>)
    ensures
        home matches Err(fatal) ==> fatal@ == (FatalView {
            notice: home_not_found_notice(),
            exit_code: 1,
        }),
{
    resolve_home(find_home_directory())
}

/// Names the folder that is cleaned: `Documents\temp` under the home
/// directory.
pub fn target_directory(home: &str) -> (directory: String)
    ensures
        directory@ == target_of(home@),
{
    String::from_str(home).concat("\\Documents\\temp")
}

} // verus!
