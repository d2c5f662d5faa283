//! Resolution of the user's downloads directory and opening it in the OS
//! file browser.
//!
//! The policy is pure and fully specified: when a home directory is known,
//! the downloads directory is `<home>/Downloads`; otherwise the current
//! working directory stands in; and when that too is unknown, the relative
//! path `.` does. Only the OS lookups themselves (the home directory, the
//! launch of the file browser) are outside calls.

use vstd::prelude::*;

verus! {

/// `home` with the relative path `Downloads` appended, inserting a
/// separator unless `home` already ends with one.
pub open spec fn downloads_join_spec(home: Seq<char>) -> Seq<char> {
    if home.len() > 0 && home.last() == '/' {
        home + "Downloads"@
    } else {
        home + "/Downloads"@
    }
}

/// The downloads path resolved from an optional home directory and an
/// optional current working directory: `<home>/Downloads` when a home is
/// known, else the working directory, else `.`.
pub open spec fn downloads_path_spec(home: Option<Seq<char>>, cwd: Option<Seq<char>>) -> Seq<
    char,
> {
    match home {
        Some(h) => downloads_join_spec(h),
        None => match cwd {
            Some(c) => c,
            None => "."@,
        },
    }
}

/// Appends the `Downloads` component to a home directory path.
pub fn join_downloads(home: &str) -> (r: String)
    ensures
        r@ == downloads_join_spec(home@),
{
    let n = home.unicode_len();
    let mut out = String::from_str(home);
    if n > 0 && home.get_char(n - 1) == '/' {
        out.append("Downloads");
    } else {
        out.append("/Downloads");
    }
    out
}

/// Resolves the downloads path from the given home and working
/// directories, following the fallback policy. Never fails.
pub fn downloads_path_from(home: Option<String>, cwd: Option<String>) -> (r: String)
    ensures
        r@ == downloads_path_spec(home.deep_view(), cwd.deep_view()),
{
    match home {
        Some(h) => join_downloads(h.as_str()),
        None => match cwd {
            Some(c) => c,
            None => String::from_str("."),
        },
    }
}

/// The resolved downloads path is never empty, as long as a working
/// directory handed in as a fallback is itself non-empty.
pub proof fn lemma_downloads_path_nonempty(home: Option<Seq<char>>, cwd: Option<Seq<char>>)
    requires
        cwd matches Some(c) ==> c.len() > 0,
    ensures
        downloads_path_spec(home, cwd).len() > 0,
{
    reveal_strlit("Downloads");
    reveal_strlit("/Downloads");
    reveal_strlit(".");
}

/// Relies on dirs::home_dir: the home directory that the OS reports for
/// the current user, if any, converted to a string lossily. The outcome
/// depends on the environment, so nothing is assumed of it.
#[verifier::external_body]
fn home_dir_string() -> (r: Option<String>) {
    dirs::home_dir().map(|p| p.to_string_lossy().into_owned())
}

/// Resolves the downloads path against the OS-reported home directory.
/// `cwd` is the process's current working directory, when available;
/// callers look it up at the edge and hand it in as the fallback.
pub fn get_downloads_path(cwd: Option<String>) -> (r: String)
    ensures
        exists|home: Option<Seq<char>>| r@ == downloads_path_spec(home, cwd.deep_view()),
        (cwd matches Some(c) ==> c@.len() > 0) ==> r@.len() > 0,
{
    let home = home_dir_string();
    let ghost home_view = home.deep_view();
    let ghost cwd_view = cwd.deep_view();
    let r = downloads_path_from(home, cwd);
    proof {
        assert(r@ == downloads_path_spec(home_view, cwd_view));
        if (cwd_view matches Some(c) ==> c.len() > 0) {
            lemma_downloads_path_nonempty(home_view, cwd_view);
        }
    }
    r
}

/// The failure of an attempt to open a directory in the OS file browser,
/// carrying the OS-reported cause.
#[derive(Debug, PartialEq, Eq)]
pub enum LaunchError {
    LaunchFailed { cause: String },
}

/// Turns the raw outcome of an OS launch into this library's result:
/// success exactly when the launch succeeded, and otherwise a
/// `LaunchFailed` error carrying the OS-reported cause verbatim.
pub fn launch_outcome(outcome: Result<(), String>) -> (r: Result<(), LaunchError>)
    ensures
        r is Ok <==> outcome is Ok,
        outcome matches Err(c) ==> (r matches Err(LaunchError::LaunchFailed { cause })
            && cause@ == c@),
{
    match outcome {
        Ok(()) => Ok(()),
        Err(c) => Err(LaunchError::LaunchFailed { cause: c }),
    }
}

/// Relies on open::that: asks the OS to open `path` with the default
/// handler for it. Whether that succeeds depends on the environment, so
/// nothing is assumed of the outcome; a failure is reported as the OS
/// error's text.
#[verifier::external_body]
fn os_open_path(path: &str) -> (r: Result<(), String>) {
    open::that(path).map_err(|e| e.to_string())
}

/// Opens the downloads directory in the OS file browser: `<home>/Downloads`
/// when a home directory is known, the current directory `.` otherwise.
/// Success depends on the OS launch mechanism; a failure carries the
/// OS-reported cause.
pub fn open_downloads_folder() -> (r: Result<(), LaunchError>) {
    let target = match home_dir_string() {
        Some(home) => join_downloads(home.as_str()),
        None => String::from_str("."),
    };
    let outcome = os_open_path(target.as_str());
    launch_outcome(outcome)
}

} // verus!
