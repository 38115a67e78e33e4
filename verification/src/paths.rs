//! Cache directories: how a configured directory is resolved and checked,
//! which directory is taken as the cache, and which directory may be
//! emptied.

use vstd::prelude::*;
use std::path::PathBuf;
use vstd::string::StringExecFns;
use crate::text::path_from;
use crate::text::path_of;
use crate::text::replaced;
use crate::text::str_replace;
use crate::text::text_view;

verus! {

/// `whoami::username`: the name of the user who runs the process, or the
/// crate's stand-in name where the platform gives none. Nothing is said of
/// the name: it is the machine's.
#[verifier::external_body]
fn current_username() -> (r: String) {
    whoami::username()
}

/// `PartialEq::eq` of two paths: they are equal exactly when they are the
/// same path.
#[verifier::external_body]
fn same_path(a: &PathBuf, b: &PathBuf) -> (r: bool)
    ensures
        r == (*a == *b),
{
    a == b
}

/// The directory of temporary files of the user `user` on Windows.
pub open spec fn windows_temp(user: Seq<char>) -> Seq<char> {
    "C:\\Users\\"@ + user + "\\AppData\\Local\\Temp"@
}

/// The directory of local application data of the user `user` on Windows.
pub open spec fn windows_local(user: Seq<char>) -> Seq<char> {
    "C:\\Users\\"@ + user + "\\AppData\\Local"@
}

/// The home directory of the user `user` on Linux.
pub open spec fn linux_home(user: Seq<char>) -> Seq<char> {
    "/home/"@ + user
}

/// A directory as written in the configuration, with its placeholders
/// filled in for the user `user`: first `%Temp%`, then `%localappdata%`,
/// then `~`.
pub open spec fn resolved_for(directory: Seq<char>, user: Seq<char>) -> Seq<char> {
    replaced(
        replaced(
            replaced(directory, "%Temp%"@, windows_temp(user)),
            "%localappdata%"@,
            windows_local(user),
        ),
        "~"@,
        linux_home(user),
    )
}

/// Fills in the placeholders of a directory for the user `username`.
pub fn resolve_path_for(directory: &str, username: &str) -> (r: String)
    ensures
        r@ == resolved_for(directory@, username@),
{
    let temp = "C:\\Users\\".to_owned().concat(username).concat("\\AppData\\Local\\Temp");
    let local = "C:\\Users\\".to_owned().concat(username).concat("\\AppData\\Local");
    let home = "/home/".to_owned().concat(username);
    let first = str_replace(directory, "%Temp%", temp.as_str());
    let second = str_replace(first.as_str(), "%localappdata%", local.as_str());
    str_replace(second.as_str(), "~", home.as_str())
}

/// Fills in the placeholders of a directory for the user who runs the
/// process.
pub fn resolve_path(directory: &str) -> (r: String)
    ensures
        exists|user: Seq<char>| r@ == resolved_for(directory@, user),
{
    let username = current_username();
    let r = resolve_path_for(directory, username.as_str());
    assert(r@ == resolved_for(directory@, username@));
    r
}

/// What the file system told of a path that is to be a directory.
#[derive(Debug)]
pub enum DirectoryProbe {
    /// The path is a directory.
    Directory,
    /// The path is there and is no directory.
    NotDirectory,
    /// Nothing could be learned of the path: the text of the error.
    Failed(String),
}

/// The outcome of the check of a resolved directory as contracts see it:
/// the directory itself, or the text of the error.
pub open spec fn validated(resolved: Seq<char>, probe: DirectoryProbe) -> Result<
    Seq<char>,
    Seq<char>,
> {
    match probe {
        DirectoryProbe::Directory => Ok(resolved),
        DirectoryProbe::NotDirectory => Err(resolved + ": Not a directory"@),
        DirectoryProbe::Failed(error) => Err(error@),
    }
}

/// The view of the outcome of a check.
pub open spec fn outcome_view(outcome: Result<String, String>) -> Result<Seq<char>, Seq<char>> {
    match outcome {
        Ok(directory) => Ok(directory@),
        Err(error) => Err(error@),
    }
}

/// Checks a resolved directory against what the file system told of it.
///
/// A directory is accepted as it is. What is no directory is refused with
/// the path and the words `: Not a directory`, and what could not be looked
/// at with the text of the error.
pub fn validate_directory(resolved: String, probe: DirectoryProbe) -> (r: Result<String, String>)
    ensures
        outcome_view(r) == validated(resolved@, probe),
        r is Ok <==> probe is Directory,
{
    match probe {
        DirectoryProbe::Directory => Ok(resolved),
        DirectoryProbe::NotDirectory => Err(resolved.concat(": Not a directory")),
        DirectoryProbe::Failed(error) => Err(error),
    }
}

/// The directories that are tried as the cache, in their order: the
/// configured one, where there is one, without its quotation marks, then
/// the default of Windows and the default of Linux.
pub open spec fn candidates_for(configured: Option<Seq<char>>) -> Seq<Seq<char>> {
    let defaults = seq!["%Temp%\\Roblox"@, "~/.var/app/org.vinegarhq.Sober/cache/sober"@];
    match configured {
        Some(directory) => seq![replaced(directory, "\""@, ""@)] + defaults,
        None => defaults,
    }
}

/// The directories that are tried as the cache, in their order.
pub fn directory_candidates(configured: Option<&str>) -> (r: Vec<String>)
    ensures
        r@.len() == candidates_for(text_view(configured)).len(),
        forall|i: int|
            0 <= i < r@.len() ==> (#[trigger] r@[i])@ == candidates_for(
                text_view(configured),
            )[i],
{
    let mut r: Vec<String> = Vec::new();
    match configured {
        Some(directory) => {
            r.push(str_replace(directory, "\"", ""));
        },
        None => {},
    }
    r.push("%Temp%\\Roblox".to_owned());
    r.push("~/.var/app/org.vinegarhq.Sober/cache/sober".to_owned());
    r
}

/// The texts of the errors among the first `n` outcomes, one after the
/// other.
pub open spec fn errors_of(outcomes: Seq<Result<String, String>>, n: int) -> Seq<char>
    decreases n,
{
    if n <= 0 {
        Seq::empty()
    } else {
        match outcomes[n - 1] {
            Ok(_) => errors_of(outcomes, n - 1),
            Err(error) => errors_of(outcomes, n - 1) + error@,
        }
    }
}

/// Outcome `i` is an accepted directory and none before it is.
pub open spec fn is_first_accepted(outcomes: Seq<Result<String, String>>, i: int) -> bool {
    &&& 0 <= i < outcomes.len()
    &&& outcomes[i] is Ok
    &&& forall|j: int| 0 <= j < i ==> (#[trigger] outcomes[j]) is Err
}

/// That no cache directory was found: the errors of all that were tried.
#[derive(Debug)]
pub struct DetectionFailed {
    /// The texts of the errors, one after the other.
    pub errors: String,
}

/// Picks the cache directory from the outcomes of the checks of the
/// candidates, in the candidates' order.
///
/// The first directory that was accepted is taken. Where none was, the
/// result is the failure with the errors of all candidates.
pub fn detect_directory(outcomes: &Vec<Result<String, String>>) -> (r: Result<
    String,
    DetectionFailed,
>)
    ensures
        r is Ok <==> exists|i: int| 0 <= i < outcomes@.len() && outcomes@[i] is Ok,
        r matches Ok(directory) ==> exists|i: int|
            is_first_accepted(outcomes@, i) && outcomes@[i]->Ok_0@ == directory@,
        r matches Err(failure) ==> failure.errors@ == errors_of(
            outcomes@,
            outcomes@.len() as int,
        ),
{
    let n: usize = outcomes.len();
    let mut errors = String::new();
    let mut i: usize = 0;
    assert(errors@ =~= errors_of(outcomes@, 0));
    while i < n
        invariant
            n == outcomes@.len(),
            i <= n,
            forall|j: int| 0 <= j < i ==> (#[trigger] outcomes@[j]) is Err,
            errors@ == errors_of(outcomes@, i as int),
        decreases n - i,
    {
        match &outcomes[i] {
            Ok(directory) => {
                assert(is_first_accepted(outcomes@, i as int));
                return Ok(directory.clone());
            },
            Err(error) => {
                errors = errors.concat(error.as_str());
            },
        }
        i += 1;
    }
    Err(DetectionFailed { errors })
}

/// Why a directory may not be emptied.
#[derive(Clone, Copy, Debug, PartialEq, Eq, Structural)]
pub enum SafetyViolation {
    /// The path is empty.
    EmptyPath,
    /// The path is the root of the file system.
    FilesystemRoot,
}

/// Whether a directory may be emptied: and if not, why.
pub open spec fn delete_target_checked(dir: PathBuf) -> Result<(), SafetyViolation> {
    if dir == path_of(""@) {
        Err(SafetyViolation::EmptyPath)
    } else if dir == path_of("/"@) {
        Err(SafetyViolation::FilesystemRoot)
    } else {
        Ok(())
    }
}

/// Checks that a directory may be emptied. The empty path and the root of
/// the file system are refused; every other path is let through.
///
/// This is to be asked before anything is touched.
pub fn check_delete_target(dir: &PathBuf) -> (r: Result<(), SafetyViolation>)
    ensures
        r == delete_target_checked(*dir),
        r is Err <==> (*dir == path_of(""@) || *dir == path_of("/"@)),
{
    let empty = path_from("");
    let root = path_from("/");
    if same_path(dir, &empty) {
        Err(SafetyViolation::EmptyPath)
    } else if same_path(dir, &root) {
        Err(SafetyViolation::FilesystemRoot)
    } else {
        Ok(())
    }
}

} // verus!
