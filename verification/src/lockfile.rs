//! The single-instance lock file: where it lives, and the checks that keep
//! it from being redirected through a symbolic link.

use vstd::prelude::*;
use vstd::string::*;
use crate::text::chars_of;

verus! {

/// The permission bits a lock file is given (owner read and write).
pub const LOCK_FILE_MODE: u32 = 0o600;

/// The name of the lock file.
pub open spec fn lock_file_name() -> Seq<char> {
    "db2binmain.lock"@
}

/// The directory of the lock file: the temporary directory when it is
/// known, `/tmp/` otherwise.
pub open spec fn lock_dir(tmp_dir: Option<Seq<char>>) -> Seq<char> {
    match tmp_dir {
        Some(d) => d,
        None => "/tmp/"@,
    }
}

/// The lock file's path: its directory, a `/` unless the directory ends
/// in one, and the file name.
pub open spec fn lock_path(tmp_dir: Option<Seq<char>>) -> Seq<char> {
    let d = lock_dir(tmp_dir);
    if d.len() > 0 && d.last() == '/' {
        d + lock_file_name()
    } else {
        d.push('/') + lock_file_name()
    }
}

/// The path of the lock file in `tmp_dir` (the value of `TMPDIR`), or in
/// `/tmp/` when it is not set.
pub fn lock_file_path(tmp_dir: Option<String>) -> (r: String)
    ensures
        r@ == lock_path(match tmp_dir {
            Some(d) => Some(d@),
            None => None,
        }),
{
    let mut path = match tmp_dir {
        Some(d) => d,
        None => "/tmp/".to_owned(),
    };
    let cs = chars_of(path.as_str());
    let n = cs.len();
    if !(n > 0 && cs[n - 1] == '/') {
        path.push('/');
    }
    path.append("db2binmain.lock");
    path
}

/// Why a lock file was not used.
pub enum LockFileError {
    /// The entry at the path is a symbolic link; it holds the path.
    ExistingSymlink(String),
    /// The opened handle is not a regular file; it holds the path.
    NotRegularFile(String),
}

impl LockFileError {
    /// The message that reports the refusal.
    pub fn message(&self) -> (r: String)
        ensures
            self matches LockFileError::ExistingSymlink(p) ==> r@ == "Refusing to use lock file '"@
                + p@ + "': existing entry is a symlink"@,
            self matches LockFileError::NotRegularFile(p) ==> r@ == "Refusing to use lock file '"@
                + p@ + "': resolved to something other than a regular file"@,
    {
        let mut r = "Refusing to use lock file '".to_owned();
        match self {
            LockFileError::ExistingSymlink(p) => {
                r.append(p.as_str());
                r.append("': existing entry is a symlink");
            },
            LockFileError::NotRegularFile(p) => {
                r.append(p.as_str());
                r.append("': resolved to something other than a regular file");
            },
        }
        r
    }
}

/// The check before opening: `existing_is_symlink` tells whether the entry
/// already at `path` is a symbolic link, or is `None` when nothing could
/// be learnt of it. Only a symbolic link is refused.
pub fn check_existing_entry(path: &str, existing_is_symlink: Option<bool>) -> (r: Result<
    (),
    LockFileError,
>)
    ensures
        existing_is_symlink == Some(true) ==> (r matches Err(LockFileError::ExistingSymlink(p))
            && p@ == path@),
        existing_is_symlink != Some(true) ==> r is Ok,
{
    match existing_is_symlink {
        Some(true) => Err(LockFileError::ExistingSymlink(path.to_owned())),
        _ => Ok(()),
    }
}

/// The check after opening: the handle must be a regular file.
pub fn check_opened_handle(path: &str, is_regular_file: bool) -> (r: Result<(), LockFileError>)
    ensures
        !is_regular_file ==> (r matches Err(LockFileError::NotRegularFile(p)) && p@ == path@),
        is_regular_file ==> r is Ok,
{
    if is_regular_file {
        Ok(())
    } else {
        Err(LockFileError::NotRegularFile(path.to_owned()))
    }
}

} // verus!
