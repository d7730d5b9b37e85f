//! The rules of file access in the workspace: which paths may be read or
//! written, under which root, and within which size budgets.

use vstd::prelude::*;
use crate::text::{owned, utf8_count, utf8_len};

verus! {

/// The largest file read or written, in bytes.
pub const MAX_FILE_BYTES: u64 = 16777216;

/// The longest path accepted, in bytes.
pub const MAX_PATH_BYTES: usize = 4096;

/// The most directories outside the root that may be read.
pub const MAX_READ_ROOTS: usize = 16;

/// What a session may do with files.
#[derive(Clone, Copy, Debug, PartialEq, Eq, Structural)]
pub enum PermissionProfile {
    /// Read the workspace only.
    ReadOnly,
    /// Read and write the workspace.
    Workspace,
    /// Read and write the whole file system.
    Full,
}

/// Why a file access is refused.
#[derive(Clone, Copy, Debug, PartialEq, Eq, Structural)]
pub enum FileRefusal {
    InvalidPathLength,
    OutsideReadRoots,
    OutsideRoot,
    ReadOnly,
    NotRegularFile,
    ReadTooLarge,
    WriteTooLarge,
    TooManyReadRoots,
}

/// The message of a refusal.
pub open spec fn refusal_message(r: FileRefusal) -> Seq<char> {
    match r {
        FileRefusal::InvalidPathLength => "invalid file path length"@,
        FileRefusal::OutsideReadRoots => "path is outside the allowed read roots"@,
        FileRefusal::OutsideRoot => "path is outside the allowed root"@,
        FileRefusal::ReadOnly => "read-only profile forbids writes"@,
        FileRefusal::NotRegularFile => "read requires a regular file"@,
        FileRefusal::ReadTooLarge => "file exceeds the read budget"@,
        FileRefusal::WriteTooLarge => "file exceeds the write budget"@,
        FileRefusal::TooManyReadRoots => "too many additional read roots"@,
    }
}

/// Whether a refusal is a denied permission rather than another error.
pub open spec fn is_permission_denied(r: FileRefusal) -> bool {
    r == FileRefusal::OutsideReadRoots || r == FileRefusal::OutsideRoot || r == FileRefusal::ReadOnly
}

impl FileRefusal {
    /// The message of this refusal.
    pub fn message(&self) -> (m: String)
        ensures
            m@ == refusal_message(*self),
    {
        match self {
            FileRefusal::InvalidPathLength => owned("invalid file path length"),
            FileRefusal::OutsideReadRoots => owned("path is outside the allowed read roots"),
            FileRefusal::OutsideRoot => owned("path is outside the allowed root"),
            FileRefusal::ReadOnly => owned("read-only profile forbids writes"),
            FileRefusal::NotRegularFile => owned("read requires a regular file"),
            FileRefusal::ReadTooLarge => owned("file exceeds the read budget"),
            FileRefusal::WriteTooLarge => owned("file exceeds the write budget"),
            FileRefusal::TooManyReadRoots => owned("too many additional read roots"),
        }
    }

    /// Whether this refusal is a denied permission.
    pub fn permission_denied(&self) -> (r: bool)
        ensures
            r == is_permission_denied(*self),
    {
        *self == FileRefusal::OutsideReadRoots || *self == FileRefusal::OutsideRoot || *self == FileRefusal::ReadOnly
    }
}

/// Whether the files are rooted at the file system root rather than at
/// the workspace: only with full access.
pub fn rooted_at_filesystem_root(profile: PermissionProfile) -> (r: bool)
    ensures
        r == (profile == PermissionProfile::Full),
{
    profile == PermissionProfile::Full
}

/// Whether a path has an accepted length: 1 to 4096 bytes.
pub open spec fn path_length_ok(path: Seq<char>) -> bool {
    0 < utf8_len(path) <= MAX_PATH_BYTES
}

fn path_length_ok_exec(path: &str) -> (r: bool)
    ensures
        r == path_length_ok(path@),
{
    let n = utf8_count(path);
    0 < n && n <= MAX_PATH_BYTES as u128
}

/// The first of the read roots that a path lies under.
pub open spec fn first_true(s: Seq<bool>, i: int) -> Option<int>
    decreases s.len() - i,
{
    if i < 0 || i >= s.len() {
        None
    } else if s[i] {
        Some(i)
    } else {
        first_true(s, i + 1)
    }
}

/// Where a read goes: refused for a path of the wrong length; the root
/// (`None`) when the path, joined onto the workspace, lies under it; else
/// the first additional read root it lies under; refused when there is none.
pub open spec fn read_place_spec(path: Seq<char>, under_root: bool, under_read_roots: Seq<bool>) -> Result<
    Option<int>,
    FileRefusal,
> {
    if !path_length_ok(path) {
        Err(FileRefusal::InvalidPathLength)
    } else if under_root {
        Ok(None)
    } else {
        match first_true(under_read_roots, 0) {
            Some(i) => Ok(Some(i)),
            None => Err(FileRefusal::OutsideReadRoots),
        }
    }
}

/// A read place as an integer position.
pub open spec fn place_view(r: Result<Option<usize>, FileRefusal>) -> Result<Option<int>, FileRefusal> {
    match r {
        Ok(Some(i)) => Ok(Some(i as int)),
        Ok(None) => Ok(None),
        Err(e) => Err(e),
    }
}

/// Where a read of `path` goes (see [`read_place_spec`]): `under_root` says
/// whether the joined path lies under the root, `under_read_roots[i]`
/// whether it lies under the `i`-th additional read root.
pub fn read_place(path: &str, under_root: bool, under_read_roots: &[bool]) -> (r: Result<Option<usize>, FileRefusal>)
    ensures
        place_view(r) == read_place_spec(path@, under_root, under_read_roots@),
{
    if !path_length_ok_exec(path) {
        return Err(FileRefusal::InvalidPathLength);
    }
    if under_root {
        return Ok(None);
    }
    let mut i: usize = 0;
    while i < under_read_roots.len()
        invariant
            path_length_ok(path@),
            !under_root,
            0 <= i <= under_read_roots@.len(),
            first_true(under_read_roots@, i as int) == first_true(under_read_roots@, 0),
        decreases under_read_roots@.len() - i,
    {
        if under_read_roots[i] {
            proof {
                assert(first_true(under_read_roots@, i as int) == Some(i as int));
            }
            return Ok(Some(i));
        }
        i = i + 1;
    }
    Err(FileRefusal::OutsideReadRoots)
}

/// What a read that reached a file decides: it must be a regular file of at
/// most 16 MiB (`length` is what was read of it, at most one byte past the
/// budget).
pub open spec fn read_result_spec(is_file: bool, length: u64) -> Result<(), FileRefusal> {
    if !is_file {
        Err(FileRefusal::NotRegularFile)
    } else if length > MAX_FILE_BYTES {
        Err(FileRefusal::ReadTooLarge)
    } else {
        Ok(())
    }
}

/// Whether a read file is kept (see [`read_result_spec`]).
pub fn read_result(is_file: bool, length: u64) -> (r: Result<(), FileRefusal>)
    ensures
        r == read_result_spec(is_file, length),
{
    if !is_file {
        Err(FileRefusal::NotRegularFile)
    } else if length > MAX_FILE_BYTES {
        Err(FileRefusal::ReadTooLarge)
    } else {
        Ok(())
    }
}

/// Whether so many additional read roots are accepted: at most 16.
pub fn read_roots_check(count: usize) -> (r: Result<(), FileRefusal>)
    ensures
        r == (if count > MAX_READ_ROOTS {
            Err(FileRefusal::TooManyReadRoots)
        } else {
            Ok(())
        }),
{
    if count > MAX_READ_ROOTS {
        Err(FileRefusal::TooManyReadRoots)
    } else {
        Ok(())
    }
}

/// What a write decides before it touches the disk, in this order: the
/// read-only profile refuses it; more than 16 MiB is refused; the path must
/// have an accepted length and, joined onto the workspace, lie under the
/// root.
pub open spec fn write_check_spec(profile: PermissionProfile, length: u64, path: Seq<char>, under_root: bool) -> Result<
    (),
    FileRefusal,
> {
    if profile == PermissionProfile::ReadOnly {
        Err(FileRefusal::ReadOnly)
    } else if length > MAX_FILE_BYTES {
        Err(FileRefusal::WriteTooLarge)
    } else if !path_length_ok(path) {
        Err(FileRefusal::InvalidPathLength)
    } else if !under_root {
        Err(FileRefusal::OutsideRoot)
    } else {
        Ok(())
    }
}

/// Whether a write of `length` bytes to `path` may go ahead (see
/// [`write_check_spec`]).
pub fn write_check(profile: PermissionProfile, length: u64, path: &str, under_root: bool) -> (r: Result<(), FileRefusal>)
    ensures
        r == write_check_spec(profile, length, path@, under_root),
{
    if profile == PermissionProfile::ReadOnly {
        Err(FileRefusal::ReadOnly)
    } else if length > MAX_FILE_BYTES {
        Err(FileRefusal::WriteTooLarge)
    } else if !path_length_ok_exec(path) {
        Err(FileRefusal::InvalidPathLength)
    } else if !under_root {
        Err(FileRefusal::OutsideRoot)
    } else {
        Ok(())
    }
}

} // verus!
