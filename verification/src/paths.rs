//! Deciding what "reveal this path in the file browser" must do.  The
//! filesystem facts (does the path exist, is it a file, what is its parent
//! directory) and the OS command itself are the caller's I/O; the decision
//! of what to open, and when to refuse without touching the OS, is made and
//! verified here.

use vstd::prelude::*;

use crate::strutil::concat_str;

verus! {

/// What the filesystem reports about a path, handed in by the caller.
#[derive(Debug, Clone)]
pub struct PathStatus {
    /// Whether the path exists at all.
    pub exists: bool,
    /// Whether it names a regular file (as opposed to a directory).
    pub is_file: bool,
    /// The containing directory, when the path has one.
    pub parent: Option<String>,
}

/// What `open_path` decides for a path with the given filesystem status.
pub open spec fn open_path_post(
    path: Seq<char>,
    status: PathStatus,
    r: Result<String, String>,
) -> bool {
    if !status.exists {
        r matches Err(m) && m@ == "the path does not exist: "@ + path
    } else if status.is_file {
        r matches Ok(t) && Some(t) == status.parent
    } else {
        r matches Ok(t) && t@ == path
    }
}

/// Decides which location the OS file browser should reveal for `path`.
///
/// A nonexistent path is refused with the not-found error before any OS
/// command is involved: no target to open is produced.  For a file, the
/// containing directory is revealed instead of the file itself; a directory
/// is revealed as it is.
pub fn open_path(path: &str, status: PathStatus) -> (r: Result<String, String>)
    requires
        status.exists && status.is_file ==> status.parent is Some,
    ensures
        open_path_post(path@, status, r),
{
    if !status.exists {
        Err(concat_str("the path does not exist: ", path))
    } else if status.is_file {
        match status.parent {
            Some(parent) => Ok(parent),
            None => unreached(),
        }
    } else {
        Ok(path.to_owned())
    }
}

} // verus!
