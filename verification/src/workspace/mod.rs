pub mod fs_backend;

use vstd::prelude::*;
use crate::agent::tools_file::{is_absolute, is_absolute_path, path_within, within};
use crate::text::{chars_of, contains, push_str, str_contains, to_string};

verus! {

/// Failures of workspace file access.
#[derive(Debug, Clone)]
pub enum WorkspaceError {
    PathTraversal(String),
    AbsolutePath(String),
    SymlinkEscape(String),
    NotFound(String),
    Io(String),
}

/// The message of a workspace error.
pub open spec fn workspace_error_text(e: WorkspaceError) -> Seq<char> {
    match e {
        WorkspaceError::PathTraversal(p) => "path traversal detected: "@ + p@,
        WorkspaceError::AbsolutePath(p) => "absolute path not allowed: "@ + p@,
        WorkspaceError::SymlinkEscape(p) => "symlink escape: "@ + p@,
        WorkspaceError::NotFound(p) => "file not found: "@ + p@,
        WorkspaceError::Io(m) => "io error: "@ + m@,
    }
}

impl WorkspaceError {
    /// The error's message.
    pub fn message(&self) -> (r: String)
        ensures
            r@ == workspace_error_text(*self),
    {
        let (prefix, detail) = match self {
            WorkspaceError::PathTraversal(p) => ("path traversal detected: ", p),
            WorkspaceError::AbsolutePath(p) => ("absolute path not allowed: ", p),
            WorkspaceError::SymlinkEscape(p) => ("symlink escape: ", p),
            WorkspaceError::NotFound(p) => ("file not found: ", p),
            WorkspaceError::Io(m) => ("io error: ", m),
        };
        let mut r = to_string(prefix);
        push_str(&mut r, detail.as_str());
        r
    }
}

/// An entry of a workspace directory.
#[derive(Debug, Clone)]
pub struct FileEntry {
    pub path: String,
    pub is_dir: bool,
    pub size: u64,
    pub modified: Option<String>,
}

/// Where a project's workspace lives.
pub trait WorkspaceBackend {
    /// The workspace directory of a project.
    fn workspace_root(&self, project_uuid: &[u8]) -> String;
}

/// `base` joined with `part` as a Unix path: an absolute `part` replaces
/// `base`, otherwise a `/` separates them unless `base` is empty or already
/// ends with one.
pub open spec fn path_join(base: Seq<char>, part: Seq<char>) -> Seq<char> {
    if is_absolute_path(part) {
        part
    } else if base.len() == 0 || base.last() == '/' {
        base + part
    } else {
        base + "/"@ + part
    }
}

/// `base` joined with `part` (`Path::join` on Unix).
pub fn join_path(base: &str, part: &str) -> (r: String)
    ensures
        r@ == path_join(base@, part@),
{
    if is_absolute(part) {
        return to_string(part);
    }
    let b = chars_of(base);
    let mut r = to_string(base);
    if !(b.len() == 0 || b[b.len() - 1] == '/') {
        push_str(&mut r, "/");
    }
    push_str(&mut r, part);
    r
}

/// The outcome of checking a relative workspace path, given the resolved
/// workspace root and the resolved path.
pub open spec fn workspace_path_check(
    relative: Seq<char>,
    canonical_root: Seq<char>,
    canonical: Seq<char>,
) -> Result<Seq<char>, WorkspaceError> {
    if is_absolute_path(relative) {
        Err(WorkspaceError::AbsolutePath(arbitrary()))
    } else if contains(relative, ".."@) {
        Err(WorkspaceError::PathTraversal(arbitrary()))
    } else if !path_within(canonical_root, canonical) {
        Err(WorkspaceError::SymlinkEscape(arbitrary()))
    } else {
        Ok(canonical)
    }
}

/// Check a relative workspace path: absolute paths and `..` are refused, and
/// the resolved path must stay under the resolved workspace root. Each error
/// carries the requested path.
pub fn check_workspace_path(relative: &str, canonical_root: &str, canonical: &str) -> (r: Result<
    String,
    WorkspaceError,
>)
    ensures
        match r {
            Ok(p) => workspace_path_check(relative@, canonical_root@, canonical@) == Ok::<
                Seq<char>,
                WorkspaceError,
            >(p@),
            Err(WorkspaceError::AbsolutePath(p)) => p@ == relative@ && is_absolute_path(relative@),
            Err(WorkspaceError::PathTraversal(p)) => p@ == relative@ && !is_absolute_path(
                relative@,
            ) && contains(relative@, ".."@),
            Err(WorkspaceError::SymlinkEscape(p)) => p@ == relative@ && !is_absolute_path(
                relative@,
            ) && !contains(relative@, ".."@) && !path_within(canonical_root@, canonical@),
            Err(_) => false,
        },
        r is Ok <==> workspace_path_check(relative@, canonical_root@, canonical@) is Ok,
{
    if is_absolute(relative) {
        return Err(WorkspaceError::AbsolutePath(to_string(relative)));
    }
    if str_contains(relative, "..") {
        return Err(WorkspaceError::PathTraversal(to_string(relative)));
    }
    if !within(canonical_root, canonical) {
        return Err(WorkspaceError::SymlinkEscape(to_string(relative)));
    }
    Ok(to_string(canonical))
}

} // verus!
