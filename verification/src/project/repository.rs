use vstd::prelude::*;
use crate::workspace::fs_backend::{FsWorkspaceBackend, fs_workspace_root};

verus! {

/// A project to create.
#[derive(Debug, Clone)]
pub struct NewProject {
    pub name: String,
    pub config_json: String,
}

/// A stored project.
#[derive(Debug, Clone)]
pub struct StoredProject {
    pub id: i64,
    pub uuid: Vec<u8>,
    pub name: String,
    pub root_path: String,
    pub config_json: String,
    pub created_at: String,
    pub updated_at: String,
}

/// Where a new project's workspace lives: `<data dir>/projects/<uuid in
/// hex>/workspace`, the directory the file-system workspace backend uses.
pub fn project_root_path(data_dir: &str, uuid: &[u8]) -> (r: String)
    ensures
        r@ == fs_workspace_root(data_dir@, uuid@),
{
    let backend = FsWorkspaceBackend::new(crate::text::to_string(data_dir));
    backend.root_of(uuid)
}

} // verus!
