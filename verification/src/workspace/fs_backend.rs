use vstd::prelude::*;
use crate::encoding::{hex_encode, hex_lower};
use crate::workspace::{WorkspaceBackend, join_path, path_join};

verus! {

/// Project workspaces on the local file system, under
/// `<base>/projects/<project uuid in hex>/workspace`.
pub struct FsWorkspaceBackend {
    pub base_dir: String,
}

/// The workspace directory of a project under `base`.
pub open spec fn fs_workspace_root(base: Seq<char>, project_uuid: Seq<u8>) -> Seq<char> {
    path_join(path_join(path_join(base, "projects"@), hex_lower(project_uuid)), "workspace"@)
}

impl FsWorkspaceBackend {
    pub fn new(base_dir: String) -> (r: Self)
        ensures
            r.base_dir@ == base_dir@,
    {
        FsWorkspaceBackend { base_dir }
    }

    /// A project's UUID in lowercase hexadecimal.
    pub fn uuid_hex(&self, project_uuid: &[u8]) -> (r: String)
        ensures
            r@ == hex_lower(project_uuid@),
    {
        hex_encode(project_uuid)
    }

    /// The workspace directory of a project.
    pub fn root_of(&self, project_uuid: &[u8]) -> (r: String)
        ensures
            r@ == fs_workspace_root(self.base_dir@, project_uuid@),
    {
        let projects = join_path(self.base_dir.as_str(), "projects");
        let hex = self.uuid_hex(project_uuid);
        let dir = join_path(projects.as_str(), hex.as_str());
        join_path(dir.as_str(), "workspace")
    }
}

impl WorkspaceBackend for FsWorkspaceBackend {
    fn workspace_root(&self, project_uuid: &[u8]) -> (r: String)
        ensures
            r@ == fs_workspace_root(self.base_dir@, project_uuid@),
    {
        self.root_of(project_uuid)
    }
}

} // verus!
