//! The on-disk layout for one version under the configured root directory.
//! Every path is a pure function of the root and the version id; nothing
//! here touches the filesystem.

use vstd::prelude::*;

verus! {

/// Where to find the version directory `versions/<id>`.
pub open spec fn spec_version_dir(root: Seq<char>, id: Seq<char>) -> Seq<char> {
    root + "/versions/"@ + id
}

/// Where to find the version metadata file `versions/<id>/<id>.json`.
pub open spec fn spec_version_json(root: Seq<char>, id: Seq<char>) -> Seq<char> {
    spec_version_dir(root, id) + "/"@ + id + ".json"@
}

/// Where to find the client archive `versions/<id>/<id>.jar`.
pub open spec fn spec_client_jar(root: Seq<char>, id: Seq<char>) -> Seq<char> {
    spec_version_dir(root, id) + "/"@ + id + ".jar"@
}

/// The directory layout for launching one version: all fields derive from
/// the root directory and the version id. Recomputed per launch; nothing
/// has an independent lifecycle.
pub struct LauncherPaths {
    pub root_dir: String,
    pub version_dir: String,
    pub libraries_dir: String,
    pub assets_dir: String,
    pub version_json: String,
    pub client_jar: String,
}

impl LauncherPaths {
    /// All derived fields agree with the root and version id they were
    /// computed from.
    pub open spec fn derived_from(self, root: Seq<char>, id: Seq<char>) -> bool {
        &&& self.root_dir@ == root
        &&& self.version_dir@ == spec_version_dir(root, id)
        &&& self.libraries_dir@ == root + "/libraries"@
        &&& self.assets_dir@ == root + "/assets"@
        &&& self.version_json@ == spec_version_json(root, id)
        &&& self.client_jar@ == spec_client_jar(root, id)
    }

    /// Computes the layout for `version_id` under `minecraft_root_dir`.
    /// Pure computation; the directories need not exist yet.
    pub fn new(version_id: &str, minecraft_root_dir: String) -> (r: Self)
        ensures
            r.derived_from(minecraft_root_dir@, version_id@),
    {
        let root_dir = minecraft_root_dir;
        let version_dir = root_dir.clone().concat("/versions/").concat(version_id);
        let version_json = version_dir.clone().concat("/").concat(version_id).concat(".json");
        let client_jar = version_dir.clone().concat("/").concat(version_id).concat(".jar");
        let libraries_dir = root_dir.clone().concat("/libraries");
        let assets_dir = root_dir.clone().concat("/assets");
        LauncherPaths { root_dir, version_dir, libraries_dir, assets_dir, version_json, client_jar }
    }

    /// The directories a launch must be able to write into, in the order
    /// they are created: the version, libraries and assets directories.
    /// Creating them (with their ancestors) when absent is idempotent and
    /// is the caller's one filesystem duty before materializing files.
    pub fn required_directories(&self) -> (r: Vec<String>)
        ensures
            r@.len() == 3,
            r@[0]@ == self.version_dir@,
            r@[1]@ == self.libraries_dir@,
            r@[2]@ == self.assets_dir@,
    {
        let mut dirs: Vec<String> = Vec::new();
        dirs.push(self.version_dir.clone());
        dirs.push(self.libraries_dir.clone());
        dirs.push(self.assets_dir.clone());
        dirs
    }
}

} // verus!
