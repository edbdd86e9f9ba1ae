//! The remote version catalog: the record describing one installable
//! version, and the conversion from the catalog's wire model to it. The
//! HTTP fetch itself is I/O and lives outside this crate.

use vstd::prelude::*;

verus! {

/// One installable version as the launcher tracks it: the id, the catalog
/// type, an optional source URL for its metadata, and whether it is
/// already available locally.
#[derive(Debug)]
pub struct MinecraftVersion {
    pub id: String,
    pub version_type: String,
    pub url: Option<String>,
    pub available: bool,
}

impl Clone for MinecraftVersion {
    /// The clone carries exactly the same id, type, URL and availability.
    fn clone(&self) -> (r: Self)
        ensures
            r == self,
    {
        let url = match &self.url {
            Some(u) => Some(u.clone()),
            None => None,
        };
        MinecraftVersion {
            id: self.id.clone(),
            version_type: self.version_type.clone(),
            url,
            available: self.available,
        }
    }
}

/// The remote catalog document: a list of version records.
pub struct VersionManifest {
    pub versions: Vec<ApiVersion>,
}

/// One record of the remote catalog: id, catalog type and metadata URL.
pub struct ApiVersion {
    pub id: String,
    pub version_type: String,
    pub url: String,
}

pub struct MojangRepository;

impl MojangRepository {
    pub fn new() -> Self {
        MojangRepository
    }

    /// Turns the fetched catalog into launcher version records: each entry
    /// keeps its id and type, carries its URL as the remote source, and is
    /// not yet locally available.
    pub fn versions_from_manifest(&self, manifest: VersionManifest) -> (r: Vec<MinecraftVersion>)
        ensures
            r@.len() == manifest.versions@.len(),
            forall|i: int|
                0 <= i < r@.len() ==> {
                    &&& (#[trigger] r@[i]).id == manifest.versions@[i].id
                    &&& r@[i].version_type == manifest.versions@[i].version_type
                    &&& r@[i].url == Some(manifest.versions@[i].url)
                    &&& r@[i].available == false
                },
    {
        let mut out: Vec<MinecraftVersion> = Vec::new();
        let mut rest = manifest.versions;
        let ghost orig = rest@;
        while rest.len() > 0
            invariant
                out@.len() + rest@.len() == orig.len(),
                rest@ =~= orig.subrange(out@.len() as int, orig.len() as int),
                forall|i: int|
                    0 <= i < out@.len() ==> {
                        &&& (#[trigger] out@[i]).id == orig[i].id
                        &&& out@[i].version_type == orig[i].version_type
                        &&& out@[i].url == Some(orig[i].url)
                        &&& out@[i].available == false
                    },
            decreases rest@.len(),
        {
            let v = rest.remove(0);
            out.push(
                MinecraftVersion {
                    id: v.id,
                    version_type: v.version_type,
                    url: Some(v.url),
                    available: false,
                },
            );
        }
        out
    }
}

} // verus!
