//! The version-metadata data model: one installable build is described by a
//! `VersionDetail` with its client download, asset index and library list,
//! and each library may be scoped to platforms by `Rule`s.

use crate::platform::Platform;
use vstd::prelude::*;

verus! {

/// One version's effective metadata: the main class to start, the optional
/// client download and asset index records, the libraries it needs, and an
/// optional parent version whose fields are merged in.
#[allow(non_snake_case)]
pub struct VersionDetail {
    pub mainClass: String,
    pub downloads: Option<Downloads>,
    pub assetIndex: Option<AssetIndex>,
    pub libraries: Vec<Library>,
    pub inherits_from: Option<String>,
}

/// The download records of a version; only the client archive is used here.
pub struct Downloads {
    pub client: DownloadInfo,
}

/// Where to fetch one artifact, and how many bytes to expect.
pub struct DownloadInfo {
    pub url: String,
    pub size: u64,
}

/// The asset-index record: an id passed to the game and a source URL.
pub struct AssetIndex {
    pub id: String,
    pub url: String,
}

/// One library dependency: a maven-style coordinate name, an optional
/// explicit artifact, and optional platform rules.
pub struct Library {
    pub url: Option<String>,
    pub downloads: Option<LibDownloads>,
    pub name: String,
    pub rules: Option<Vec<Rule>>,
}

/// The download section of a library.
pub struct LibDownloads {
    pub artifact: Option<LibArtifact>,
}

/// An explicit library artifact: a path relative to the libraries directory
/// and the URL it is fetched from.
pub struct LibArtifact {
    pub path: String,
    pub url: String,
}

/// A conditional directive scoping a library to an operating system.
pub struct Rule {
    pub action: String,
    pub os: Option<OsRule>,
}

/// The OS a rule targets, by the name version metadata uses.
pub struct OsRule {
    pub name: String,
}

/// Whether this single rule vetoes the library on `platform`: an `allow`
/// rule naming some other OS excludes the library.
pub open spec fn rule_vetoes(rule: Rule, platform: Platform) -> bool {
    match rule.os {
        Some(os) => os.name@ != platform.spec_rule_name() && rule.action@ == "allow"@,
        None => false,
    }
}

/// Whether the library is included on `platform`. An absent or empty rule
/// list always includes; otherwise one vetoing rule excludes, whatever
/// comes after it (deny wins, preserved exactly for compatibility with
/// existing metadata).
pub open spec fn lib_included(lib: Library, platform: Platform) -> bool {
    match lib.rules {
        Some(rules) => !(exists|i: int|
            0 <= i < rules@.len() && rule_vetoes(#[trigger] rules@[i], platform)),
        None => true,
    }
}

/// The explicit artifact of a library, when its download section has one.
pub open spec fn lib_artifact(lib: Library) -> Option<LibArtifact> {
    match lib.downloads {
        Some(d) => d.artifact,
        None => None,
    }
}

} // verus!
