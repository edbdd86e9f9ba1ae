//! The launch orchestrator's decisions: resolving a version's effective
//! metadata through its inheritance chain, planning which dependencies
//! must still be downloaded, assembling the classpath, and building the
//! argument list of the game process. Downloads, file probes and the spawn
//! itself are performed by the surrounding application, which feeds their
//! outcomes back into these functions.

use crate::config::AppConfig;
use crate::error::LaunchError;
use crate::model::{lib_artifact, lib_included, Library, VersionDetail};
use crate::mojang::MinecraftVersion;
use crate::paths::LauncherPaths;
use crate::platform::Platform;
use crate::repository::LauncherRepository;
use crate::text::{find_char, find_from, dots_to_slashes, replace_char};
use vstd::prelude::*;

verus! {

/// The identity the game is started with. Supplied by the account store;
/// the defaults are placeholders for when no account context exists and
/// must never reach a real launch.
pub struct LaunchArgs {
    pub username: String,
    pub uuid: String,
    pub access_token: String,
}

impl Default for LaunchArgs {
    /// Placeholder identity: empty username, nil UUID, dummy token.
    fn default() -> (r: Self)
        ensures
            r.username@ == ""@,
            r.uuid@ == "00000000-0000-0000-0000-000000000000"@,
            r.access_token@ == "0"@,
    {
        LaunchArgs {
            username: String::from_str(""),
            uuid: String::from_str("00000000-0000-0000-0000-000000000000"),
            access_token: String::from_str("0"),
        }
    }
}

/// The local path a maven-style coordinate `group:artifact:version` maps
/// to: `group/with/slashes/artifact/version/artifact-version.jar`. A name
/// with fewer than three `:`-separated parts maps to itself; parts after
/// the third are ignored.
pub open spec fn coordinate_path(name: Seq<char>) -> Seq<char> {
    let i1 = find_from(name, ':', 0);
    let i2 = find_from(name, ':', i1 + 1);
    if i2 >= name.len() {
        name
    } else {
        let i3 = find_from(name, ':', i2 + 1);
        let group = replace_char(name.take(i1), '.', '/');
        let artifact = name.subrange(i1 + 1, i2);
        let version = name.subrange(i2 + 1, i3);
        group + "/"@ + artifact + "/"@ + version + "/"@ + artifact + "-"@ + version + ".jar"@
    }
}

/// The path a library occupies under the libraries directory: its explicit
/// artifact path when the metadata gives one, else the path derived from
/// its coordinate name.
pub open spec fn lib_relative_path(lib: Library) -> Seq<char> {
    match lib_artifact(lib) {
        Some(a) => a.path@,
        None => coordinate_path(lib.name@),
    }
}

/// One download a launch still has to perform: the source URL and the
/// local path the bytes go to.
pub struct DownloadTask {
    pub url: String,
    pub path: String,
}

impl Clone for DownloadTask {
    /// The clone carries exactly the same URL and path.
    fn clone(&self) -> (r: Self)
        ensures
            r == self,
    {
        DownloadTask { url: self.url.clone(), path: self.path.clone() }
    }
}

/// The (url, path) views of a task list.
pub open spec fn task_views(tasks: Seq<DownloadTask>) -> Seq<(Seq<char>, Seq<char>)> {
    tasks.map_values(|t: DownloadTask| (t.url@, t.path@))
}

/// The client-jar download of a version: present exactly when the
/// metadata carries a client-download record, and aimed at the planned
/// client-jar path.
pub open spec fn spec_client_tasks(detail: VersionDetail, paths: LauncherPaths) -> Seq<
    (Seq<char>, Seq<char>),
> {
    match detail.downloads {
        Some(d) => seq![(d.client.url@, paths.client_jar@)],
        None => Seq::empty(),
    }
}

/// The download one library contributes: nothing when its rules exclude it
/// on this platform or it has no explicit artifact; otherwise the
/// artifact's URL, aimed under the libraries directory.
pub open spec fn spec_lib_task(lib: Library, libraries_dir: Seq<char>, platform: Platform) -> Seq<
    (Seq<char>, Seq<char>),
> {
    if lib_included(lib, platform) {
        match lib_artifact(lib) {
            Some(a) => seq![(a.url@, libraries_dir + "/"@ + a.path@)],
            None => Seq::empty(),
        }
    } else {
        Seq::empty()
    }
}

/// The downloads a library list contributes, in descriptor order.
pub open spec fn spec_lib_tasks(
    libs: Seq<Library>,
    libraries_dir: Seq<char>,
    platform: Platform,
) -> Seq<(Seq<char>, Seq<char>)>
    decreases libs.len(),
{
    if libs.len() == 0 {
        Seq::empty()
    } else {
        spec_lib_tasks(libs.drop_last(), libraries_dir, platform) + spec_lib_task(
            libs.last(),
            libraries_dir,
            platform,
        )
    }
}

/// Everything a launch of this version may have to download: the client
/// jar first, then the included libraries' artifacts in descriptor order.
pub open spec fn spec_required_tasks(
    detail: VersionDetail,
    paths: LauncherPaths,
    platform: Platform,
) -> Seq<(Seq<char>, Seq<char>)> {
    spec_client_tasks(detail, paths) + spec_lib_tasks(
        detail.libraries@,
        paths.libraries_dir@,
        platform,
    )
}

/// The destination paths of a task list, as a set.
pub open spec fn task_path_set(tasks: Seq<(Seq<char>, Seq<char>)>) -> Set<Seq<char>> {
    Set::new(|p: Seq<char>| exists|i: int| 0 <= i < tasks.len() && tasks[i].1 == p)
}

/// The set of path views of a string list.
pub open spec fn string_path_set(paths: Seq<String>) -> Set<Seq<char>> {
    Set::new(|p: Seq<char>| exists|i: int| 0 <= i < paths.len() && paths[i]@ == p)
}

/// The tasks whose destination is not already on disk: only these are
/// downloaded, so a fully cached install downloads nothing.
pub open spec fn missing_tasks(tasks: Seq<(Seq<char>, Seq<char>)>, disk: Set<Seq<char>>) -> Seq<
    (Seq<char>, Seq<char>),
> {
    tasks.filter(|t: (Seq<char>, Seq<char>)| !disk.contains(t.1))
}

/// The classpath entry one library contributes: its path under the
/// libraries directory when its rules include it on this platform, nothing
/// otherwise.
pub open spec fn spec_classpath_entry(
    lib: Library,
    libraries_dir: Seq<char>,
    platform: Platform,
) -> Seq<Seq<char>> {
    if lib_included(lib, platform) {
        seq![libraries_dir + "/"@ + lib_relative_path(lib)]
    } else {
        Seq::empty()
    }
}

/// The classpath entries a library list contributes, in descriptor order.
pub open spec fn spec_classpath_entries(
    libs: Seq<Library>,
    libraries_dir: Seq<char>,
    platform: Platform,
) -> Seq<Seq<char>>
    decreases libs.len(),
{
    if libs.len() == 0 {
        Seq::empty()
    } else {
        spec_classpath_entries(libs.drop_last(), libraries_dir, platform) + spec_classpath_entry(
            libs.last(),
            libraries_dir,
            platform,
        )
    }
}

/// The classpath string: the client jar path first, then each included
/// library's path in descriptor order, joined with the platform separator.
pub open spec fn spec_classpath(
    detail: VersionDetail,
    paths: LauncherPaths,
    platform: Platform,
) -> Seq<char> {
    crate::text::join_with(
        seq![paths.client_jar@] + spec_classpath_entries(
            detail.libraries@,
            paths.libraries_dir@,
            platform,
        ),
        platform.spec_classpath_separator(),
    )
}

/// The classpath always begins with the client jar path, whatever the
/// version's libraries are.
pub proof fn lemma_classpath_starts_with_client_jar(
    detail: VersionDetail,
    paths: LauncherPaths,
    platform: Platform,
)
    ensures
        paths.client_jar@.len() <= spec_classpath(detail, paths, platform).len(),
        spec_classpath(detail, paths, platform).take(paths.client_jar@.len() as int)
            == paths.client_jar@,
{
    let parts = seq![paths.client_jar@] + spec_classpath_entries(
        detail.libraries@,
        paths.libraries_dir@,
        platform,
    );
    assert(parts[0] == paths.client_jar@);
    crate::text::lemma_join_with_prefix(parts, platform.spec_classpath_separator());
}

/// The asset-index id handed to the game: the resolved record's id, or
/// the literal `legacy` when none is resolvable.
pub open spec fn spec_asset_index_id(detail: VersionDetail) -> Seq<char> {
    match detail.assetIndex {
        Some(a) => a.id@,
        None => "legacy"@,
    }
}

/// The fixed argument template of the game process: an optional
/// single-threaded-start flag (required only on macOS), the heap size
/// flag, the classpath, the main class, and the positional game flags.
pub open spec fn spec_command_args(
    detail: VersionDetail,
    paths: LauncherPaths,
    classpath: Seq<char>,
    id: Seq<char>,
    args: LaunchArgs,
    platform: Platform,
) -> Seq<Seq<char>> {
    (if platform is Macos {
        seq!["-XstartOnFirstThread"@]
    } else {
        Seq::empty()
    }) + seq![
        "-Xmx2G"@,
        "-cp"@,
        classpath,
        detail.mainClass@,
        "--version"@,
        id,
        "--gameDir"@,
        "."@,
        "--assetsDir"@,
        paths.assets_dir@,
        "--assetIndex"@,
        spec_asset_index_id(detail),
        "--username"@,
        args.username@,
        "--uuid"@,
        args.uuid@,
        "--accessToken"@,
        args.access_token@,
        "--userType"@,
        "legacy"@,
    ]
}

/// Everything needed to spawn the game process: the runtime executable,
/// the working directory, and the argument list in order. The spawn
/// itself — detached, output not captured — is the caller's.
pub struct LaunchCommand {
    pub program: String,
    pub working_dir: String,
    pub args: Vec<String>,
}

/// The strictly sequential stages of one launch attempt; there is no
/// branching back. Any failure before the spawn aborts the attempt with
/// no rollback of files already materialized.
#[derive(Clone, Copy, Debug, PartialEq, Eq, Structural)]
pub enum LaunchStage {
    Planned,
    MetadataResolved,
    DependenciesReady,
    ClasspathBuilt,
    RuntimeReady,
    Spawned,
}

impl LaunchStage {
    /// The stage a successful step leads to; a spawned launch is done.
    pub fn next(self) -> (r: Option<LaunchStage>)
        ensures
            r == match self {
                LaunchStage::Planned => Some(LaunchStage::MetadataResolved),
                LaunchStage::MetadataResolved => Some(LaunchStage::DependenciesReady),
                LaunchStage::DependenciesReady => Some(LaunchStage::ClasspathBuilt),
                LaunchStage::ClasspathBuilt => Some(LaunchStage::RuntimeReady),
                LaunchStage::RuntimeReady => Some(LaunchStage::Spawned),
                LaunchStage::Spawned => None::<LaunchStage>,
            },
    {
        match self {
            LaunchStage::Planned => Some(LaunchStage::MetadataResolved),
            LaunchStage::MetadataResolved => Some(LaunchStage::DependenciesReady),
            LaunchStage::DependenciesReady => Some(LaunchStage::ClasspathBuilt),
            LaunchStage::ClasspathBuilt => Some(LaunchStage::RuntimeReady),
            LaunchStage::RuntimeReady => Some(LaunchStage::Spawned),
            LaunchStage::Spawned => None,
        }
    }
}

/// Filtering keeps nothing when no element satisfies the predicate.
proof fn lemma_filter_all_false<A>(s: Seq<A>, pred: spec_fn(A) -> bool)
    requires
        forall|i: int| 0 <= i < s.len() ==> !pred(#[trigger] s[i]),
    ensures
        s.filter(pred) == Seq::<A>::empty(),
    decreases s.len(),
{
    reveal(Seq::filter);
    if s.len() > 0 {
        assert(forall|i: int| 0 <= i < s.drop_last().len() ==> s.drop_last()[i] == s[i]);
        lemma_filter_all_false(s.drop_last(), pred);
    }
}

/// Materialization is idempotent: once every required path is on disk —
/// which one successful materialization run guarantees, whatever was there
/// before — a second planning pass finds nothing left to download.
pub proof fn lemma_materialization_idempotent(
    detail: VersionDetail,
    paths: LauncherPaths,
    platform: Platform,
    disk: Set<Seq<char>>,
)
    ensures
        missing_tasks(
            spec_required_tasks(detail, paths, platform),
            disk.union(task_path_set(spec_required_tasks(detail, paths, platform))),
        ) == Seq::<(Seq<char>, Seq<char>)>::empty(),
{
    let tasks = spec_required_tasks(detail, paths, platform);
    let full = disk.union(task_path_set(tasks));
    assert forall|i: int| 0 <= i < tasks.len() implies full.contains(#[trigger] tasks[i].1) by {
        assert(task_path_set(tasks).contains(tasks[i].1));
    }
    lemma_filter_all_false(tasks, |t: (Seq<char>, Seq<char>)| !full.contains(t.1));
}

pub struct LauncherService {}

impl LauncherService {
    /// The runtime root everything is cached under, as configured.
    pub fn get_minecraft_root_dir(config: &AppConfig) -> (r: String)
        ensures
            r@ == config.minecraft_root_dir@,
    {
        config.minecraft_root_dir.clone()
    }

    /// Derives the on-disk path of a library from its coordinate name.
    pub fn name_to_path(name: &String) -> (r: String)
        ensures
            r@ == coordinate_path(name@),
    {
        let s = name.as_str();
        let n: usize = s.unicode_len();
        let i1 = find_char(s, ':', 0);
        proof {
            crate::text::lemma_find_from(s@, ':', 0);
        }
        if i1 == n {
            return name.clone();
        }
        let i2 = find_char(s, ':', i1 + 1);
        proof {
            crate::text::lemma_find_from(s@, ':', i1 + 1);
        }
        if i2 == n {
            return name.clone();
        }
        let i3 = find_char(s, ':', i2 + 1);
        proof {
            crate::text::lemma_find_from(s@, ':', i2 + 1);
        }
        let group = dots_to_slashes(s.substring_char(0, i1));
        let artifact = s.substring_char(i1 + 1, i2);
        let version = s.substring_char(i2 + 1, i3);
        let r = group.concat("/").concat(artifact).concat("/").concat(version).concat("/").concat(
            artifact,
        ).concat("-").concat(version).concat(".jar");
        proof {
            assert(r@ =~= coordinate_path(name@));
        }
        r
    }

    /// Flattens one inheritance step: the child's libraries come first,
    /// then the parent's (naive concatenation, duplicates kept), and the
    /// child's absent client-download and asset-index records are filled
    /// in from the parent. Everything else stays the child's.
    pub fn merge_with_parent(child: VersionDetail, parent: VersionDetail) -> (r: VersionDetail)
        ensures
            r.mainClass == child.mainClass,
            r.inherits_from == child.inherits_from,
            r.libraries@ == child.libraries@ + parent.libraries@,
            r.downloads == if child.downloads is Some {
                child.downloads
            } else {
                parent.downloads
            },
            r.assetIndex == if child.assetIndex is Some {
                child.assetIndex
            } else {
                parent.assetIndex
            },
    {
        let VersionDetail { mainClass, downloads, assetIndex, mut libraries, inherits_from } =
            child;
        let mut parent_libraries = parent.libraries;
        libraries.append(&mut parent_libraries);
        let downloads = match downloads {
            Some(d) => Some(d),
            None => parent.downloads,
        };
        let assetIndex = match assetIndex {
            Some(a) => Some(a),
            None => parent.assetIndex,
        };
        VersionDetail { mainClass, downloads, assetIndex, libraries, inherits_from }
    }

    /// Resolves the inheritance step once the caller has looked for the
    /// parent's metadata: a present parent is merged in, a missing parent
    /// file is tolerated and the child stands as it is — a deliberate
    /// concession to partial installs, at the price of a possibly
    /// incomplete library list.
    pub fn resolve_with_optional_parent(
        child: VersionDetail,
        parent: Option<VersionDetail>,
    ) -> (r: VersionDetail)
        ensures
            match parent {
                Some(p) => {
                    &&& r.mainClass == child.mainClass
                    &&& r.inherits_from == child.inherits_from
                    &&& r.libraries@ == child.libraries@ + p.libraries@
                    &&& r.downloads == if child.downloads is Some {
                        child.downloads
                    } else {
                        p.downloads
                    }
                    &&& r.assetIndex == if child.assetIndex is Some {
                        child.assetIndex
                    } else {
                        p.assetIndex
                    }
                },
                None => r == child,
            },
    {
        match parent {
            Some(p) => Self::merge_with_parent(child, p),
            None => child,
        }
    }

    /// Decides how the version's metadata file is obtained. A locally
    /// available version needs nothing. A remote version without a source
    /// URL cannot be resolved at all; with one, the URL must be fetched
    /// exactly when no metadata file exists yet at its planned path.
    pub fn metadata_download_plan(version: &MinecraftVersion, version_json_exists: bool) -> (r:
        Result<Option<String>, LaunchError>)
        ensures
            version.available ==> r matches Ok(None),
            !version.available && version.url is None ==> r matches Err(
                LaunchError::ResolutionError,
            ),
            !version.available && version.url is Some && !version_json_exists ==> (r matches Ok(
                Some(u),
            ) && u == version.url->Some_0),
            !version.available && version.url is Some && version_json_exists ==> r matches Ok(
                None,
            ),
    {
        if version.available {
            Ok(None)
        } else {
            match &version.url {
                None => Err(LaunchError::ResolutionError),
                Some(url) => if version_json_exists {
                    Ok(None)
                } else {
                    Ok(Some(url.clone()))
                },
            }
        }
    }

    /// Lists every download this version may need: the client jar when the
    /// metadata has a client-download record, then each included library's
    /// explicit artifact, in descriptor order.
    pub fn required_files(
        detail: &VersionDetail,
        paths: &LauncherPaths,
        platform: Platform,
    ) -> (r: Vec<DownloadTask>)
        ensures
            task_views(r@) == spec_required_tasks(*detail, *paths, platform),
    {
        let mut tasks: Vec<DownloadTask> = Vec::new();
        if let Some(d) = &detail.downloads {
            tasks.push(DownloadTask { url: d.client.url.clone(), path: paths.client_jar.clone() });
        }
        proof {
            assert(task_views(tasks@) =~= spec_client_tasks(*detail, *paths));
        }
        let mut i: usize = 0;
        while i < detail.libraries.len()
            invariant
                i <= detail.libraries@.len(),
                task_views(tasks@) == spec_client_tasks(*detail, *paths) + spec_lib_tasks(
                    detail.libraries@.take(i as int),
                    paths.libraries_dir@,
                    platform,
                ),
            decreases detail.libraries@.len() - i,
        {
            let ghost prefix = detail.libraries@.take(i as int);
            let ghost pre_tasks = tasks@;
            let lib = &detail.libraries[i];
            if LauncherRepository::should_download_lib(lib, platform) {
                if let Some(downloads) = &lib.downloads {
                    if let Some(artifact) = &downloads.artifact {
                        let path = paths.libraries_dir.clone().concat("/").concat(
                            artifact.path.as_str(),
                        );
                        tasks.push(DownloadTask { url: artifact.url.clone(), path });
                    }
                }
            }
            proof {
                let next = detail.libraries@.take(i + 1);
                let libdir = paths.libraries_dir@;
                let this_lib = detail.libraries@[i as int];
                assert(next.drop_last() =~= prefix);
                assert(next.last() == this_lib);
                assert(spec_lib_tasks(next, libdir, platform) == spec_lib_tasks(
                    prefix,
                    libdir,
                    platform,
                ) + spec_lib_task(this_lib, libdir, platform));
                let client = spec_client_tasks(*detail, *paths);
                let single = spec_lib_task(this_lib, libdir, platform);
                if lib_included(this_lib, platform) && lib_artifact(this_lib) is Some {
                    let a = lib_artifact(this_lib)->Some_0;
                    assert(single == seq![(a.url@, libdir + "/"@ + a.path@)]);
                    assert(task_views(tasks@) =~= task_views(pre_tasks) + single);
                } else {
                    assert(single =~= Seq::<(Seq<char>, Seq<char>)>::empty());
                    assert(task_views(tasks@) =~= task_views(pre_tasks) + single);
                }
                assert((client + spec_lib_tasks(prefix, libdir, platform)) + single =~= client + (
                spec_lib_tasks(prefix, libdir, platform) + single));
                assert(task_views(tasks@) == client + spec_lib_tasks(next, libdir, platform));
            }
            i = i + 1;
        }
        proof {
            assert(detail.libraries@.take(detail.libraries@.len() as int) =~= detail.libraries@);
        }
        tasks
    }

    /// Keeps only the tasks whose destination path is absent from
    /// `existing`, the caller's listing of what is already on disk.
    pub fn missing_files(tasks: &Vec<DownloadTask>, existing: &Vec<String>) -> (r: Vec<
        DownloadTask,
    >)
        ensures
            task_views(r@) == missing_tasks(task_views(tasks@), string_path_set(existing@)),
    {
        let mut out: Vec<DownloadTask> = Vec::new();
        let mut i: usize = 0;
        while i < tasks.len()
            invariant
                i <= tasks@.len(),
                task_views(out@) == missing_tasks(
                    task_views(tasks@.take(i as int)),
                    string_path_set(existing@),
                ),
            decreases tasks@.len() - i,
        {
            let ghost disk = string_path_set(existing@);
            let ghost prev = task_views(tasks@.take(i as int));
            let task = &tasks[i];
            let on_disk = contains_string(existing, &task.path);
            if !on_disk {
                out.push(task.clone());
            }
            proof {
                reveal(Seq::filter);
                let cur = task_views(tasks@.take(i + 1));
                assert(cur.drop_last() =~= prev);
                assert(cur.last() == (tasks@[i as int].url@, tasks@[i as int].path@));
                if disk.contains(cur.last().1) {
                    assert(task_views(out@) =~= missing_tasks(prev, disk));
                } else {
                    assert(task_views(out@) =~= missing_tasks(prev, disk).push(cur.last()));
                }
            }
            i = i + 1;
        }
        proof {
            assert(tasks@.take(tasks@.len() as int) =~= tasks@);
        }
        out
    }

    /// Builds the classpath string: the client jar path first, then each
    /// included library's path (explicit artifact path, or one derived
    /// from its coordinate name) in descriptor order, joined with the
    /// platform separator.
    pub fn build_classpath(
        detail: &VersionDetail,
        paths: &LauncherPaths,
        platform: Platform,
    ) -> (r: String)
        ensures
            r@ == spec_classpath(*detail, *paths, platform),
    {
        let mut entries: Vec<String> = Vec::new();
        entries.push(paths.client_jar.clone());
        proof {
            assert(crate::text::seq_views(entries@) =~= seq![paths.client_jar@]);
        }
        let mut i: usize = 0;
        while i < detail.libraries.len()
            invariant
                i <= detail.libraries@.len(),
                crate::text::seq_views(entries@) == seq![paths.client_jar@]
                    + spec_classpath_entries(
                    detail.libraries@.take(i as int),
                    paths.libraries_dir@,
                    platform,
                ),
            decreases detail.libraries@.len() - i,
        {
            let ghost prefix = detail.libraries@.take(i as int);
            let ghost pre_entries = entries@;
            let lib = &detail.libraries[i];
            if LauncherRepository::should_download_lib(lib, platform) {
                let relative_path = match &lib.downloads {
                    Some(downloads) => match &downloads.artifact {
                        Some(artifact) => artifact.path.clone(),
                        None => Self::name_to_path(&lib.name),
                    },
                    None => Self::name_to_path(&lib.name),
                };
                let full = paths.libraries_dir.clone().concat("/").concat(relative_path.as_str());
                entries.push(full);
            }
            proof {
                let next = detail.libraries@.take(i + 1);
                let libdir = paths.libraries_dir@;
                let this_lib = detail.libraries@[i as int];
                let head = seq![paths.client_jar@];
                let single = spec_classpath_entry(this_lib, libdir, platform);
                assert(next.drop_last() =~= prefix);
                assert(next.last() == this_lib);
                assert(spec_classpath_entries(next, libdir, platform) == spec_classpath_entries(
                    prefix,
                    libdir,
                    platform,
                ) + single);
                if lib_included(this_lib, platform) {
                    assert(single == seq![libdir + "/"@ + lib_relative_path(this_lib)]);
                    assert(crate::text::seq_views(entries@) =~= crate::text::seq_views(pre_entries)
                        + single);
                } else {
                    assert(single =~= Seq::<Seq<char>>::empty());
                    assert(crate::text::seq_views(entries@) =~= crate::text::seq_views(pre_entries)
                        + single);
                }
                assert((head + spec_classpath_entries(prefix, libdir, platform)) + single =~= head
                    + (spec_classpath_entries(prefix, libdir, platform) + single));
                assert(crate::text::seq_views(entries@) == head + spec_classpath_entries(
                    next,
                    libdir,
                    platform,
                ));
            }
            i = i + 1;
        }
        proof {
            assert(detail.libraries@.take(detail.libraries@.len() as int) =~= detail.libraries@);
        }
        crate::text::join_strings(&entries, platform.classpath_separator())
    }

    /// Assembles the command that runs the game: the runtime executable,
    /// the root directory as working directory, and the fixed argument
    /// template with this launch's classpath, version id and identity.
    pub fn build_command(
        java: String,
        paths: &LauncherPaths,
        detail: &VersionDetail,
        classpath: String,
        id: &str,
        launch_args: &LaunchArgs,
        platform: Platform,
    ) -> (r: LaunchCommand)
        ensures
            r.program == java,
            r.working_dir@ == paths.root_dir@,
            crate::text::seq_views(r.args@) == spec_command_args(
                *detail,
                *paths,
                classpath@,
                id@,
                *launch_args,
                platform,
            ),
    {
        let mut args: Vec<String> = Vec::new();
        if matches!(platform, Platform::Macos) {
            args.push(String::from_str("-XstartOnFirstThread"));
        }
        args.push(String::from_str("-Xmx2G"));
        args.push(String::from_str("-cp"));
        args.push(classpath);
        args.push(detail.mainClass.clone());
        args.push(String::from_str("--version"));
        args.push(String::from_str(id));
        args.push(String::from_str("--gameDir"));
        args.push(String::from_str("."));
        args.push(String::from_str("--assetsDir"));
        args.push(paths.assets_dir.clone());
        args.push(String::from_str("--assetIndex"));
        let asset_index_id = match &detail.assetIndex {
            Some(a) => a.id.clone(),
            None => String::from_str("legacy"),
        };
        args.push(asset_index_id);
        args.push(String::from_str("--username"));
        args.push(launch_args.username.clone());
        args.push(String::from_str("--uuid"));
        args.push(launch_args.uuid.clone());
        args.push(String::from_str("--accessToken"));
        args.push(launch_args.access_token.clone());
        args.push(String::from_str("--userType"));
        args.push(String::from_str("legacy"));
        proof {
            assert(crate::text::seq_views(args@) =~= spec_command_args(
                *detail,
                *paths,
                classpath@,
                id@,
                *launch_args,
                platform,
            ));
        }
        LaunchCommand { program: java, working_dir: paths.root_dir.clone(), args }
    }

    /// Reports the locally installed versions found under the root's
    /// `versions/` directory, given its entry names: each is already
    /// available, has no remote source, and is listed as `modded`.
    pub fn get_local_minecraft_versions(entries: Vec<String>) -> (r: Vec<MinecraftVersion>)
        ensures
            r@.len() == entries@.len(),
            forall|i: int|
                0 <= i < r@.len() ==> {
                    &&& (#[trigger] r@[i]).id == entries@[i]
                    &&& r@[i].version_type@ == "modded"@
                    &&& r@[i].url is None
                    &&& r@[i].available == true
                },
    {
        let mut out: Vec<MinecraftVersion> = Vec::new();
        let mut rest = entries;
        let ghost orig = rest@;
        while rest.len() > 0
            invariant
                out@.len() + rest@.len() == orig.len(),
                rest@ =~= orig.subrange(out@.len() as int, orig.len() as int),
                forall|i: int|
                    0 <= i < out@.len() ==> {
                        &&& (#[trigger] out@[i]).id == orig[i]
                        &&& out@[i].version_type@ == "modded"@
                        &&& out@[i].url is None
                        &&& out@[i].available == true
                    },
            decreases rest@.len(),
        {
            let id = rest.remove(0);
            out.push(
                MinecraftVersion {
                    id,
                    version_type: String::from_str("modded"),
                    url: None,
                    available: true,
                },
            );
        }
        out
    }
}

/// Scans the list for a string whose characters equal `s`'s.
pub fn contains_string(v: &Vec<String>, s: &String) -> (r: bool)
    ensures
        r == string_path_set(v@).contains(s@),
{
    let mut i: usize = 0;
    while i < v.len()
        invariant
            i <= v@.len(),
            forall|j: int| 0 <= j < i ==> (#[trigger] v@[j])@ != s@,
        decreases v@.len() - i,
    {
        if v[i] == *s {
            assert(string_path_set(v@).contains(s@));
            return true;
        }
        i = i + 1;
    }
    assert(!string_path_set(v@).contains(s@));
    false
}

} // verus!
