use axlauncher::error::LaunchError;
use axlauncher::model::{AssetIndex, DownloadInfo, Downloads, Library, VersionDetail};
use axlauncher::mojang::MinecraftVersion;
use axlauncher::service::LauncherService;

fn plain_lib(name: &str) -> Library {
    Library { url: None, downloads: None, name: String::from(name), rules: None }
}

fn client_downloads(url: &str, size: u64) -> Downloads {
    Downloads { client: DownloadInfo { url: String::from(url), size } }
}

#[test]
fn merge_takes_parent_downloads_and_concatenates_libraries() {
    // Child {libraries: [X], downloads: none} over parent
    // {libraries: [Y], downloads: D} resolves to [X, Y] and D.
    let child = VersionDetail {
        mainClass: String::from("net.minecraft.client.main.Main"),
        downloads: None,
        assetIndex: None,
        libraries: vec![plain_lib("x.group:x:1")],
        inherits_from: Some(String::from("1.20")),
    };
    let parent = VersionDetail {
        mainClass: String::from("net.minecraft.client.main.Main"),
        downloads: Some(client_downloads("https://example/client.jar", 42)),
        assetIndex: Some(AssetIndex {
            id: String::from("5"),
            url: String::from("https://example/assets.json"),
        }),
        libraries: vec![plain_lib("y.group:y:2")],
        inherits_from: None,
    };
    let merged = LauncherService::merge_with_parent(child, parent);
    assert_eq!(merged.libraries.len(), 2);
    assert_eq!(merged.libraries[0].name, "x.group:x:1");
    assert_eq!(merged.libraries[1].name, "y.group:y:2");
    let downloads = merged.downloads.expect("parent downloads inherited");
    assert_eq!(downloads.client.url, "https://example/client.jar");
    assert_eq!(downloads.client.size, 42);
    assert_eq!(merged.assetIndex.expect("parent asset index inherited").id, "5");
    assert_eq!(merged.inherits_from.as_deref(), Some("1.20"));
}

#[test]
fn merge_keeps_child_records_when_present() {
    let child = VersionDetail {
        mainClass: String::from("child.Main"),
        downloads: Some(client_downloads("https://example/child.jar", 1)),
        assetIndex: Some(AssetIndex {
            id: String::from("child"),
            url: String::from("https://example/child-assets.json"),
        }),
        libraries: Vec::new(),
        inherits_from: Some(String::from("base")),
    };
    let parent = VersionDetail {
        mainClass: String::from("parent.Main"),
        downloads: Some(client_downloads("https://example/parent.jar", 2)),
        assetIndex: None,
        libraries: Vec::new(),
        inherits_from: None,
    };
    let merged = LauncherService::merge_with_parent(child, parent);
    assert_eq!(merged.mainClass, "child.Main");
    assert_eq!(merged.downloads.unwrap().client.url, "https://example/child.jar");
    assert_eq!(merged.assetIndex.unwrap().id, "child");
}

#[test]
fn missing_parent_is_tolerated() {
    // A child that names a parent whose metadata file is absent resolves
    // to itself, unchanged.
    let child = VersionDetail {
        mainClass: String::from("child.Main"),
        downloads: None,
        assetIndex: None,
        libraries: vec![plain_lib("x.group:x:1")],
        inherits_from: Some(String::from("gone")),
    };
    let resolved = LauncherService::resolve_with_optional_parent(child, None);
    assert_eq!(resolved.mainClass, "child.Main");
    assert!(resolved.downloads.is_none());
    assert!(resolved.assetIndex.is_none());
    assert_eq!(resolved.libraries.len(), 1);
    assert_eq!(resolved.inherits_from.as_deref(), Some("gone"));
}

#[test]
fn metadata_plan_local_version_needs_nothing() {
    let version = MinecraftVersion {
        id: String::from("1.20"),
        version_type: String::from("modded"),
        url: None,
        available: true,
    };
    let plan = LauncherService::metadata_download_plan(&version, false).unwrap();
    assert!(plan.is_none());
}

#[test]
fn metadata_plan_remote_without_url_fails() {
    let version = MinecraftVersion {
        id: String::from("1.20"),
        version_type: String::from("release"),
        url: None,
        available: false,
    };
    let err = LauncherService::metadata_download_plan(&version, true);
    assert!(matches!(err, Err(LaunchError::ResolutionError)));
}

#[test]
fn metadata_plan_remote_downloads_only_when_file_absent() {
    let version = MinecraftVersion {
        id: String::from("1.20"),
        version_type: String::from("release"),
        url: Some(String::from("https://example/1.20.json")),
        available: false,
    };
    let plan = LauncherService::metadata_download_plan(&version, false).unwrap();
    assert_eq!(plan.as_deref(), Some("https://example/1.20.json"));
    let plan = LauncherService::metadata_download_plan(&version, true).unwrap();
    assert!(plan.is_none());
}

#[test]
fn name_to_path_derives_maven_layout() {
    // "org.example:foo:1.0" maps to "org/example/foo/1.0/foo-1.0.jar".
    let path = LauncherService::name_to_path(&String::from("org.example:foo:1.0"));
    assert_eq!(path, "org/example/foo/1.0/foo-1.0.jar");
}

#[test]
fn name_to_path_ignores_extra_parts() {
    let path = LauncherService::name_to_path(&String::from("org.lwjgl:lwjgl:3.3.3:natives-linux"));
    assert_eq!(path, "org/lwjgl/lwjgl/3.3.3/lwjgl-3.3.3.jar");
}

#[test]
fn name_to_path_keeps_short_names() {
    let path = LauncherService::name_to_path(&String::from("not-a-coordinate"));
    assert_eq!(path, "not-a-coordinate");
    let path = LauncherService::name_to_path(&String::from("group:artifact"));
    assert_eq!(path, "group:artifact");
    let path = LauncherService::name_to_path(&String::from(""));
    assert_eq!(path, "");
}

#[test]
fn local_versions_are_available_and_modded() {
    let versions = LauncherService::get_local_minecraft_versions(vec![
        String::from("1.20"),
        String::from("fabric-loader-0.15"),
    ]);
    assert_eq!(versions.len(), 2);
    assert_eq!(versions[0].id, "1.20");
    assert_eq!(versions[1].id, "fabric-loader-0.15");
    for v in &versions {
        assert_eq!(v.version_type, "modded");
        assert!(v.url.is_none());
        assert!(v.available);
    }
}
