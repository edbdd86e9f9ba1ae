use axlauncher::model::{LibArtifact, LibDownloads, Library, OsRule, Rule};
use axlauncher::platform::Platform;
use axlauncher::repository::LauncherRepository;
use axlauncher::error::LaunchError;
use axlauncher::{Arch};

fn lib_with_rules(rules: Option<Vec<Rule>>) -> Library {
    Library {
        url: None,
        downloads: Some(LibDownloads {
            artifact: Some(LibArtifact {
                path: String::from("org/lwjgl/lwjgl/3.3.3/lwjgl-3.3.3.jar"),
                url: String::from("https://libraries.example/lwjgl.jar"),
            }),
        }),
        name: String::from("org.lwjgl:lwjgl:3.3.3"),
        rules,
    }
}

fn allow(os: &str) -> Rule {
    Rule {
        action: String::from("allow"),
        os: Some(OsRule { name: String::from(os) }),
    }
}

#[test]
fn no_rules_always_included() {
    let lib = lib_with_rules(None);
    assert!(LauncherRepository::should_download_lib(&lib, Platform::Linux));
    assert!(LauncherRepository::should_download_lib(&lib, Platform::Macos));
    assert!(LauncherRepository::should_download_lib(&lib, Platform::Windows));
}

#[test]
fn empty_rule_list_included() {
    let lib = lib_with_rules(Some(Vec::new()));
    assert!(LauncherRepository::should_download_lib(&lib, Platform::Linux));
}

#[test]
fn allow_other_os_excludes() {
    // [{allow, osx}] evaluated on Linux: excluded.
    let lib = lib_with_rules(Some(vec![allow("osx")]));
    assert!(!LauncherRepository::should_download_lib(&lib, Platform::Linux));
    assert!(LauncherRepository::should_download_lib(&lib, Platform::Macos));
}

#[test]
fn deny_wins_short_circuit() {
    // [{allow, osx}, {allow, linux}] on Linux: the first rule's veto stands
    // even though a later rule names the running platform.
    let lib = lib_with_rules(Some(vec![allow("osx"), allow("linux")]));
    assert!(!LauncherRepository::should_download_lib(&lib, Platform::Linux));
}

#[test]
fn rule_without_os_never_vetoes() {
    let lib = lib_with_rules(Some(vec![Rule { action: String::from("allow"), os: None }]));
    assert!(LauncherRepository::should_download_lib(&lib, Platform::Windows));
}

#[test]
fn disallow_rule_never_vetoes() {
    // Only "allow" rules naming another OS veto; other actions are ignored.
    let lib = lib_with_rules(Some(vec![Rule {
        action: String::from("disallow"),
        os: Some(OsRule { name: String::from("osx") }),
    }]));
    assert!(LauncherRepository::should_download_lib(&lib, Platform::Linux));
}

#[test]
fn runtime_url_table() {
    let url = LauncherRepository::get_java_download_url(Platform::Linux, Arch::X86_64).unwrap();
    assert!(url.contains("linux"));
    let url = LauncherRepository::get_java_download_url(Platform::Macos, Arch::Aarch64).unwrap();
    assert!(url.contains("aarch64_mac"));
    let url = LauncherRepository::get_java_download_url(Platform::Windows, Arch::Other).unwrap();
    assert!(url.contains("windows"));
    let err = LauncherRepository::get_java_download_url(Platform::Linux, Arch::Aarch64);
    assert!(matches!(err, Err(LaunchError::UnsupportedPlatform)));
}

#[test]
fn runtime_paths() {
    assert_eq!(
        LauncherRepository::find_java("/launcher"),
        "/launcher/java_runtime/jdk-21.0.2+13/Contents/Home/bin/java"
    );
    assert_eq!(
        LauncherRepository::java_executable_in("/launcher/java_runtime"),
        "/launcher/java_runtime/jdk-21.0.2+13/Contents/Home/bin/java"
    );
    assert_eq!(
        LauncherRepository::java_archive_temp_path("/launcher/java_runtime"),
        "/launcher/java_runtime/../java_temp.tar.gz"
    );
}

#[test]
fn error_messages() {
    assert_eq!(
        LaunchError::UnsupportedPlatform.message(),
        "unsupported operating system"
    );
    assert_eq!(
        LaunchError::ResolutionError.message(),
        "no source available for a required download"
    );
    assert_eq!(
        LaunchError::NetworkError(String::from("timed out")).message(),
        "network error: timed out"
    );
    assert_eq!(
        LaunchError::FilesystemError(String::from("denied")).message(),
        "filesystem error: denied"
    );
    assert_eq!(
        LaunchError::ParseError(String::from("bad json")).message(),
        "could not parse version metadata: bad json"
    );
    assert_eq!(
        LaunchError::ArchiveError(String::from("truncated")).message(),
        "could not unpack runtime archive: truncated"
    );
}
