//! Dependency repository decisions: which runtime archive fits the
//! platform, whether a library's rules include it, and where the runtime
//! executable is expected on disk. The downloads and the archive extraction
//! themselves are I/O and live outside this crate; everything here is a
//! pure function of its arguments.

use crate::error::LaunchError;
use crate::model::{lib_included, rule_vetoes, Library};
use crate::platform::{Arch, Platform};
use vstd::prelude::*;

verus! {

/// The fixed path of the runtime executable inside an extracted runtime
/// installation. Tied to the provisioned runtime version: if the archive
/// layout changes, this changes with it.
pub open spec fn spec_runtime_relative_path() -> Seq<char> {
    "jdk-21.0.2+13/Contents/Home/bin/java"@
}

pub struct LauncherRepository {}

impl LauncherRepository {
    /// The runtime archive URL for this OS and architecture. The table is a
    /// finite enumerated mapping; any combination outside it fails with
    /// `UnsupportedPlatform`.
    pub fn get_java_download_url(platform: Platform, arch: Arch) -> (r: Result<
        &'static str,
        LaunchError,
    >)
        ensures
            match (platform, arch) {
                (Platform::Macos, Arch::Aarch64) => r matches Ok(u) && u@ == "https://github.com/adoptium/temurin21-binaries/releases/download/jdk-21.0.2%2B13/OpenJDK21U-jdk_aarch64_mac_hotspot_21.0.2_13.tar.gz"@,
                (Platform::Macos, Arch::X86_64) => r matches Ok(u) && u@ == "https://github.com/adoptium/temurin21-binaries/releases/download/jdk-21.0.2%2B13/OpenJDK21U-jdk_x64_mac_hotspot_21.0.2_13.tar.gz"@,
                (Platform::Windows, _) => r matches Ok(u) && u@ == "https://github.com/adoptium/temurin21-binaries/releases/download/jdk-21.0.2%2B13/OpenJDK21U-jdk_x64_windows_hotspot_21.0.2_13.zip"@,
                (Platform::Linux, Arch::X86_64) => r matches Ok(u) && u@ == "https://github.com/adoptium/temurin21-binaries/releases/download/jdk-21.0.2%2B13/OpenJDK21U-jdk_x64_linux_hotspot_21.0.2_13.tar.gz"@,
                _ => r matches Err(LaunchError::UnsupportedPlatform),
            },
    {
        match (platform, arch) {
            (Platform::Macos, Arch::Aarch64) => Ok(
                "https://github.com/adoptium/temurin21-binaries/releases/download/jdk-21.0.2%2B13/OpenJDK21U-jdk_aarch64_mac_hotspot_21.0.2_13.tar.gz",
            ),
            (Platform::Macos, Arch::X86_64) => Ok(
                "https://github.com/adoptium/temurin21-binaries/releases/download/jdk-21.0.2%2B13/OpenJDK21U-jdk_x64_mac_hotspot_21.0.2_13.tar.gz",
            ),
            (Platform::Windows, _) => Ok(
                "https://github.com/adoptium/temurin21-binaries/releases/download/jdk-21.0.2%2B13/OpenJDK21U-jdk_x64_windows_hotspot_21.0.2_13.zip",
            ),
            (Platform::Linux, Arch::X86_64) => Ok(
                "https://github.com/adoptium/temurin21-binaries/releases/download/jdk-21.0.2%2B13/OpenJDK21U-jdk_x64_linux_hotspot_21.0.2_13.tar.gz",
            ),
            _ => Err(LaunchError::UnsupportedPlatform),
        }
    }

    /// Evaluates the library's rule list against the running platform. An
    /// absent rule list always includes; a non-empty list is scanned and
    /// any `allow` rule naming another OS excludes the library at once.
    pub fn should_download_lib(lib: &Library, platform: Platform) -> (r: bool)
        ensures
            r == lib_included(*lib, platform),
    {
        let platform_name = String::from_str(platform.rule_name());
        let allow = String::from_str("allow");
        if let Some(rules) = &lib.rules {
            let mut i: usize = 0;
            while i < rules.len()
                invariant
                    i <= rules@.len(),
                    lib.rules == Some(*rules),
                    platform_name@ == platform.spec_rule_name(),
                    allow@ == "allow"@,
                    forall|j: int| 0 <= j < i ==> !rule_vetoes(#[trigger] rules@[j], platform),
                decreases rules@.len() - i,
            {
                let rule = &rules[i];
                if let Some(os) = &rule.os {
                    if !(os.name == platform_name) && rule.action == allow {
                        proof {
                            assert(rule_vetoes(lib.rules->Some_0@[i as int], platform));
                        }
                        return false;
                    }
                }
                i = i + 1;
            }
            true
        } else {
            true
        }
    }

    /// The expected runtime executable path under `current_dir/java_runtime`.
    /// Existence is not checked here: the caller probes the returned path
    /// and provisions a runtime only when it is absent.
    pub fn find_java(current_dir: &str) -> (r: String)
        ensures
            r@ == current_dir@ + "/java_runtime/"@ + spec_runtime_relative_path(),
    {
        String::from_str(current_dir).concat("/java_runtime/").concat(
            "jdk-21.0.2+13/Contents/Home/bin/java",
        )
    }

    /// The runtime executable path inside an installation at `install_dir`.
    pub fn java_executable_in(install_dir: &str) -> (r: String)
        ensures
            r@ == install_dir@ + "/"@ + spec_runtime_relative_path(),
    {
        String::from_str(install_dir).concat("/").concat("jdk-21.0.2+13/Contents/Home/bin/java")
    }

    /// Where the downloaded runtime archive is parked before extraction:
    /// a temporary file beside the installation directory.
    pub fn java_archive_temp_path(install_dir: &str) -> (r: String)
        ensures
            r@ == install_dir@ + "/../java_temp.tar.gz"@,
    {
        String::from_str(install_dir).concat("/../java_temp.tar.gz")
    }
}

} // verus!
