//! The launcher's user preferences. Loading and persisting them is I/O and
//! lives outside this crate; the defaults below are what a fresh install
//! starts from.

use vstd::prelude::*;

verus! {

/// User preferences: memory allocation, runtime path, UI language and
/// theme, and the root directory the launcher caches everything under.
pub struct AppConfig {
    pub allocated_ram: u32,
    pub java_path: String,
    pub language: String,
    pub theme: String,
    pub minecraft_root_dir: String,
}

impl Default for AppConfig {
    /// The configuration a fresh install starts from.
    fn default() -> (r: Self)
        ensures
            r.allocated_ram == 4096,
            r.java_path@ == "/usr/bin/java"@,
            r.minecraft_root_dir@ == "~/.minecraft"@,
            r.language@ == "English"@,
            r.theme@ == "TokyoNight"@,
    {
        AppConfig {
            allocated_ram: 4096,
            java_path: String::from_str("/usr/bin/java"),
            minecraft_root_dir: String::from_str("~/.minecraft"),
            language: String::from_str("English"),
            theme: String::from_str("TokyoNight"),
        }
    }
}

} // verus!
