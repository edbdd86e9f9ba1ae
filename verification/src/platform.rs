use vstd::prelude::*;

verus! {

/// The operating system the launcher is running on. Detected by the
/// surrounding application and handed in; every platform-conditional
/// decision in this crate is a pure function of this value.
#[derive(Clone, Copy, Debug, PartialEq, Eq, Structural)]
pub enum Platform {
    Macos,
    Windows,
    Linux,
}

/// The processor architecture, used only to pick a runtime download URL.
#[derive(Clone, Copy, Debug, PartialEq, Eq, Structural)]
pub enum Arch {
    X86_64,
    Aarch64,
    Other,
}

impl Platform {
    /// The OS name that library rules in version metadata use to refer to
    /// this platform.
    pub open spec fn spec_rule_name(self) -> Seq<char> {
        match self {
            Platform::Macos => "osx"@,
            Platform::Windows => "windows"@,
            Platform::Linux => "linux"@,
        }
    }

    /// The name this platform goes by in library rules.
    pub fn rule_name(self) -> (r: &'static str)
        ensures
            r@ == self.spec_rule_name(),
    {
        match self {
            Platform::Macos => "osx",
            Platform::Windows => "windows",
            Platform::Linux => "linux",
        }
    }

    /// The separator between entries of a classpath list on this platform.
    pub open spec fn spec_classpath_separator(self) -> Seq<char> {
        match self {
            Platform::Windows => ";"@,
            _ => ":"@,
        }
    }

    /// The separator the platform's runtime expects between classpath
    /// entries: `;` on Windows, `:` elsewhere.
    pub fn classpath_separator(self) -> (r: &'static str)
        ensures
            r@ == self.spec_classpath_separator(),
    {
        match self {
            Platform::Windows => ";",
            _ => ":",
        }
    }
}

} // verus!
