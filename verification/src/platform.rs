//! Platform matching: decides whether a declared OS or architecture
//! identifier matches the environment the launcher runs on. The running
//! platform is passed in explicitly as a [`Platform`] value so that matching
//! stays a pure function.

use vstd::prelude::*;

use crate::text::str_eq;

verus! {

/// Operating-system identifiers that a rule may declare.
#[derive(Debug, Clone, Copy)]
pub enum OSName {
    Windows,
    Linux,
    MacOS,
}

/// CPU-architecture identifiers that a rule may declare. The single `X86`
/// identifier covers both 32- and 64-bit x86 runtimes.
#[derive(Debug, Clone, Copy)]
pub enum Arch {
    X86,
}

/// The optional OS/architecture constraint pair of a rule; each side is
/// individually optional.
#[derive(Debug)]
pub struct OS {
    pub name: Option<OSName>,
    pub arch: Option<Arch>,
}

/// The environment the launcher runs on: the operating-system and
/// CPU-architecture names, as the process reports them (for example
/// `"linux"` and `"x86_64"`). Read once at startup and passed in explicitly.
#[derive(Debug)]
pub struct Platform {
    pub os: String,
    pub arch: String,
}

/// A declared OS identifier matches exactly the corresponding environment
/// OS name; any unrecognized environment name matches nothing.
pub open spec fn spec_matches_os_name(env_os: Seq<char>, name: OSName) -> bool {
    match name {
        OSName::Linux => env_os == "linux"@,
        OSName::Windows => env_os == "windows"@,
        OSName::MacOS => env_os == "macos"@,
    }
}

/// The `X86` identifier matches both x86 runtimes; any other environment
/// architecture matches nothing.
pub open spec fn spec_matches_arch(env_arch: Seq<char>, arch: Arch) -> bool {
    match arch {
        Arch::X86 => env_arch == "x86"@ || env_arch == "x86_64"@,
    }
}

impl Platform {
    /// Does the declared OS identifier match this platform's OS?
    pub fn matches_os_name(&self, name: OSName) -> (r: bool)
        ensures
            r == spec_matches_os_name(self.os@, name),
    {
        match name {
            OSName::Linux => str_eq(self.os.as_str(), "linux"),
            OSName::Windows => str_eq(self.os.as_str(), "windows"),
            OSName::MacOS => str_eq(self.os.as_str(), "macos"),
        }
    }

    /// Does the declared architecture identifier match this platform's
    /// architecture?
    pub fn matches_arch(&self, arch: Arch) -> (r: bool)
        ensures
            r == spec_matches_arch(self.arch@, arch),
    {
        match arch {
            Arch::X86 => {
                str_eq(self.arch.as_str(), "x86") || str_eq(self.arch.as_str(), "x86_64")
            },
        }
    }
}

} // verus!
