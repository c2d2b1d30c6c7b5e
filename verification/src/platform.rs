//! The two facts about the machine that the shell's decisions depend on: how
//! the application was built and which family of operating system runs it.

use vstd::prelude::*;
use crate::text::same_text;

verus! {

/// How the application was built.
#[derive(Clone, Copy, Debug, PartialEq, Eq, Structural)]
pub enum BuildMode {
    /// A developer's build, run from inside the project tree.
    Development,
    /// A packaged build, run from its installation.
    Production,
}

/// The family of the operating system, as far as the shell tells systems
/// apart.
#[derive(Clone, Copy, Debug, PartialEq, Eq, Structural)]
pub enum OsFamily {
    Windows,
    MacOs,
    /// Every other system; they are taken to be Unix-like.
    Unix,
}

/// The family that an operating system identifier names: `windows` and
/// `macos` name their own, every other identifier a Unix-like system.
pub open spec fn os_family_of(identifier: Seq<char>) -> OsFamily {
    if identifier == "windows"@ {
        OsFamily::Windows
    } else if identifier == "macos"@ {
        OsFamily::MacOs
    } else {
        OsFamily::Unix
    }
}

impl BuildMode {
    /// The build mode that the build's debug flag stands for.
    pub fn from_debug_flag(debug: bool) -> (mode: BuildMode)
        ensures
            mode == (if debug {
                BuildMode::Development
            } else {
                BuildMode::Production
            }),
    {
        if debug {
            BuildMode::Development
        } else {
            BuildMode::Production
        }
    }
}

impl OsFamily {
    /// Reads an operating system identifier, in the spelling of
    /// `std::env::consts::OS`.
    pub fn from_identifier(identifier: &str) -> (family: OsFamily)
        ensures
            family == os_family_of(identifier@),
    {
        if same_text(identifier, "windows") {
            OsFamily::Windows
        } else if same_text(identifier, "macos") {
            OsFamily::MacOs
        } else {
            OsFamily::Unix
        }
    }
}

} // verus!
