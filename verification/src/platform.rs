//! The operating system a manifest is installed on.

use platforms::target::{OS, TARGET_OS};
use vstd::prelude::*;

verus! {

/// The families of operating systems that share one convention for where
/// manifests lie.
#[derive(Debug, Clone, Copy, PartialEq, Eq, Hash, Structural)]
pub enum OsFamily {
    /// Linux, OpenBSD and FreeBSD: dotfile directories under the home
    /// directory.
    LinuxBsd,
    /// macOS: the user's `Library` tree.
    MacOs,
    /// Windows: the user's `AppData` tree, together with a registry key.
    Windows,
    /// Every other system. No convention is known for it.
    Other,
}

/// An operating system, as far as the lookup tells systems apart.
#[derive(Debug)]
pub enum OperatingSystem {
    Linux,
    OpenBsd,
    FreeBsd,
    MacOs,
    Windows,
    /// A system without a known convention, with the name it goes by in
    /// `cfg(target_os)`, such as `android`.
    Other(String),
}

impl OperatingSystem {
    /// The family that the system belongs to.
    pub open spec fn family_spec(self) -> OsFamily {
        match self {
            OperatingSystem::Linux | OperatingSystem::OpenBsd | OperatingSystem::FreeBsd => {
                OsFamily::LinuxBsd
            },
            OperatingSystem::MacOs => OsFamily::MacOs,
            OperatingSystem::Windows => OsFamily::Windows,
            OperatingSystem::Other(_) => OsFamily::Other,
        }
    }

    /// The family that the system belongs to.
    pub fn family(&self) -> (family: OsFamily)
        ensures
            family == self.family_spec(),
    {
        match self {
            OperatingSystem::Linux | OperatingSystem::OpenBsd | OperatingSystem::FreeBsd => {
                OsFamily::LinuxBsd
            },
            OperatingSystem::MacOs => OsFamily::MacOs,
            OperatingSystem::Windows => OsFamily::Windows,
            OperatingSystem::Other(_) => OsFamily::Other,
        }
    }
}

impl Clone for OperatingSystem {
    fn clone(&self) -> (copy: Self)
        ensures
            copy == *self,
    {
        match self {
            OperatingSystem::Linux => OperatingSystem::Linux,
            OperatingSystem::OpenBsd => OperatingSystem::OpenBsd,
            OperatingSystem::FreeBsd => OperatingSystem::FreeBsd,
            OperatingSystem::MacOs => OperatingSystem::MacOs,
            OperatingSystem::Windows => OperatingSystem::Windows,
            OperatingSystem::Other(name) => OperatingSystem::Other(name.clone()),
        }
    }
}

/// The operating system that this crate was built for.
///
/// Reads `platforms::target::TARGET_OS`, a constant that the `platforms`
/// crate sets from `cfg(target_os)` when it is compiled, and tells its
/// variants apart. A system other than the five named ones comes back as
/// `Other` with the text of `OS::as_str`, which is also what `OS` displays
/// as. Nothing is claimed of the result: it differs from build to build.
#[verifier::external_body]
pub(crate) fn target_os() -> OperatingSystem {
    match TARGET_OS {
        OS::Linux => OperatingSystem::Linux,
        OS::OpenBSD => OperatingSystem::OpenBsd,
        OS::FreeBSD => OperatingSystem::FreeBsd,
        OS::MacOS => OperatingSystem::MacOs,
        OS::Windows => OperatingSystem::Windows,
        other => OperatingSystem::Other(other.as_str().to_string()),
    }
}

} // verus!
