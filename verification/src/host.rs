//! The host descriptor: the operating system and CPU architecture of the
//! machine that runs the build.  The pair is read once from the environment
//! by the caller and handed in as plain values.

use vstd::prelude::*;
use crate::strkit::str_eq;

verus! {

/// Operating system of the build machine.  `Other` stands for any system
/// outside the support table; no target is buildable from such a host.
#[derive(Clone, Copy, PartialEq, Eq, Structural, Debug)]
pub enum HostOs {
    Linux,
    MacOs,
    Windows,
    Other,
}

/// CPU architecture of the build machine.  `Other` stands for any
/// architecture outside the support table.
#[derive(Clone, Copy, PartialEq, Eq, Structural, Debug)]
pub enum HostArch {
    X86_64,
    Aarch64,
    Other,
}

/// The `HostOs` denoted by an operating-system name as the environment
/// reports it.
pub open spec fn spec_host_os(s: Seq<char>) -> HostOs {
    if s == "linux"@ {
        HostOs::Linux
    } else if s == "macos"@ {
        HostOs::MacOs
    } else if s == "windows"@ {
        HostOs::Windows
    } else {
        HostOs::Other
    }
}

/// The `HostArch` denoted by an architecture name as the environment
/// reports it.
pub open spec fn spec_host_arch(s: Seq<char>) -> HostArch {
    if s == "x86_64"@ {
        HostArch::X86_64
    } else if s == "aarch64"@ {
        HostArch::Aarch64
    } else {
        HostArch::Other
    }
}

/// Classifies an operating-system name, e.g. the value of
/// `std::env::consts::OS`.
pub fn parse_host_os(s: &str) -> (os: HostOs)
    ensures
        os == spec_host_os(s@),
{
    if str_eq(s, "linux") {
        HostOs::Linux
    } else if str_eq(s, "macos") {
        HostOs::MacOs
    } else if str_eq(s, "windows") {
        HostOs::Windows
    } else {
        HostOs::Other
    }
}

/// Classifies an architecture name, e.g. the value of
/// `std::env::consts::ARCH`.
pub fn parse_host_arch(s: &str) -> (arch: HostArch)
    ensures
        arch == spec_host_arch(s@),
{
    if str_eq(s, "x86_64") {
        HostArch::X86_64
    } else if str_eq(s, "aarch64") {
        HostArch::Aarch64
    } else {
        HostArch::Other
    }
}

/// Canonical name of a host operating system, used in diagnostics.
pub open spec fn spec_host_os_name(os: HostOs) -> Seq<char> {
    match os {
        HostOs::Linux => "linux"@,
        HostOs::MacOs => "macos"@,
        HostOs::Windows => "windows"@,
        HostOs::Other => "unknown"@,
    }
}

/// Canonical name of a host architecture, used in diagnostics.
pub open spec fn spec_host_arch_name(arch: HostArch) -> Seq<char> {
    match arch {
        HostArch::X86_64 => "x86_64"@,
        HostArch::Aarch64 => "aarch64"@,
        HostArch::Other => "unknown"@,
    }
}

/// Renders the host operating system for diagnostics.
pub fn host_os_name(os: HostOs) -> (r: &'static str)
    ensures
        r@ == spec_host_os_name(os),
{
    match os {
        HostOs::Linux => "linux",
        HostOs::MacOs => "macos",
        HostOs::Windows => "windows",
        HostOs::Other => "unknown",
    }
}

/// Renders the host architecture for diagnostics.
pub fn host_arch_name(arch: HostArch) -> (r: &'static str)
    ensures
        r@ == spec_host_arch_name(arch),
{
    match arch {
        HostArch::X86_64 => "x86_64",
        HostArch::Aarch64 => "aarch64",
        HostArch::Other => "unknown",
    }
}

} // verus!
