//! The target validator: which target triples are buildable from a given
//! host.  The allow-list is a pure function of the host descriptor; the
//! build orchestrator rejects any triple outside it before touching the
//! filesystem or spawning a process.

use vstd::prelude::*;
use crate::host::{HostArch, HostOs};
use crate::strkit::str_eq;

verus! {

/// The fixed Android cross-target set, in its published order.
pub open spec fn spec_android_targets() -> Seq<Seq<char>> {
    seq![
        "aarch64-linux-android"@,
        "armv7-linux-androideabi"@,
        "x86_64-linux-android"@,
        "i686-linux-android"@,
    ]
}

/// The Apple desktop and iOS triples buildable from a macOS host.
pub open spec fn spec_apple_targets() -> Seq<Seq<char>> {
    seq![
        "aarch64-apple-darwin"@,
        "x86_64-apple-darwin"@,
        "aarch64-apple-ios"@,
        "aarch64-apple-ios-sim"@,
        "x86_64-apple-ios"@,
    ]
}

/// The allow-list: every target triple buildable from the given host.
///
/// macOS hosts (any architecture) build all Apple triples and the Android
/// set; x86_64 Linux and Windows hosts build their own triple and the
/// Android set; aarch64 Linux and Windows hosts build only their own
/// triple; every other host builds nothing.
pub open spec fn spec_allowed_targets(os: HostOs, arch: HostArch) -> Seq<Seq<char>> {
    match os {
        HostOs::MacOs => spec_apple_targets() + spec_android_targets(),
        HostOs::Linux => match arch {
            HostArch::X86_64 => seq!["x86_64-unknown-linux-gnu"@] + spec_android_targets(),
            HostArch::Aarch64 => seq!["aarch64-unknown-linux-gnu"@],
            HostArch::Other => Seq::empty(),
        },
        HostOs::Windows => match arch {
            HostArch::X86_64 => seq!["x86_64-pc-windows-msvc"@] + spec_android_targets(),
            HostArch::Aarch64 => seq!["aarch64-pc-windows-msvc"@],
            HostArch::Other => Seq::empty(),
        },
        HostOs::Other => Seq::empty(),
    }
}

/// The fixed four-element Android cross-target list.
pub fn androd_targets() -> (v: Vec<&'static str>)
    ensures
        v.deep_view() =~= spec_android_targets(),
{
    let mut v: Vec<&'static str> = Vec::new();
    v.push("aarch64-linux-android");
    v.push("armv7-linux-androideabi");
    v.push("x86_64-linux-android");
    v.push("i686-linux-android");
    proof {
        assert(v.deep_view() =~= spec_android_targets());
    }
    v
}

/// The allow-list of target triples buildable from the given host.
pub fn allowed_targets_for_host(host_os: HostOs, host_arch: HostArch) -> (v: Vec<&'static str>)
    ensures
        v.deep_view() =~= spec_allowed_targets(host_os, host_arch),
{
    let mut v: Vec<&'static str> = Vec::new();
    match host_os {
        HostOs::MacOs => {
            v.push("aarch64-apple-darwin");
            v.push("x86_64-apple-darwin");
            v.push("aarch64-apple-ios");
            v.push("aarch64-apple-ios-sim");
            v.push("x86_64-apple-ios");
            let mut android = androd_targets();
            v.append(&mut android);
        },
        HostOs::Linux => {
            match host_arch {
                HostArch::X86_64 => {
                    v.push("x86_64-unknown-linux-gnu");
                    let mut android = androd_targets();
                    v.append(&mut android);
                },
                HostArch::Aarch64 => {
                    v.push("aarch64-unknown-linux-gnu");
                },
                HostArch::Other => {},
            }
        },
        HostOs::Windows => {
            match host_arch {
                HostArch::X86_64 => {
                    v.push("x86_64-pc-windows-msvc");
                    let mut android = androd_targets();
                    v.append(&mut android);
                },
                HostArch::Aarch64 => {
                    v.push("aarch64-pc-windows-msvc");
                },
                HostArch::Other => {},
            }
        },
        HostOs::Other => {},
    }
    proof {
        assert(v.deep_view() =~= spec_allowed_targets(host_os, host_arch));
    }
    v
}

/// Whether the triple is in the host's allow-list.
pub fn is_allowed_target(target: &str, host_os: HostOs, host_arch: HostArch) -> (r: bool)
    ensures
        r == spec_allowed_targets(host_os, host_arch).contains(target@),
{
    let allowed = allowed_targets_for_host(host_os, host_arch);
    let n = allowed.len();
    let mut i: usize = 0;
    while i < n
        invariant
            0 <= i <= n,
            n == allowed@.len(),
            allowed.deep_view() =~= spec_allowed_targets(host_os, host_arch),
            forall|k: int| 0 <= k < i ==> spec_allowed_targets(host_os, host_arch)[k] != target@,
        decreases n - i,
    {
        if str_eq(allowed[i], target) {
            proof {
                assert(allowed.deep_view()[i as int] == allowed@[i as int]@);
                assert(spec_allowed_targets(host_os, host_arch).contains(target@));
            }
            return true;
        }
        i = i + 1;
    }
    assert(!spec_allowed_targets(host_os, host_arch).contains(target@));
    false
}

} // verus!
