//! The option compiler: the ordered list of configuration options handed to
//! the native build tool for a validated target triple.  The list is a fixed
//! common prefix (static output, no tests) followed by a family-specific
//! suffix, keyed by which platform marker the triple contains: Apple, then
//! Android, then Windows, else native Linux.

use vstd::prelude::*;
use crate::error::BuildError;
use crate::host::{HostArch, HostOs};
use crate::paths::{spec_join_path, join_path};
use crate::strkit::{contains_seq, token_before, str_contains, str_eq, find_first};

verus! {

/// The fixed common prefix: no shared library, no internal test suite.
pub open spec fn spec_common_options() -> Seq<Seq<char>> {
    seq!["-DPNG_SHARED=OFF"@, "-DPNG_TESTS=OFF"@]
}

/// The architecture-select option for an Apple triple, keyed by the triple's
/// leading architecture token; `None` when the token is not a recognized
/// Apple architecture.
pub open spec fn spec_apple_arch_option(t: Seq<char>) -> Option<Seq<char>> {
    if token_before(t, '-') == "aarch64"@ {
        Some("-DCMAKE_OSX_ARCHITECTURES=arm64"@)
    } else if token_before(t, '-') == "x86_64"@ {
        Some("-DCMAKE_OSX_ARCHITECTURES=x86_64"@)
    } else {
        None
    }
}

/// The two triples that denote an iOS simulator build.  The x86_64 iOS
/// triple counts by convention: there is no x86_64 iOS hardware.
pub open spec fn spec_is_simulator_triple(t: Seq<char>) -> bool {
    t == "aarch64-apple-ios-sim"@ || t == "x86_64-apple-ios"@
}

/// The option suffix for an Apple-family triple: architecture select and
/// no-framework always; the iOS system name for iOS triples; the simulator
/// sysroot for the two simulator triples.
pub open spec fn spec_apple_options(t: Seq<char>) -> Option<Seq<Seq<char>>> {
    match spec_apple_arch_option(t) {
        None => None,
        Some(arch_opt) => Some(
            seq![arch_opt, "-DPNG_FRAMEWORK=OFF"@] + (if contains_seq(t, "ios"@) {
                seq!["-DCMAKE_SYSTEM_NAME=iOS"@]
            } else {
                Seq::empty()
            }) + (if spec_is_simulator_triple(t) {
                seq!["-DCMAKE_OSX_SYSROOT=iphonesimulator"@]
            } else {
                Seq::empty()
            }),
        ),
    }
}

/// The ABI-select option for an Android triple, by the fixed triple-to-ABI
/// table; `None` for any other triple under the Android family.
pub open spec fn spec_android_abi_option(t: Seq<char>) -> Option<Seq<char>> {
    if t == "armv7-linux-androideabi"@ {
        Some("-DCMAKE_ANDROID_ARCH_ABI=armeabi-v7a"@)
    } else if t == "aarch64-linux-android"@ {
        Some("-DCMAKE_ANDROID_ARCH_ABI=arm64-v8a"@)
    } else if t == "i686-linux-android"@ {
        Some("-DCMAKE_ANDROID_ARCH_ABI=x86"@)
    } else if t == "x86_64-linux-android"@ {
        Some("-DCMAKE_ANDROID_ARCH_ABI=x86_64"@)
    } else {
        None
    }
}

/// The option suffix for an Android-family triple: the Android system name
/// and the ABI select; on a Windows host additionally the option forcing
/// feature-probe compilations to build static libraries.
pub open spec fn spec_android_options(t: Seq<char>, host_os: HostOs) -> Option<Seq<Seq<char>>> {
    match spec_android_abi_option(t) {
        None => None,
        Some(abi_opt) => Some(
            seq!["-DCMAKE_SYSTEM_NAME=Android"@, abi_opt] + (if host_os == HostOs::Windows {
                seq!["-DCMAKE_TRY_COMPILE_TARGET_TYPE=STATIC_LIBRARY"@]
            } else {
                Seq::empty()
            }),
        ),
    }
}

/// The option suffix for a Windows-family triple: the vendored zlib include
/// directory and import library, resolved under the package's own install
/// location.
pub open spec fn spec_windows_options(manifest_dir: Seq<char>) -> Seq<Seq<char>> {
    let include_dir = spec_join_path(manifest_dir, "win-zlib-include"@);
    seq![
        "-DZLIB_INCLUDE_DIR="@ + include_dir,
        "-DZLIB_LIBRARY="@ + spec_join_path(include_dir, "zlib.lib"@),
    ]
}

/// The family-specific option suffix for a triple, or `None` when the triple
/// belongs to a recognized family but its architecture is not recognized
/// there.
pub open spec fn spec_target_options(t: Seq<char>, host_os: HostOs, manifest_dir: Seq<char>)
    -> Option<Seq<Seq<char>>> {
    if contains_seq(t, "apple"@) {
        spec_apple_options(t)
    } else if contains_seq(t, "android"@) {
        spec_android_options(t, host_os)
    } else if contains_seq(t, "windows"@) {
        Some(spec_windows_options(manifest_dir))
    } else {
        Some(Seq::empty())
    }
}

/// The full option list for a triple: common prefix plus family suffix.
pub open spec fn spec_cmake_options(t: Seq<char>, host_os: HostOs, manifest_dir: Seq<char>)
    -> Option<Seq<Seq<char>>> {
    match spec_target_options(t, host_os, manifest_dir) {
        None => None,
        Some(suffix) => Some(spec_common_options() + suffix),
    }
}

/// The common options, as runtime values.
pub fn common_cmake_options() -> (v: Vec<String>)
    ensures
        v.deep_view() =~~= spec_common_options(),
{
    let mut v: Vec<String> = Vec::new();
    v.push(String::from_str("-DPNG_SHARED=OFF"));
    v.push(String::from_str("-DPNG_TESTS=OFF"));
    proof {
        assert(v.deep_view() =~~= spec_common_options());
    }
    v
}

/// Options for an Apple-family triple; fails when the leading architecture
/// token is neither `aarch64` nor `x86_64`.  The host descriptor is carried
/// only into the failure report.
pub fn apple_specific_cmake_options(target_str: &str, host_os: HostOs, host_arch: HostArch) -> (r:
    Result<Vec<String>, BuildError>)
    ensures
        r is Ok <==> spec_apple_options(target_str@) is Some,
        r matches Ok(v) ==> spec_apple_options(target_str@) matches Some(opts) && v.deep_view()
            =~~= opts,
        r matches Err(e) ==> e matches BuildError::UnsupportedTarget {
            target: t,
            host_os: o,
            host_arch: a,
        } && t@ == target_str@ && o == host_os && a == host_arch,
{
    let d = find_first(target_str, '-');
    let arch_token = target_str.substring_char(0, d);
    let arch_opt: &'static str = if str_eq(arch_token, "aarch64") {
        "-DCMAKE_OSX_ARCHITECTURES=arm64"
    } else if str_eq(arch_token, "x86_64") {
        "-DCMAKE_OSX_ARCHITECTURES=x86_64"
    } else {
        return Err(BuildError::unsupported_target(target_str, host_os, host_arch));
    };
    let mut v: Vec<String> = Vec::new();
    v.push(String::from_str(arch_opt));
    v.push(String::from_str("-DPNG_FRAMEWORK=OFF"));
    if str_contains(target_str, "ios") {
        v.push(String::from_str("-DCMAKE_SYSTEM_NAME=iOS"));
    }
    if str_eq(target_str, "aarch64-apple-ios-sim") || str_eq(target_str, "x86_64-apple-ios") {
        v.push(String::from_str("-DCMAKE_OSX_SYSROOT=iphonesimulator"));
    }
    proof {
        assert(spec_apple_options(target_str@) matches Some(opts) && v.deep_view() =~~= opts);
    }
    Ok(v)
}

/// Options for an Android-family triple; fails for any triple outside the
/// fixed four-entry ABI table.  The host operating system decides the
/// static-probe option; the host descriptor is also carried into the
/// failure report.
pub fn androdid_specific_cmake_options(
    target_str: &str,
    host_os: HostOs,
    host_arch: HostArch,
) -> (r: Result<Vec<String>, BuildError>)
    ensures
        r is Ok <==> spec_android_options(target_str@, host_os) is Some,
        r matches Ok(v) ==> spec_android_options(target_str@, host_os) matches Some(opts)
            && v.deep_view() =~~= opts,
        r matches Err(e) ==> e matches BuildError::UnsupportedTarget {
            target: t,
            host_os: o,
            host_arch: a,
        } && t@ == target_str@ && o == host_os && a == host_arch,
{
    let abi_opt: &'static str = if str_eq(target_str, "armv7-linux-androideabi") {
        "-DCMAKE_ANDROID_ARCH_ABI=armeabi-v7a"
    } else if str_eq(target_str, "aarch64-linux-android") {
        "-DCMAKE_ANDROID_ARCH_ABI=arm64-v8a"
    } else if str_eq(target_str, "i686-linux-android") {
        "-DCMAKE_ANDROID_ARCH_ABI=x86"
    } else if str_eq(target_str, "x86_64-linux-android") {
        "-DCMAKE_ANDROID_ARCH_ABI=x86_64"
    } else {
        return Err(BuildError::unsupported_target(target_str, host_os, host_arch));
    };
    let mut v: Vec<String> = Vec::new();
    v.push(String::from_str("-DCMAKE_SYSTEM_NAME=Android"));
    v.push(String::from_str(abi_opt));
    if matches!(host_os, HostOs::Windows) {
        v.push(String::from_str("-DCMAKE_TRY_COMPILE_TARGET_TYPE=STATIC_LIBRARY"));
    }
    proof {
        assert(spec_android_options(target_str@, host_os) matches Some(opts) && v.deep_view()
            =~~= opts);
    }
    Ok(v)
}

/// Options for a Windows-family triple: the vendored zlib locations.  Never
/// fails; the `Result` keeps the family compilers uniform.
pub fn windows_specific_cmake_options(manifest_dir: &str) -> (r: Result<Vec<String>, BuildError>)
    ensures
        r matches Ok(v) && v.deep_view() =~~= spec_windows_options(manifest_dir@),
{
    let include_dir = join_path(manifest_dir, "win-zlib-include");
    let lib_path = join_path(include_dir.as_str(), "zlib.lib");
    let mut v: Vec<String> = Vec::new();
    v.push(String::from_str("-DZLIB_INCLUDE_DIR=").concat(include_dir.as_str()));
    v.push(String::from_str("-DZLIB_LIBRARY=").concat(lib_path.as_str()));
    proof {
        assert(v.deep_view() =~~= spec_windows_options(manifest_dir@));
    }
    Ok(v)
}

/// The family-specific option suffix for a triple, dispatching on which
/// platform marker the triple contains.
pub fn target_specific_cmake_options(
    target_str: &str,
    host_os: HostOs,
    host_arch: HostArch,
    manifest_dir: &str,
) -> (r: Result<Vec<String>, BuildError>)
    ensures
        r is Ok <==> spec_target_options(target_str@, host_os, manifest_dir@) is Some,
        r matches Ok(v) ==> spec_target_options(target_str@, host_os, manifest_dir@) matches
            Some(opts) && v.deep_view() =~~= opts,
        r matches Err(e) ==> e matches BuildError::UnsupportedTarget {
            target: t,
            host_os: o,
            host_arch: a,
        } && t@ == target_str@ && o == host_os && a == host_arch,
{
    if str_contains(target_str, "apple") {
        apple_specific_cmake_options(target_str, host_os, host_arch)
    } else if str_contains(target_str, "android") {
        androdid_specific_cmake_options(target_str, host_os, host_arch)
    } else if str_contains(target_str, "windows") {
        windows_specific_cmake_options(manifest_dir)
    } else {
        let v: Vec<String> = Vec::new();
        proof {
            assert(v.deep_view() =~~= Seq::<Seq<char>>::empty());
        }
        Ok(v)
    }
}

/// The full option list for a triple: the common prefix followed by the
/// family-specific suffix.
pub fn cmake_options(
    target_str: &str,
    host_os: HostOs,
    host_arch: HostArch,
    manifest_dir: &str,
) -> (r: Result<Vec<String>, BuildError>)
    ensures
        r is Ok <==> spec_cmake_options(target_str@, host_os, manifest_dir@) is Some,
        r matches Ok(v) ==> spec_cmake_options(target_str@, host_os, manifest_dir@) matches
            Some(opts) && v.deep_view() =~~= opts,
        r matches Err(e) ==> e matches BuildError::UnsupportedTarget {
            target: t,
            host_os: o,
            host_arch: a,
        } && t@ == target_str@ && o == host_os && a == host_arch,
{
    let mut options = common_cmake_options();
    match target_specific_cmake_options(target_str, host_os, host_arch, manifest_dir) {
        Ok(mut suffix) => {
            options.append(&mut suffix);
            proof {
                assert(spec_cmake_options(target_str@, host_os, manifest_dir@) matches Some(opts)
                    && options.deep_view() =~~= opts);
            }
            Ok(options)
        },
        Err(e) => Err(e),
    }
}

} // verus!
