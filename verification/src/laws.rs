//! Laws of the target tables, stated and proved once for every caller: each
//! triple in a host's allow-list compiles to an option list without error,
//! and the emitted option lists have the documented shape for the Apple and
//! Android families.

use vstd::prelude::*;
use crate::host::{HostArch, HostOs};
use crate::options::{
    spec_android_abi_option, spec_apple_arch_option, spec_cmake_options,
    spec_is_simulator_triple,
};
use crate::strkit::{
    contains_seq, lemma_bigram_not_contains, lemma_contains_from_witness,
    lemma_token_before_prefix,
};
use crate::target::{spec_allowed_targets, spec_android_targets, spec_apple_targets};

verus! {

/// Every triple of the Apple table is Apple-family with a recognized
/// architecture, so its options compile.
proof fn lemma_apple_table_options(t: Seq<char>, host_os: HostOs, manifest_dir: Seq<char>)
    requires
        spec_apple_targets().contains(t),
    ensures
        contains_seq(t, "apple"@),
        spec_cmake_options(t, host_os, manifest_dir) is Some,
{
    reveal_strlit("apple");
    reveal_strlit("aarch64");
    reveal_strlit("x86_64");
    if t == "aarch64-apple-darwin"@ {
        reveal_strlit("aarch64-apple-darwin");
        assert(t.subrange(8, 13) =~= "apple"@);
        lemma_contains_from_witness(t, "apple"@, 0, 8);
        assert(forall|k: int| 0 <= k < 7 ==> t[k] != '-');
        lemma_token_before_prefix(t, '-', 7);
        assert(t.subrange(0, 7) =~= "aarch64"@);
    } else if t == "x86_64-apple-darwin"@ {
        reveal_strlit("x86_64-apple-darwin");
        assert(t.subrange(7, 12) =~= "apple"@);
        lemma_contains_from_witness(t, "apple"@, 0, 7);
        assert(forall|k: int| 0 <= k < 6 ==> t[k] != '-');
        lemma_token_before_prefix(t, '-', 6);
        assert(t.subrange(0, 6) =~= "x86_64"@);
    } else if t == "aarch64-apple-ios"@ {
        reveal_strlit("aarch64-apple-ios");
        assert(t.subrange(8, 13) =~= "apple"@);
        lemma_contains_from_witness(t, "apple"@, 0, 8);
        assert(forall|k: int| 0 <= k < 7 ==> t[k] != '-');
        lemma_token_before_prefix(t, '-', 7);
        assert(t.subrange(0, 7) =~= "aarch64"@);
    } else if t == "aarch64-apple-ios-sim"@ {
        reveal_strlit("aarch64-apple-ios-sim");
        assert(t.subrange(8, 13) =~= "apple"@);
        lemma_contains_from_witness(t, "apple"@, 0, 8);
        assert(forall|k: int| 0 <= k < 7 ==> t[k] != '-');
        lemma_token_before_prefix(t, '-', 7);
        assert(t.subrange(0, 7) =~= "aarch64"@);
    } else {
        assert(t == "x86_64-apple-ios"@);
        reveal_strlit("x86_64-apple-ios");
        assert(t.subrange(7, 12) =~= "apple"@);
        lemma_contains_from_witness(t, "apple"@, 0, 7);
        assert(forall|k: int| 0 <= k < 6 ==> t[k] != '-');
        lemma_token_before_prefix(t, '-', 6);
        assert(t.subrange(0, 6) =~= "x86_64"@);
    }
}

/// Every triple of the Android table is Android-family and not
/// Apple-family, and sits in the ABI table, so its options compile.
proof fn lemma_android_table_options(t: Seq<char>, host_os: HostOs, manifest_dir: Seq<char>)
    requires
        spec_android_targets().contains(t),
    ensures
        contains_seq(t, "android"@),
        !contains_seq(t, "apple"@),
        spec_cmake_options(t, host_os, manifest_dir) is Some,
{
    reveal_strlit("apple");
    reveal_strlit("android");
    if t == "aarch64-linux-android"@ {
        reveal_strlit("aarch64-linux-android");
        assert(t.subrange(14, 21) =~= "android"@);
        lemma_contains_from_witness(t, "android"@, 0, 14);
        assert(forall|k: int|
            0 <= k && k + 5 <= t.len() ==> !(#[trigger] t[k] == 'a' && t[k + 1] == 'p'));
        lemma_bigram_not_contains(t, "apple"@, 0);
    } else if t == "armv7-linux-androideabi"@ {
        reveal_strlit("armv7-linux-androideabi");
        assert(t.subrange(12, 19) =~= "android"@);
        lemma_contains_from_witness(t, "android"@, 0, 12);
        assert(forall|k: int|
            0 <= k && k + 5 <= t.len() ==> !(#[trigger] t[k] == 'a' && t[k + 1] == 'p'));
        lemma_bigram_not_contains(t, "apple"@, 0);
    } else if t == "x86_64-linux-android"@ {
        reveal_strlit("x86_64-linux-android");
        assert(t.subrange(13, 20) =~= "android"@);
        lemma_contains_from_witness(t, "android"@, 0, 13);
        assert(forall|k: int|
            0 <= k && k + 5 <= t.len() ==> !(#[trigger] t[k] == 'a' && t[k + 1] == 'p'));
        lemma_bigram_not_contains(t, "apple"@, 0);
    } else {
        assert(t == "i686-linux-android"@);
        reveal_strlit("i686-linux-android");
        assert(t.subrange(11, 18) =~= "android"@);
        lemma_contains_from_witness(t, "android"@, 0, 11);
        assert(forall|k: int|
            0 <= k && k + 5 <= t.len() ==> !(#[trigger] t[k] == 'a' && t[k + 1] == 'p'));
        lemma_bigram_not_contains(t, "apple"@, 0);
    }
}

/// The two Windows desktop triples are Windows-family and neither Apple
/// nor Android, so their options compile.
proof fn lemma_windows_triple_options(t: Seq<char>, host_os: HostOs, manifest_dir: Seq<char>)
    requires
        t == "x86_64-pc-windows-msvc"@ || t == "aarch64-pc-windows-msvc"@,
    ensures
        contains_seq(t, "windows"@),
        !contains_seq(t, "apple"@),
        !contains_seq(t, "android"@),
        spec_cmake_options(t, host_os, manifest_dir) is Some,
{
    reveal_strlit("apple");
    reveal_strlit("android");
    reveal_strlit("windows");
    if t == "x86_64-pc-windows-msvc"@ {
        reveal_strlit("x86_64-pc-windows-msvc");
        assert(t.subrange(10, 17) =~= "windows"@);
        lemma_contains_from_witness(t, "windows"@, 0, 10);
        assert(forall|k: int|
            0 <= k && k + 5 <= t.len() ==> !(#[trigger] t[k] == 'a' && t[k + 1] == 'p'));
        lemma_bigram_not_contains(t, "apple"@, 0);
        assert(forall|k: int|
            0 <= k && k + 7 <= t.len() ==> !(#[trigger] t[k] == 'a' && t[k + 1] == 'n'));
        lemma_bigram_not_contains(t, "android"@, 0);
    } else {
        reveal_strlit("aarch64-pc-windows-msvc");
        assert(t.subrange(11, 18) =~= "windows"@);
        lemma_contains_from_witness(t, "windows"@, 0, 11);
        assert(forall|k: int|
            0 <= k && k + 5 <= t.len() ==> !(#[trigger] t[k] == 'a' && t[k + 1] == 'p'));
        lemma_bigram_not_contains(t, "apple"@, 0);
        assert(forall|k: int|
            0 <= k && k + 7 <= t.len() ==> !(#[trigger] t[k] == 'a' && t[k + 1] == 'n'));
        lemma_bigram_not_contains(t, "android"@, 0);
    }
}

/// The two Linux desktop triples belong to no marked family, so they take
/// the empty default suffix and their options compile.
proof fn lemma_linux_triple_options(t: Seq<char>, host_os: HostOs, manifest_dir: Seq<char>)
    requires
        t == "x86_64-unknown-linux-gnu"@ || t == "aarch64-unknown-linux-gnu"@,
    ensures
        !contains_seq(t, "apple"@),
        !contains_seq(t, "android"@),
        !contains_seq(t, "windows"@),
        spec_cmake_options(t, host_os, manifest_dir) is Some,
{
    reveal_strlit("apple");
    reveal_strlit("android");
    reveal_strlit("windows");
    if t == "x86_64-unknown-linux-gnu"@ {
        reveal_strlit("x86_64-unknown-linux-gnu");
        assert(forall|k: int|
            0 <= k && k + 5 <= t.len() ==> !(#[trigger] t[k] == 'a' && t[k + 1] == 'p'));
        lemma_bigram_not_contains(t, "apple"@, 0);
        assert(forall|k: int|
            0 <= k && k + 7 <= t.len() ==> !(#[trigger] t[k] == 'a' && t[k + 1] == 'n'));
        lemma_bigram_not_contains(t, "android"@, 0);
        assert(forall|k: int|
            0 <= k && k + 7 <= t.len() ==> !(#[trigger] t[k] == 'w' && t[k + 1] == 'i'));
        lemma_bigram_not_contains(t, "windows"@, 0);
    } else {
        reveal_strlit("aarch64-unknown-linux-gnu");
        assert(forall|k: int|
            0 <= k && k + 5 <= t.len() ==> !(#[trigger] t[k] == 'a' && t[k + 1] == 'p'));
        lemma_bigram_not_contains(t, "apple"@, 0);
        assert(forall|k: int|
            0 <= k && k + 7 <= t.len() ==> !(#[trigger] t[k] == 'a' && t[k + 1] == 'n'));
        lemma_bigram_not_contains(t, "android"@, 0);
        assert(forall|k: int|
            0 <= k && k + 7 <= t.len() ==> !(#[trigger] t[k] == 'w' && t[k + 1] == 'i'));
        lemma_bigram_not_contains(t, "windows"@, 0);
    }
}

/// Every triple in a host's allow-list compiles to an option list without
/// error, whatever host operating system the options are computed for and
/// wherever the package is installed.
pub proof fn lemma_allowed_targets_have_options(
    host_os: HostOs,
    host_arch: HostArch,
    t: Seq<char>,
    options_os: HostOs,
    manifest_dir: Seq<char>,
)
    requires
        spec_allowed_targets(host_os, host_arch).contains(t),
    ensures
        spec_cmake_options(t, options_os, manifest_dir) is Some,
{
    let table = spec_allowed_targets(host_os, host_arch);
    let i = choose|i: int| 0 <= i < table.len() && table[i] == t;
    match host_os {
        HostOs::MacOs => {
            if i < 5 {
                assert(spec_apple_targets()[i] == t);
                assert(spec_apple_targets().contains(t));
                lemma_apple_table_options(t, options_os, manifest_dir);
            } else {
                assert(spec_android_targets()[i - 5] == t);
                assert(spec_android_targets().contains(t));
                lemma_android_table_options(t, options_os, manifest_dir);
            }
        },
        HostOs::Linux => {
            match host_arch {
                HostArch::X86_64 => {
                    if i == 0 {
                        assert(t == "x86_64-unknown-linux-gnu"@);
                        lemma_linux_triple_options(t, options_os, manifest_dir);
                    } else {
                        assert(spec_android_targets()[i - 1] == t);
                        assert(spec_android_targets().contains(t));
                        lemma_android_table_options(t, options_os, manifest_dir);
                    }
                },
                HostArch::Aarch64 => {
                    assert(t == "aarch64-unknown-linux-gnu"@);
                    lemma_linux_triple_options(t, options_os, manifest_dir);
                },
                HostArch::Other => {
                    assert(false);
                },
            }
        },
        HostOs::Windows => {
            match host_arch {
                HostArch::X86_64 => {
                    if i == 0 {
                        assert(t == "x86_64-pc-windows-msvc"@);
                        lemma_windows_triple_options(t, options_os, manifest_dir);
                    } else {
                        assert(spec_android_targets()[i - 1] == t);
                        assert(spec_android_targets().contains(t));
                        lemma_android_table_options(t, options_os, manifest_dir);
                    }
                },
                HostArch::Aarch64 => {
                    assert(t == "aarch64-pc-windows-msvc"@);
                    lemma_windows_triple_options(t, options_os, manifest_dir);
                },
                HostArch::Other => {
                    assert(false);
                },
            }
        },
        HostOs::Other => {
            assert(false);
        },
    }
}

/// For every Apple-family triple whose options compile, the option list
/// carries the architecture-select and no-framework options; it carries the
/// iOS system name exactly when the triple denotes iOS, and the simulator
/// sysroot exactly when the triple is one of the two simulator triples.
pub proof fn lemma_apple_options_shape(t: Seq<char>, host_os: HostOs, manifest_dir: Seq<char>)
    requires
        contains_seq(t, "apple"@),
        spec_cmake_options(t, host_os, manifest_dir) is Some,
    ensures
        ({
            let opts = spec_cmake_options(t, host_os, manifest_dir)->0;
            &&& opts.contains(spec_apple_arch_option(t)->0)
            &&& opts.contains("-DPNG_FRAMEWORK=OFF"@)
            &&& (contains_seq(t, "ios"@) <==> opts.contains("-DCMAKE_SYSTEM_NAME=iOS"@))
            &&& (spec_is_simulator_triple(t) <==> opts.contains(
                "-DCMAKE_OSX_SYSROOT=iphonesimulator"@,
            ))
        }),
{
    reveal_strlit("-DPNG_SHARED=OFF");
    reveal_strlit("-DPNG_TESTS=OFF");
    reveal_strlit("-DCMAKE_OSX_ARCHITECTURES=arm64");
    reveal_strlit("-DCMAKE_OSX_ARCHITECTURES=x86_64");
    reveal_strlit("-DPNG_FRAMEWORK=OFF");
    reveal_strlit("-DCMAKE_SYSTEM_NAME=iOS");
    reveal_strlit("-DCMAKE_OSX_SYSROOT=iphonesimulator");
    let opts = spec_cmake_options(t, host_os, manifest_dir)->0;
    let arch_opt = spec_apple_arch_option(t)->0;
    let ios = contains_seq(t, "ios"@);
    let sim = spec_is_simulator_triple(t);
    assert("-DPNG_SHARED=OFF"@.len() == 16);
    assert("-DPNG_TESTS=OFF"@.len() == 15);
    assert("-DCMAKE_OSX_ARCHITECTURES=arm64"@.len() == 31);
    assert("-DCMAKE_OSX_ARCHITECTURES=x86_64"@.len() == 32);
    assert("-DPNG_FRAMEWORK=OFF"@.len() == 19);
    assert("-DCMAKE_SYSTEM_NAME=iOS"@.len() == 23);
    assert("-DCMAKE_OSX_SYSROOT=iphonesimulator"@.len() == 35);
    assert(arch_opt.len() == 31 || arch_opt.len() == 32);
    if ios {
        if sim {
            let flat = seq![
                "-DPNG_SHARED=OFF"@,
                "-DPNG_TESTS=OFF"@,
                arch_opt,
                "-DPNG_FRAMEWORK=OFF"@,
                "-DCMAKE_SYSTEM_NAME=iOS"@,
                "-DCMAKE_OSX_SYSROOT=iphonesimulator"@,
            ];
            assert(opts =~= flat);
            assert(flat[2] == arch_opt && flat.contains(arch_opt));
            assert(flat[3] == "-DPNG_FRAMEWORK=OFF"@ && flat.contains("-DPNG_FRAMEWORK=OFF"@));
            assert(flat[4] == "-DCMAKE_SYSTEM_NAME=iOS"@ && flat.contains(
                "-DCMAKE_SYSTEM_NAME=iOS"@,
            ));
            assert(flat[5] == "-DCMAKE_OSX_SYSROOT=iphonesimulator"@ && flat.contains(
                "-DCMAKE_OSX_SYSROOT=iphonesimulator"@,
            ));
            assert(opts.contains(arch_opt));
            assert(opts.contains("-DPNG_FRAMEWORK=OFF"@));
            assert(opts.contains("-DCMAKE_SYSTEM_NAME=iOS"@));
            assert(opts.contains("-DCMAKE_OSX_SYSROOT=iphonesimulator"@));
        } else {
            let flat = seq![
                "-DPNG_SHARED=OFF"@,
                "-DPNG_TESTS=OFF"@,
                arch_opt,
                "-DPNG_FRAMEWORK=OFF"@,
                "-DCMAKE_SYSTEM_NAME=iOS"@,
            ];
            assert(opts =~= flat);
            assert(flat[2] == arch_opt && flat.contains(arch_opt));
            assert(flat[3] == "-DPNG_FRAMEWORK=OFF"@ && flat.contains("-DPNG_FRAMEWORK=OFF"@));
            assert(flat[4] == "-DCMAKE_SYSTEM_NAME=iOS"@ && flat.contains(
                "-DCMAKE_SYSTEM_NAME=iOS"@,
            ));
            assert(forall|i: int|
                0 <= i < flat.len() ==> #[trigger] flat[i]
                    != "-DCMAKE_OSX_SYSROOT=iphonesimulator"@);
            assert(!flat.contains("-DCMAKE_OSX_SYSROOT=iphonesimulator"@));
            assert(opts.contains(arch_opt));
            assert(opts.contains("-DPNG_FRAMEWORK=OFF"@));
            assert(opts.contains("-DCMAKE_SYSTEM_NAME=iOS"@));
            assert(!opts.contains("-DCMAKE_OSX_SYSROOT=iphonesimulator"@));
        }
    } else {
        if sim {
            let flat = seq![
                "-DPNG_SHARED=OFF"@,
                "-DPNG_TESTS=OFF"@,
                arch_opt,
                "-DPNG_FRAMEWORK=OFF"@,
                "-DCMAKE_OSX_SYSROOT=iphonesimulator"@,
            ];
            assert(opts =~= flat);
            assert(flat[2] == arch_opt && flat.contains(arch_opt));
            assert(flat[3] == "-DPNG_FRAMEWORK=OFF"@ && flat.contains("-DPNG_FRAMEWORK=OFF"@));
            assert(flat[4] == "-DCMAKE_OSX_SYSROOT=iphonesimulator"@ && flat.contains(
                "-DCMAKE_OSX_SYSROOT=iphonesimulator"@,
            ));
            assert(forall|i: int|
                0 <= i < flat.len() ==> #[trigger] flat[i] != "-DCMAKE_SYSTEM_NAME=iOS"@);
            assert(!flat.contains("-DCMAKE_SYSTEM_NAME=iOS"@));
            assert(opts.contains(arch_opt));
            assert(opts.contains("-DPNG_FRAMEWORK=OFF"@));
            assert(!opts.contains("-DCMAKE_SYSTEM_NAME=iOS"@));
            assert(opts.contains("-DCMAKE_OSX_SYSROOT=iphonesimulator"@));
        } else {
            let flat = seq![
                "-DPNG_SHARED=OFF"@,
                "-DPNG_TESTS=OFF"@,
                arch_opt,
                "-DPNG_FRAMEWORK=OFF"@,
            ];
            assert(opts =~= flat);
            assert(flat[2] == arch_opt && flat.contains(arch_opt));
            assert(flat[3] == "-DPNG_FRAMEWORK=OFF"@ && flat.contains("-DPNG_FRAMEWORK=OFF"@));
            assert(forall|i: int|
                0 <= i < flat.len() ==> #[trigger] flat[i] != "-DCMAKE_SYSTEM_NAME=iOS"@);
            assert(!flat.contains("-DCMAKE_SYSTEM_NAME=iOS"@));
            assert(forall|i: int|
                0 <= i < flat.len() ==> #[trigger] flat[i]
                    != "-DCMAKE_OSX_SYSROOT=iphonesimulator"@);
            assert(!flat.contains("-DCMAKE_OSX_SYSROOT=iphonesimulator"@));
            assert(opts.contains(arch_opt));
            assert(opts.contains("-DPNG_FRAMEWORK=OFF"@));
            assert(!opts.contains("-DCMAKE_SYSTEM_NAME=iOS"@));
            assert(!opts.contains("-DCMAKE_OSX_SYSROOT=iphonesimulator"@));
        }
    }
}

/// The fixed Android triple-to-ABI table, spelled out.
pub proof fn lemma_android_abi_table()
    ensures
        spec_android_abi_option("armv7-linux-androideabi"@) == Some(
            "-DCMAKE_ANDROID_ARCH_ABI=armeabi-v7a"@,
        ),
        spec_android_abi_option("aarch64-linux-android"@) == Some(
            "-DCMAKE_ANDROID_ARCH_ABI=arm64-v8a"@,
        ),
        spec_android_abi_option("i686-linux-android"@) == Some("-DCMAKE_ANDROID_ARCH_ABI=x86"@),
        spec_android_abi_option("x86_64-linux-android"@) == Some(
            "-DCMAKE_ANDROID_ARCH_ABI=x86_64"@,
        ),
{
    reveal_strlit("armv7-linux-androideabi");
    reveal_strlit("aarch64-linux-android");
    reveal_strlit("i686-linux-android");
    reveal_strlit("x86_64-linux-android");
    assert("armv7-linux-androideabi"@.len() == 23);
    assert("aarch64-linux-android"@.len() == 21);
    assert("i686-linux-android"@.len() == 18);
    assert("x86_64-linux-android"@.len() == 20);
}

/// For every Android-family triple whose options compile, the option list
/// carries the Android system name and the table's ABI option, and it
/// carries the static-probe option exactly when the host operating system
/// is Windows.
pub proof fn lemma_android_options_shape(t: Seq<char>, host_os: HostOs, manifest_dir: Seq<char>)
    requires
        contains_seq(t, "android"@),
        !contains_seq(t, "apple"@),
        spec_cmake_options(t, host_os, manifest_dir) is Some,
    ensures
        ({
            let opts = spec_cmake_options(t, host_os, manifest_dir)->0;
            &&& opts.contains("-DCMAKE_SYSTEM_NAME=Android"@)
            &&& opts.contains(spec_android_abi_option(t)->0)
            &&& (host_os == HostOs::Windows <==> opts.contains(
                "-DCMAKE_TRY_COMPILE_TARGET_TYPE=STATIC_LIBRARY"@,
            ))
        }),
{
    reveal_strlit("-DPNG_SHARED=OFF");
    reveal_strlit("-DPNG_TESTS=OFF");
    reveal_strlit("-DCMAKE_SYSTEM_NAME=Android");
    reveal_strlit("-DCMAKE_ANDROID_ARCH_ABI=armeabi-v7a");
    reveal_strlit("-DCMAKE_ANDROID_ARCH_ABI=arm64-v8a");
    reveal_strlit("-DCMAKE_ANDROID_ARCH_ABI=x86");
    reveal_strlit("-DCMAKE_ANDROID_ARCH_ABI=x86_64");
    reveal_strlit("-DCMAKE_TRY_COMPILE_TARGET_TYPE=STATIC_LIBRARY");
    let opts = spec_cmake_options(t, host_os, manifest_dir)->0;
    let abi_opt = spec_android_abi_option(t)->0;
    assert("-DPNG_SHARED=OFF"@.len() == 16);
    assert("-DPNG_TESTS=OFF"@.len() == 15);
    assert("-DCMAKE_SYSTEM_NAME=Android"@.len() == 27);
    assert("-DCMAKE_ANDROID_ARCH_ABI=armeabi-v7a"@.len() == 36);
    assert("-DCMAKE_ANDROID_ARCH_ABI=arm64-v8a"@.len() == 34);
    assert("-DCMAKE_ANDROID_ARCH_ABI=x86"@.len() == 28);
    assert("-DCMAKE_ANDROID_ARCH_ABI=x86_64"@.len() == 31);
    assert("-DCMAKE_TRY_COMPILE_TARGET_TYPE=STATIC_LIBRARY"@.len() == 46);
    assert(abi_opt.len() == 36 || abi_opt.len() == 34 || abi_opt.len() == 28 || abi_opt.len()
        == 31);
    if host_os == HostOs::Windows {
        let flat = seq![
            "-DPNG_SHARED=OFF"@,
            "-DPNG_TESTS=OFF"@,
            "-DCMAKE_SYSTEM_NAME=Android"@,
            abi_opt,
            "-DCMAKE_TRY_COMPILE_TARGET_TYPE=STATIC_LIBRARY"@,
        ];
        assert(opts =~= flat);
        assert(flat[2] == "-DCMAKE_SYSTEM_NAME=Android"@ && flat.contains(
            "-DCMAKE_SYSTEM_NAME=Android"@,
        ));
        assert(flat[3] == abi_opt && flat.contains(abi_opt));
        assert(flat[4] == "-DCMAKE_TRY_COMPILE_TARGET_TYPE=STATIC_LIBRARY"@ && flat.contains(
            "-DCMAKE_TRY_COMPILE_TARGET_TYPE=STATIC_LIBRARY"@,
        ));
        assert(opts.contains("-DCMAKE_SYSTEM_NAME=Android"@));
        assert(opts.contains(abi_opt));
        assert(opts.contains("-DCMAKE_TRY_COMPILE_TARGET_TYPE=STATIC_LIBRARY"@));
    } else {
        let flat = seq![
            "-DPNG_SHARED=OFF"@,
            "-DPNG_TESTS=OFF"@,
            "-DCMAKE_SYSTEM_NAME=Android"@,
            abi_opt,
        ];
        assert(opts =~= flat);
        assert(flat[2] == "-DCMAKE_SYSTEM_NAME=Android"@ && flat.contains(
            "-DCMAKE_SYSTEM_NAME=Android"@,
        ));
        assert(flat[3] == abi_opt && flat.contains(abi_opt));
        assert(forall|i: int|
            0 <= i < flat.len() ==> #[trigger] flat[i]
                != "-DCMAKE_TRY_COMPILE_TARGET_TYPE=STATIC_LIBRARY"@);
        assert(!flat.contains("-DCMAKE_TRY_COMPILE_TARGET_TYPE=STATIC_LIBRARY"@));
        assert(opts.contains("-DCMAKE_SYSTEM_NAME=Android"@));
        assert(opts.contains(abi_opt));
        assert(!opts.contains("-DCMAKE_TRY_COMPILE_TARGET_TYPE=STATIC_LIBRARY"@));
    }
}

} // verus!
