//! The artifact locator: where the compiled static library is expected to
//! appear for a given host, and how the linker-visible name is derived from
//! the artifact's file name.

use vstd::prelude::*;
use crate::error::BuildError;
use crate::host::HostOs;
use crate::paths::{spec_join_path, join_path};
use crate::strkit::{contains_seq, token_before, strip_prefix_rec, str_contains, find_first};

verus! {

/// The expected location of the static library relative to the build
/// directory.  Windows builds place it under the release configuration with
/// a `_static` suffix and `.lib` extension; every other host produces a flat
/// `lib`-prefixed `.a` file.
pub open spec fn spec_artifact_rel_path(host_os: HostOs) -> Seq<char> {
    if host_os == HostOs::Windows {
        "Release\\libpng16_static.lib"@
    } else {
        "libpng16.a"@
    }
}

/// The expected relative artifact path, as a runtime value.
pub fn artifact_rel_path(host_os: HostOs) -> (r: &'static str)
    ensures
        r@ == spec_artifact_rel_path(host_os),
{
    match host_os {
        HostOs::Windows => "Release\\libpng16_static.lib",
        _ => "libpng16.a",
    }
}

/// The full expected artifact path under a build directory.
pub open spec fn spec_artifact_path(working_dir: Seq<char>, host_os: HostOs) -> Seq<char> {
    spec_join_path(working_dir, spec_artifact_rel_path(host_os))
}

/// Computes the expected artifact path and turns the caller's answer about
/// its existence into the located path or an artifact-not-found error
/// naming that exact path.  The filesystem probe itself stays with the
/// caller; this function is the whole of the decision.
pub fn locate_artifact(working_dir: &str, host_os: HostOs, file_exists: bool) -> (r: Result<
    String,
    BuildError,
>)
    ensures
        file_exists ==> (r matches Ok(p) && p@ == spec_artifact_path(working_dir@, host_os)),
        !file_exists ==> (r matches Err(e) && e matches BuildError::ArtifactNotFound { path }
            && path@ == spec_artifact_path(working_dir@, host_os)),
{
    let path = join_path(working_dir, artifact_rel_path(host_os));
    if file_exists {
        Ok(path)
    } else {
        Err(BuildError::ArtifactNotFound { path })
    }
}

/// The linker-visible name derived from an artifact file name: the part
/// before the first `.`, with every leading `lib` stripped unless the
/// target is a Windows-family triple, whose linker expects the prefix kept.
pub open spec fn spec_link_name(file_name: Seq<char>, target: Seq<char>) -> Seq<char> {
    let stem = token_before(file_name, '.');
    if contains_seq(target, "windows"@) {
        stem
    } else {
        strip_prefix_rec(stem, "lib"@)
    }
}

/// Derives the library name to hand to the linker from the artifact's file
/// name and the target triple.
pub fn link_name(file_name: String, target_str: &str) -> (r: String)
    ensures
        r@ == spec_link_name(file_name@, target_str@),
{
    let d = find_first(file_name.as_str(), '.');
    let stem = file_name.as_str().substring_char(0, d);
    if str_contains(target_str, "windows") {
        return String::from_str(stem);
    }
    let mut current: &str = stem;
    proof {
        reveal_strlit("lib");
        assert("lib"@ =~= seq!['l', 'i', 'b']);
    }
    loop
        invariant
            stem@ == token_before(file_name@, '.'),
            !contains_seq(target_str@, "windows"@),
            strip_prefix_rec(stem@, "lib"@) == strip_prefix_rec(current@, "lib"@),
            "lib"@ =~= seq!['l', 'i', 'b'],
        decreases current@.len(),
    {
        let n = current.unicode_len();
        if n >= 3 && current.get_char(0) == 'l' && current.get_char(1) == 'i' && current.get_char(
            2,
        ) == 'b' {
            proof {
                assert(current@.subrange(0, 3) =~= "lib"@);
                assert(current@.subrange(3, n as int) == current@.skip(3));
            }
            current = current.substring_char(3, n);
        } else {
            proof {
                if current@.len() >= 3 {
                    assert(current@.subrange(0, 3)[0] == current@[0]);
                    assert(current@.subrange(0, 3)[1] == current@[1]);
                    assert(current@.subrange(0, 3)[2] == current@[2]);
                }
                assert(strip_prefix_rec(current@, "lib"@) == current@);
            }
            return String::from_str(current);
        }
    }
}

} // verus!
