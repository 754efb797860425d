//! The build orchestrator and artifact assembler, as pure planning and
//! judgement logic.  A plan names every directory, command and copy the
//! build needs; the caller performs the filesystem work and subprocess
//! runs and hands the observed outcomes back for judgement.  Validation
//! happens at planning time, before any filesystem or process work.

use vstd::prelude::*;
use crate::artifact::{spec_artifact_path, artifact_rel_path, link_name, locate_artifact,
    spec_link_name};
use crate::error::BuildError;
use crate::host::{HostArch, HostOs};
use crate::laws::lemma_allowed_targets_have_options;
use crate::options::{spec_cmake_options, cmake_options};
use crate::paths::{spec_file_name, spec_join_path, file_name_of, join_path, source_path};
use crate::process::{interpret_run, spec_exit_code, RunReport};
use crate::target::{spec_allowed_targets, is_allowed_target};

verus! {

/// The native build tool both plan steps invoke.
pub open spec fn spec_build_tool() -> Seq<char> {
    "cmake"@
}

/// The fixed arguments of the build step: a release-configuration build of
/// the configured tree.
pub open spec fn spec_build_args() -> Seq<Seq<char>> {
    seq!["--build"@, "."@, "--config"@, "Release"@]
}

/// The configure step's arguments: the full option list followed by the
/// path of the library's source tree as the final positional argument.
pub open spec fn spec_configure_args(t: Seq<char>, host_os: HostOs, manifest_dir: Seq<char>)
    -> Option<Seq<Seq<char>>> {
    match spec_cmake_options(t, host_os, manifest_dir) {
        None => None,
        Some(opts) => Some(opts + seq![spec_join_path(manifest_dir, "libpng"@)]),
    }
}

/// Everything the compile operation needs from its caller: the build
/// directory to recreate empty, the two invocations of the build tool to
/// run there in order, and where the artifact must appear afterwards.
#[derive(Debug, PartialEq, Eq)]
pub struct CompilePlan {
    /// Directory to remove if present, recreate empty, and run both steps
    /// in.
    pub working_dir: String,
    /// The build tool to invoke for both steps.
    pub program: String,
    /// Arguments of the configure step.
    pub configure_args: Vec<String>,
    /// Arguments of the build step.
    pub build_args: Vec<String>,
    /// Where the static library must exist once the build step succeeds.
    pub expected_artifact: String,
}

/// Whether `p` is the compile plan for the given inputs.
pub open spec fn compile_plan_describes(
    p: CompilePlan,
    target: Seq<char>,
    working_dir: Seq<char>,
    host_os: HostOs,
    manifest_dir: Seq<char>,
) -> bool {
    &&& p.working_dir@ == working_dir
    &&& p.program@ == spec_build_tool()
    &&& (spec_configure_args(target, host_os, manifest_dir) matches Some(args)
        && p.configure_args.deep_view() =~~= args)
    &&& p.build_args.deep_view() =~~= spec_build_args()
    &&& p.expected_artifact@ == spec_artifact_path(working_dir, host_os)
}

/// Plans the compile operation.  Fails, before anything else would touch
/// the filesystem, exactly when the triple is outside the host's
/// allow-list.
pub fn plan_compile(
    target_str: &str,
    working_dir: &str,
    host_os: HostOs,
    host_arch: HostArch,
    manifest_dir: &str,
) -> (r: Result<CompilePlan, BuildError>)
    ensures
        r is Ok <==> spec_allowed_targets(host_os, host_arch).contains(target_str@),
        r matches Ok(p) ==> compile_plan_describes(
            p,
            target_str@,
            working_dir@,
            host_os,
            manifest_dir@,
        ),
        r matches Err(e) ==> e matches BuildError::UnsupportedTarget {
            target: t,
            host_os: o,
            host_arch: a,
        } && t@ == target_str@ && o == host_os && a == host_arch,
{
    if !is_allowed_target(target_str, host_os, host_arch) {
        return Err(BuildError::unsupported_target(target_str, host_os, host_arch));
    }
    proof {
        lemma_allowed_targets_have_options(
            host_os,
            host_arch,
            target_str@,
            host_os,
            manifest_dir@,
        );
    }
    let mut configure_args = match cmake_options(target_str, host_os, host_arch, manifest_dir) {
        Ok(v) => v,
        Err(_) => {
            proof {
                assert(false);
            }
            unreached()
        },
    };
    configure_args.push(source_path(manifest_dir));
    let mut build_args: Vec<String> = Vec::new();
    build_args.push(String::from_str("--build"));
    build_args.push(String::from_str("."));
    build_args.push(String::from_str("--config"));
    build_args.push(String::from_str("Release"));
    let expected_artifact = join_path(working_dir, artifact_rel_path(host_os));
    let plan = CompilePlan {
        working_dir: String::from_str(working_dir),
        program: String::from_str("cmake"),
        configure_args,
        build_args,
        expected_artifact,
    };
    proof {
        assert(spec_configure_args(target_str@, host_os, manifest_dir@) matches Some(args)
            && plan.configure_args.deep_view() =~~= args);
        assert(plan.build_args.deep_view() =~~= spec_build_args());
    }
    Ok(plan)
}

/// Judges a whole compile run from the observed outcomes, in the order the
/// orchestrator meets them: an unsupported target fails first, then a
/// failed configure step, then a failed build step, then a missing
/// artifact; otherwise the artifact's path is returned.
pub fn compile_result(
    target_str: &str,
    working_dir: &str,
    host_os: HostOs,
    host_arch: HostArch,
    manifest_dir: &str,
    configure: RunReport,
    build: RunReport,
    artifact_present: bool,
) -> (r: Result<String, BuildError>)
    ensures
        !spec_allowed_targets(host_os, host_arch).contains(target_str@) ==> (r matches Err(e)
            && e matches BuildError::UnsupportedTarget { target: t, host_os: o, host_arch: a }
            && t@ == target_str@ && o == host_os && a == host_arch),
        spec_allowed_targets(host_os, host_arch).contains(target_str@) && !configure.success ==> (
        r matches Err(e) && e matches BuildError::Subprocess { command, code, stderr }
            && command@ == spec_build_tool() && code == spec_exit_code(configure.code) && stderr@
            == configure.stderr@),
        spec_allowed_targets(host_os, host_arch).contains(target_str@) && configure.success
            && !build.success ==> (r matches Err(e) && e matches BuildError::Subprocess {
            command,
            code,
            stderr,
        } && command@ == spec_build_tool() && code == spec_exit_code(build.code) && stderr@
            == build.stderr@),
        spec_allowed_targets(host_os, host_arch).contains(target_str@) && configure.success
            && build.success && !artifact_present ==> (r matches Err(e) && e matches
            BuildError::ArtifactNotFound { path } && path@ == spec_artifact_path(
            working_dir@,
            host_os,
        )),
        spec_allowed_targets(host_os, host_arch).contains(target_str@) && configure.success
            && build.success && artifact_present ==> (r matches Ok(p) && p@ == spec_artifact_path(
            working_dir@,
            host_os,
        )),
{
    let plan = match plan_compile(target_str, working_dir, host_os, host_arch, manifest_dir) {
        Ok(p) => p,
        Err(e) => {
            return Err(e);
        },
    };
    match interpret_run(plan.program.as_str(), configure) {
        Ok(_) => (),
        Err(e) => {
            return Err(e);
        },
    }
    match interpret_run(plan.program.as_str(), build) {
        Ok(_) => (),
        Err(e) => {
            return Err(e);
        },
    }
    locate_artifact(working_dir, host_os, artifact_present)
}

/// One file copy of the staging step.
#[derive(Debug, PartialEq, Eq)]
pub struct CopyStep {
    pub from: String,
    pub to: String,
}

/// The assembled bundle: the artifact root with its header and library
/// directories, and the name to hand to the linker.
#[derive(Debug, PartialEq, Eq)]
pub struct Artifacts {
    /// Artifact root directory, fully replaced on every build.
    pub root_dir: String,
    /// C header directory under the root.
    pub include_dir: String,
    /// Library search directory under the root.
    pub lib_dir: String,
    /// Library name for the linker.
    pub link_name: String,
}

/// Everything the full-artifact operation needs from its caller, beyond
/// the compile plan: the root to replace, the directories to create, the
/// copies to perform, and the build directory whose removal afterwards is
/// best-effort.  The caller removes `root_dir` if present and recreates it
/// empty before any copy runs, so the staged bundle never merges with
/// stale content.
#[derive(Debug, PartialEq, Eq)]
pub struct AssemblePlan {
    /// The compile operation, run in a `build` subdirectory.
    pub compile: CompilePlan,
    /// Root directory to remove if present and recreate empty.
    pub root_dir: String,
    /// Header directory to create under the root.
    pub include_dir: String,
    /// Library directory to create under the root.
    pub lib_dir: String,
    /// The three header copies into `include_dir`: the two fixed headers
    /// from the source tree and the generated one from the build
    /// directory.
    pub header_copies: Vec<CopyStep>,
    /// The copy of the located artifact into `lib_dir`, under its own
    /// file name.
    pub library_copy: CopyStep,
    /// Directory whose removal after staging is best-effort: failure is a
    /// warning, not an error.
    pub cleanup_dir: String,
    /// The bundle to report once staging succeeded.
    pub artifacts: Artifacts,
}

/// The build subdirectory used by the full-artifact operation.
pub open spec fn spec_build_dir(working_dir: Seq<char>) -> Seq<char> {
    spec_join_path(working_dir, "build"@)
}

/// The artifact root directory of the full-artifact operation.
pub open spec fn spec_root_dir(working_dir: Seq<char>) -> Seq<char> {
    spec_join_path(working_dir, "libpng"@)
}

/// The file name of the compiled artifact for the given host.
pub open spec fn spec_artifact_file_name(working_dir: Seq<char>, host_os: HostOs) -> Seq<char> {
    spec_file_name(spec_artifact_path(spec_build_dir(working_dir), host_os))
}

/// Whether `p` is the assemble plan for the given inputs.  Every field is
/// a function of the inputs alone: the staged bundle's contents do not
/// depend on anything already on disk.
pub open spec fn assemble_plan_describes(
    p: AssemblePlan,
    target: Seq<char>,
    working_dir: Seq<char>,
    host_os: HostOs,
    manifest_dir: Seq<char>,
) -> bool {
    let build_dir = spec_build_dir(working_dir);
    let root = spec_root_dir(working_dir);
    let header_dir = spec_join_path(root, "include"@);
    let lib = spec_join_path(root, "lib"@);
    let source = spec_join_path(manifest_dir, "libpng"@);
    let file_name = spec_artifact_file_name(working_dir, host_os);
    &&& compile_plan_describes(p.compile, target, build_dir, host_os, manifest_dir)
    &&& p.root_dir@ == root
    &&& p.include_dir@ == header_dir
    &&& p.lib_dir@ == lib
    &&& p.header_copies@.len() == 3
    &&& p.header_copies@[0].from@ == spec_join_path(source, "png.h"@)
    &&& p.header_copies@[0].to@ == spec_join_path(header_dir, "png.h"@)
    &&& p.header_copies@[1].from@ == spec_join_path(source, "pngconf.h"@)
    &&& p.header_copies@[1].to@ == spec_join_path(header_dir, "pngconf.h"@)
    &&& p.header_copies@[2].from@ == spec_join_path(build_dir, "pnglibconf.h"@)
    &&& p.header_copies@[2].to@ == spec_join_path(header_dir, "pnglibconf.h"@)
    &&& p.library_copy.from@ == spec_artifact_path(build_dir, host_os)
    &&& p.library_copy.to@ == spec_join_path(lib, file_name)
    &&& p.cleanup_dir@ == build_dir
    &&& p.artifacts.root_dir@ == root
    &&& p.artifacts.include_dir@ == header_dir
    &&& p.artifacts.lib_dir@ == lib
    &&& p.artifacts.link_name@ == spec_link_name(file_name, target)
}

/// Plans the full-artifact operation.  Fails exactly when the triple is
/// outside the host's allow-list, before anything would touch the
/// filesystem.
pub fn plan_assemble(
    target_str: &str,
    working_dir: &str,
    host_os: HostOs,
    host_arch: HostArch,
    manifest_dir: &str,
) -> (r: Result<AssemblePlan, BuildError>)
    ensures
        r is Ok <==> spec_allowed_targets(host_os, host_arch).contains(target_str@),
        r matches Ok(p) ==> assemble_plan_describes(
            p,
            target_str@,
            working_dir@,
            host_os,
            manifest_dir@,
        ),
        r matches Err(e) ==> e matches BuildError::UnsupportedTarget {
            target: t,
            host_os: o,
            host_arch: a,
        } && t@ == target_str@ && o == host_os && a == host_arch,
{
    let build_dir = join_path(working_dir, "build");
    let compile = match plan_compile(
        target_str,
        build_dir.as_str(),
        host_os,
        host_arch,
        manifest_dir,
    ) {
        Ok(p) => p,
        Err(e) => {
            return Err(e);
        },
    };
    let file_name = file_name_of(compile.expected_artifact.as_str());
    let root_dir = join_path(working_dir, "libpng");
    let include_dir = join_path(root_dir.as_str(), "include");
    let lib_dir = join_path(root_dir.as_str(), "lib");
    let source = source_path(manifest_dir);
    let mut header_copies: Vec<CopyStep> = Vec::new();
    header_copies.push(
        CopyStep {
            from: join_path(source.as_str(), "png.h"),
            to: join_path(include_dir.as_str(), "png.h"),
        },
    );
    header_copies.push(
        CopyStep {
            from: join_path(source.as_str(), "pngconf.h"),
            to: join_path(include_dir.as_str(), "pngconf.h"),
        },
    );
    header_copies.push(
        CopyStep {
            from: join_path(build_dir.as_str(), "pnglibconf.h"),
            to: join_path(include_dir.as_str(), "pnglibconf.h"),
        },
    );
    let library_copy = CopyStep {
        from: compile.expected_artifact.clone(),
        to: join_path(lib_dir.as_str(), file_name.as_str()),
    };
    let artifacts = Artifacts {
        root_dir: root_dir.clone(),
        include_dir: include_dir.clone(),
        lib_dir: lib_dir.clone(),
        link_name: link_name(file_name, target_str),
    };
    Ok(
        AssemblePlan {
            compile,
            root_dir,
            include_dir,
            lib_dir,
            header_copies,
            library_copy,
            cleanup_dir: build_dir,
            artifacts,
        },
    )
}

/// Judges a whole full-artifact run from the observed outcomes, with the
/// same precedence as the compile operation; when everything succeeded the
/// bundle is returned.
pub fn assemble_result(
    target_str: &str,
    working_dir: &str,
    host_os: HostOs,
    host_arch: HostArch,
    manifest_dir: &str,
    configure: RunReport,
    build: RunReport,
    artifact_present: bool,
) -> (r: Result<Artifacts, BuildError>)
    ensures
        r is Ok <==> spec_allowed_targets(host_os, host_arch).contains(target_str@)
            && configure.success && build.success && artifact_present,
        r matches Ok(a) ==> ({
            let root = spec_root_dir(working_dir@);
            let file_name = spec_artifact_file_name(working_dir@, host_os);
            &&& a.root_dir@ == root
            &&& a.include_dir@ == spec_join_path(root, "include"@)
            &&& a.lib_dir@ == spec_join_path(root, "lib"@)
            &&& a.link_name@ == spec_link_name(file_name, target_str@)
        }),
        !spec_allowed_targets(host_os, host_arch).contains(target_str@) ==> (r matches Err(e)
            && e matches BuildError::UnsupportedTarget { target: t, host_os: o, host_arch: a }
            && t@ == target_str@ && o == host_os && a == host_arch),
        spec_allowed_targets(host_os, host_arch).contains(target_str@) && !configure.success ==> (
        r matches Err(e) && e matches BuildError::Subprocess { command, code, stderr }
            && command@ == spec_build_tool() && code == spec_exit_code(configure.code) && stderr@
            == configure.stderr@),
        spec_allowed_targets(host_os, host_arch).contains(target_str@) && configure.success
            && !build.success ==> (r matches Err(e) && e matches BuildError::Subprocess {
            command,
            code,
            stderr,
        } && command@ == spec_build_tool() && code == spec_exit_code(build.code) && stderr@
            == build.stderr@),
        spec_allowed_targets(host_os, host_arch).contains(target_str@) && configure.success
            && build.success && !artifact_present ==> (r matches Err(e) && e matches
            BuildError::ArtifactNotFound { path } && path@ == spec_artifact_path(
            spec_build_dir(working_dir@),
            host_os,
        )),
{
    let plan = match plan_assemble(target_str, working_dir, host_os, host_arch, manifest_dir) {
        Ok(p) => p,
        Err(e) => {
            return Err(e);
        },
    };
    match interpret_run(plan.compile.program.as_str(), configure) {
        Ok(_) => (),
        Err(e) => {
            return Err(e);
        },
    }
    match interpret_run(plan.compile.program.as_str(), build) {
        Ok(_) => (),
        Err(e) => {
            return Err(e);
        },
    }
    match locate_artifact(plan.compile.working_dir.as_str(), host_os, artifact_present) {
        Ok(_) => (),
        Err(e) => {
            return Err(e);
        },
    }
    Ok(plan.artifacts)
}

/// The staged bundle is a function of the request alone: two assemble
/// plans for the same target, working directory, host and install location
/// stage the same directories, the same copies and the same reported
/// bundle.  Together with the root's replacement before staging, a second
/// run of the operation yields byte-identical bundle contents.
pub proof fn lemma_assemble_plan_deterministic(
    p1: AssemblePlan,
    p2: AssemblePlan,
    target: Seq<char>,
    working_dir: Seq<char>,
    host_os: HostOs,
    manifest_dir: Seq<char>,
)
    requires
        assemble_plan_describes(p1, target, working_dir, host_os, manifest_dir),
        assemble_plan_describes(p2, target, working_dir, host_os, manifest_dir),
    ensures
        p1.root_dir@ == p2.root_dir@,
        p1.include_dir@ == p2.include_dir@,
        p1.lib_dir@ == p2.lib_dir@,
        p1.header_copies@.len() == p2.header_copies@.len(),
        forall|i: int|
            0 <= i < p1.header_copies@.len() ==> (#[trigger] p1.header_copies@[i]).from@
                == p2.header_copies@[i].from@ && p1.header_copies@[i].to@
                == p2.header_copies@[i].to@,
        p1.library_copy.from@ == p2.library_copy.from@,
        p1.library_copy.to@ == p2.library_copy.to@,
        p1.artifacts.root_dir@ == p2.artifacts.root_dir@,
        p1.artifacts.include_dir@ == p2.artifacts.include_dir@,
        p1.artifacts.lib_dir@ == p2.artifacts.lib_dir@,
        p1.artifacts.link_name@ == p2.artifacts.link_name@,
{
    assert(forall|i: int|
        0 <= i < p1.header_copies@.len() ==> (#[trigger] p1.header_copies@[i]).from@
            == p2.header_copies@[i].from@ && p1.header_copies@[i].to@
            == p2.header_copies@[i].to@) by {
        assert(p1.header_copies@[0].from@ == p2.header_copies@[0].from@);
        assert(p1.header_copies@[1].from@ == p2.header_copies@[1].from@);
        assert(p1.header_copies@[2].from@ == p2.header_copies@[2].from@);
        assert(p1.header_copies@[0].to@ == p2.header_copies@[0].to@);
        assert(p1.header_copies@[1].to@ == p2.header_copies@[1].to@);
        assert(p1.header_copies@[2].to@ == p2.header_copies@[2].to@);
    }
}

} // verus!
