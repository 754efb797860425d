//! The orchestrated operations end to end with simulated outcomes:
//! validation failures before any work, error precedence across the two
//! build-tool runs, the located artifact, the assembled bundle, and the
//! rendered diagnostics.

use libpng_src::error::{decimal_string, exit_code_string, BuildError};
use libpng_src::host::{parse_host_arch, parse_host_os, HostArch, HostOs};
use libpng_src::orchestrate::{assemble_result, compile_result, plan_assemble, plan_compile};
use libpng_src::process::{interpret_run, RunReport};

fn ok_report() -> RunReport {
    RunReport {
        success: true,
        code: Some(0),
        stdout: String::from("build log"),
        stderr: String::new(),
    }
}

fn failed_report(code: Option<i32>, stderr: &str) -> RunReport {
    RunReport { success: false, code, stdout: String::new(), stderr: String::from(stderr) }
}

#[test]
fn unsupported_target_fails_before_any_work() {
    let r = plan_compile("aarch64-apple-darwin", "/work", HostOs::Linux, HostArch::X86_64, "/pkg");
    match r.unwrap_err() {
        BuildError::UnsupportedTarget { target, host_os, host_arch } => {
            assert_eq!(target, "aarch64-apple-darwin");
            assert_eq!(host_os, HostOs::Linux);
            assert_eq!(host_arch, HostArch::X86_64);
        },
        other => panic!("unexpected error: {other:?}"),
    }
}

#[test]
fn unsupported_target_message_names_triple_and_host() {
    let r = compile_result(
        "x86_64-pc-windows-msvc",
        "/work",
        HostOs::Linux,
        HostArch::Aarch64,
        "/pkg",
        ok_report(),
        ok_report(),
        true,
    );
    let message = r.unwrap_err().message();
    assert_eq!(
        message,
        "Unsupported target: x86_64-pc-windows-msvc, for host OS: linux, arch: aarch64"
    );
}

#[test]
fn unknown_host_supports_nothing() {
    let r = plan_compile(
        "x86_64-unknown-linux-gnu",
        "/work",
        HostOs::Other,
        HostArch::X86_64,
        "/pkg",
    );
    assert!(r.is_err());
}

#[test]
fn compile_plan_lists_both_tool_runs() {
    let plan = plan_compile(
        "x86_64-unknown-linux-gnu",
        "/work",
        HostOs::Linux,
        HostArch::X86_64,
        "/pkg",
    )
    .unwrap();
    assert_eq!(plan.working_dir, "/work");
    assert_eq!(plan.program, "cmake");
    assert_eq!(plan.configure_args, vec!["-DPNG_SHARED=OFF", "-DPNG_TESTS=OFF", "/pkg/libpng"]);
    assert_eq!(plan.build_args, vec!["--build", ".", "--config", "Release"]);
    assert_eq!(plan.expected_artifact, "/work/libpng16.a");
}

#[test]
fn failed_configure_step_reports_subprocess_error() {
    let r = compile_result(
        "x86_64-unknown-linux-gnu",
        "/work",
        HostOs::Linux,
        HostArch::X86_64,
        "/pkg",
        failed_report(Some(2), "configure exploded"),
        ok_report(),
        true,
    );
    match r.unwrap_err() {
        BuildError::Subprocess { command, code, stderr } => {
            assert_eq!(command, "cmake");
            assert_eq!(code, 2);
            assert_eq!(stderr, "configure exploded");
        },
        other => panic!("unexpected error: {other:?}"),
    }
}

#[test]
fn failed_build_step_without_code_uses_sentinel() {
    let r = compile_result(
        "x86_64-unknown-linux-gnu",
        "/work",
        HostOs::Linux,
        HostArch::X86_64,
        "/pkg",
        ok_report(),
        failed_report(None, "terminated"),
        true,
    );
    match r.unwrap_err() {
        BuildError::Subprocess { command, code, stderr } => {
            assert_eq!(command, "cmake");
            assert_eq!(code, -1);
            assert_eq!(stderr, "terminated");
        },
        other => panic!("unexpected error: {other:?}"),
    }
}

#[test]
fn missing_artifact_after_successful_build() {
    let r = compile_result(
        "x86_64-unknown-linux-gnu",
        "/work",
        HostOs::Linux,
        HostArch::X86_64,
        "/pkg",
        ok_report(),
        ok_report(),
        false,
    );
    match r.unwrap_err() {
        BuildError::ArtifactNotFound { path } => {
            assert_eq!(path, "/work/libpng16.a");
        },
        other => panic!("unexpected error: {other:?}"),
    }
}

#[test]
fn successful_compile_returns_artifact_path() {
    let r = compile_result(
        "x86_64-unknown-linux-gnu",
        "/work",
        HostOs::Linux,
        HostArch::X86_64,
        "/pkg",
        ok_report(),
        ok_report(),
        true,
    );
    let path = r.unwrap();
    assert!(path.ends_with("libpng16.a"));
}

#[test]
fn assemble_stages_headers_and_library() {
    let plan = plan_assemble(
        "x86_64-unknown-linux-gnu",
        "/work",
        HostOs::Linux,
        HostArch::X86_64,
        "/pkg",
    )
    .unwrap();
    assert_eq!(plan.compile.working_dir, "/work/build");
    assert_eq!(plan.root_dir, "/work/libpng");
    assert_eq!(plan.include_dir, "/work/libpng/include");
    assert_eq!(plan.lib_dir, "/work/libpng/lib");
    let copies: Vec<(&str, &str)> = plan
        .header_copies
        .iter()
        .map(|c| (c.from.as_str(), c.to.as_str()))
        .collect();
    assert_eq!(
        copies,
        vec![
            ("/pkg/libpng/png.h", "/work/libpng/include/png.h"),
            ("/pkg/libpng/pngconf.h", "/work/libpng/include/pngconf.h"),
            ("/work/build/pnglibconf.h", "/work/libpng/include/pnglibconf.h"),
        ]
    );
    assert_eq!(plan.library_copy.from, "/work/build/libpng16.a");
    assert_eq!(plan.library_copy.to, "/work/libpng/lib/libpng16.a");
    assert_eq!(plan.cleanup_dir, "/work/build");
    assert_eq!(plan.artifacts.link_name, "png16");
}

#[test]
fn assemble_returns_bundle_with_link_name() {
    let bundle = assemble_result(
        "x86_64-unknown-linux-gnu",
        "/work",
        HostOs::Linux,
        HostArch::X86_64,
        "/pkg",
        ok_report(),
        ok_report(),
        true,
    )
    .unwrap();
    assert_eq!(bundle.root_dir, "/work/libpng");
    assert_eq!(bundle.lib_dir, "/work/libpng/lib");
    assert_eq!(bundle.link_name, "png16");
}

#[test]
fn assemble_twice_yields_identical_bundles() {
    let first = plan_assemble(
        "x86_64-unknown-linux-gnu",
        "/work",
        HostOs::Linux,
        HostArch::X86_64,
        "/pkg",
    )
    .unwrap();
    let second = plan_assemble(
        "x86_64-unknown-linux-gnu",
        "/work",
        HostOs::Linux,
        HostArch::X86_64,
        "/pkg",
    )
    .unwrap();
    assert_eq!(first, second);
    let a = assemble_result(
        "x86_64-unknown-linux-gnu",
        "/work",
        HostOs::Linux,
        HostArch::X86_64,
        "/pkg",
        ok_report(),
        ok_report(),
        true,
    )
    .unwrap();
    let b = assemble_result(
        "x86_64-unknown-linux-gnu",
        "/work",
        HostOs::Linux,
        HostArch::X86_64,
        "/pkg",
        ok_report(),
        ok_report(),
        true,
    )
    .unwrap();
    assert_eq!(a, b);
}

#[test]
fn interpret_run_surfaces_stdout_on_success() {
    let r = interpret_run("cmake", ok_report());
    assert_eq!(r.unwrap(), "build log");
}

#[test]
fn subprocess_error_message_carries_code_and_stderr() {
    let e = interpret_run("cmake", failed_report(Some(3), "bad flag")).unwrap_err();
    assert_eq!(e.message(), "Command 'cmake' failed with status code 3\nError: bad flag");
}

#[test]
fn subprocess_error_message_with_sentinel_code() {
    let e = interpret_run("cmake", failed_report(None, "killed")).unwrap_err();
    assert_eq!(e.message(), "Command 'cmake' failed with status code -1\nError: killed");
}

#[test]
fn artifact_not_found_message_names_path() {
    let e = BuildError::ArtifactNotFound { path: String::from("/x/libpng16.a") };
    assert_eq!(e.message(), "Artifact not found at path: /x/libpng16.a");
}

#[test]
fn filesystem_error_message_is_passed_through() {
    let e = BuildError::Filesystem { message: String::from("permission denied") };
    assert_eq!(e.message(), "permission denied");
}

#[test]
fn decimal_rendering() {
    assert_eq!(decimal_string(0), "0");
    assert_eq!(decimal_string(7), "7");
    assert_eq!(decimal_string(42), "42");
    assert_eq!(decimal_string(6049), "6049");
    assert_eq!(exit_code_string(-1), "-1");
    assert_eq!(exit_code_string(0), "0");
    assert_eq!(exit_code_string(i32::MIN), "-2147483648");
    assert_eq!(exit_code_string(i32::MAX), "2147483647");
}

#[test]
fn libpng_version_constant() {
    assert_eq!(libpng_src::LIBPNG_VERSION, "1.6.43");
}

#[test]
fn host_descriptor_parsing() {
    assert_eq!(parse_host_os("linux"), HostOs::Linux);
    assert_eq!(parse_host_os("macos"), HostOs::MacOs);
    assert_eq!(parse_host_os("windows"), HostOs::Windows);
    assert_eq!(parse_host_os("freebsd"), HostOs::Other);
    assert_eq!(parse_host_arch("x86_64"), HostArch::X86_64);
    assert_eq!(parse_host_arch("aarch64"), HostArch::Aarch64);
    assert_eq!(parse_host_arch("riscv64"), HostArch::Other);
}
