//! The compile and full-artifact operations driven with simulated outcomes
//! for a Linux host: the build tool succeeds and the artifact appears.

use libpng_src::host::{HostArch, HostOs};
use libpng_src::orchestrate::{assemble_result, compile_result};
use libpng_src::process::RunReport;

fn ok_report() -> RunReport {
    RunReport { success: true, code: Some(0), stdout: String::new(), stderr: String::new() }
}

fn test_compile(target: &str, host_arch: HostArch) {
    let r = compile_result(
        target,
        "/tmp/work",
        HostOs::Linux,
        host_arch,
        "/pkg",
        ok_report(),
        ok_report(),
        true,
    );
    let path = r.unwrap();
    assert_eq!(path, "/tmp/work/libpng16.a");
}

fn test_artifact_build(target: &str, host_arch: HostArch, expected_link: &str) {
    let r = assemble_result(
        target,
        "/tmp/work",
        HostOs::Linux,
        host_arch,
        "/pkg",
        ok_report(),
        ok_report(),
        true,
    );
    let bundle = r.unwrap();
    assert_eq!(bundle.root_dir, "/tmp/work/libpng");
    assert_eq!(bundle.include_dir, "/tmp/work/libpng/include");
    assert_eq!(bundle.lib_dir, "/tmp/work/libpng/lib");
    assert_eq!(bundle.link_name, expected_link);
}

#[test]
fn test_compile_linux_host_test_compile_x86_64() {
    test_compile("x86_64-unknown-linux-gnu", HostArch::X86_64)
}

#[test]
fn test_compile_linux_host_test_compile_aarch64() {
    test_compile("aarch64-unknown-linux-gnu", HostArch::Aarch64)
}

#[test]
fn test_compile_linux_host_test_compile_android_armv7() {
    test_compile("armv7-linux-androideabi", HostArch::X86_64)
}

#[test]
fn test_compile_linux_host_test_compile_android_aarch64() {
    test_compile("aarch64-linux-android", HostArch::X86_64)
}

#[test]
fn test_compile_linux_host_test_compile_android_x86() {
    test_compile("i686-linux-android", HostArch::X86_64)
}

#[test]
fn test_compile_linux_host_test_compile_android_x86_64() {
    test_compile("x86_64-linux-android", HostArch::X86_64)
}

#[test]
fn test_compile_linux_host_test_build_and_bindgen_x86_64() {
    test_artifact_build("x86_64-unknown-linux-gnu", HostArch::X86_64, "png16")
}

#[test]
fn test_build_and_bindgen_aarch64() {
    test_artifact_build("aarch64-unknown-linux-gnu", HostArch::Aarch64, "png16")
}

#[test]
fn test_compile_linux_host_test_build_and_bindgen_android_armv7() {
    test_artifact_build("armv7-linux-androideabi", HostArch::X86_64, "png16")
}

#[test]
fn test_compile_linux_host_test_build_and_bindgen_android_aarch64() {
    test_artifact_build("aarch64-linux-android", HostArch::X86_64, "png16")
}

#[test]
fn test_compile_linux_host_test_build_and_bindgen_android_x86() {
    test_artifact_build("i686-linux-android", HostArch::X86_64, "png16")
}

#[test]
fn test_compile_linux_host_test_build_and_bindgen_android_x86_64() {
    test_artifact_build("x86_64-linux-android", HostArch::X86_64, "png16")
}
