//! The closed error taxonomy of the build engine: unsupported target,
//! filesystem failure, subprocess failure, artifact not found.  Each variant
//! carries structured fields; `message` renders the human-readable text.

use vstd::prelude::*;
use crate::host::{spec_host_arch_name, spec_host_os_name, host_arch_name, host_os_name, HostArch, HostOs};

verus! {

/// Why a build operation failed.
#[derive(Debug, PartialEq, Eq)]
pub enum BuildError {
    /// The requested triple is not buildable from the current host, or a
    /// recognized platform family carries an unrecognized architecture.
    UnsupportedTarget { target: String, host_os: HostOs, host_arch: HostArch },
    /// A directory or file operation failed; the message carries the
    /// operating system's description.
    Filesystem { message: String },
    /// The native build tool exited with a non-zero status.  `code` is the
    /// numeric exit code, or `-1` when none was available (for example the
    /// process was ended by a signal).
    Subprocess { command: String, code: i32, stderr: String },
    /// The build tool reported success but the expected output file is
    /// absent at `path`.
    ArtifactNotFound { path: String },
}

/// The decimal digits of `n`, most significant first.
pub open spec fn spec_decimal(n: nat) -> Seq<char>
    decreases n,
{
    if n < 10 {
        seq![spec_digit_char(n)]
    } else {
        spec_decimal(n / 10) + seq![spec_digit_char(n % 10)]
    }
}

/// The character for a single decimal digit.
pub open spec fn spec_digit_char(d: nat) -> char {
    if d == 0 {
        '0'
    } else if d == 1 {
        '1'
    } else if d == 2 {
        '2'
    } else if d == 3 {
        '3'
    } else if d == 4 {
        '4'
    } else if d == 5 {
        '5'
    } else if d == 6 {
        '6'
    } else if d == 7 {
        '7'
    } else if d == 8 {
        '8'
    } else {
        '9'
    }
}

/// The signed decimal rendering of `i`.
pub open spec fn spec_decimal_signed(i: int) -> Seq<char> {
    if i < 0 {
        seq!['-'] + spec_decimal((-i) as nat)
    } else {
        spec_decimal(i as nat)
    }
}

/// The rendered description of an error, matching the diagnostics the build
/// engine reports.
pub open spec fn spec_message(e: BuildError) -> Seq<char> {
    match e {
        BuildError::UnsupportedTarget { target, host_os, host_arch } => "Unsupported target: "@
            + target@ + ", for host OS: "@ + spec_host_os_name(host_os) + ", arch: "@
            + spec_host_arch_name(host_arch),
        BuildError::Filesystem { message } => message@,
        BuildError::Subprocess { command, code, stderr } => "Command '"@ + command@
            + "' failed with status code "@ + spec_decimal_signed(code as int) + "\nError: "@
            + stderr@,
        BuildError::ArtifactNotFound { path } => "Artifact not found at path: "@ + path@,
    }
}

fn digit_str(d: u64) -> (r: &'static str)
    requires
        d < 10,
    ensures
        r@ =~= seq![spec_digit_char(d as nat)],
{
    proof {
        reveal_strlit("0");
        reveal_strlit("1");
        reveal_strlit("2");
        reveal_strlit("3");
        reveal_strlit("4");
        reveal_strlit("5");
        reveal_strlit("6");
        reveal_strlit("7");
        reveal_strlit("8");
        reveal_strlit("9");
    }
    if d == 0 {
        "0"
    } else if d == 1 {
        "1"
    } else if d == 2 {
        "2"
    } else if d == 3 {
        "3"
    } else if d == 4 {
        "4"
    } else if d == 5 {
        "5"
    } else if d == 6 {
        "6"
    } else if d == 7 {
        "7"
    } else if d == 8 {
        "8"
    } else {
        "9"
    }
}

/// Renders an unsigned number in decimal.
pub fn decimal_string(n: u64) -> (r: String)
    ensures
        r@ == spec_decimal(n as nat),
    decreases n,
{
    if n < 10 {
        String::from_str(digit_str(n))
    } else {
        decimal_string(n / 10).concat(digit_str(n % 10))
    }
}

/// Renders an exit code in signed decimal.
pub fn exit_code_string(code: i32) -> (r: String)
    ensures
        r@ == spec_decimal_signed(code as int),
{
    if code < 0 {
        let wide: i64 = code as i64;
        let magnitude: u64 = (-wide) as u64;
        proof {
            reveal_strlit("-");
            assert("-"@ =~= seq!['-']);
        }
        String::from_str("-").concat(decimal_string(magnitude).as_str())
    } else {
        decimal_string(code as u64)
    }
}

impl BuildError {
    /// Builds the unsupported-target error for a triple requested on the
    /// given host.
    pub fn unsupported_target(target: &str, host_os: HostOs, host_arch: HostArch) -> (e:
        BuildError)
        ensures
            e matches BuildError::UnsupportedTarget { target: t, host_os: o, host_arch: a }
                && t@ == target@ && o == host_os && a == host_arch,
    {
        BuildError::UnsupportedTarget { target: String::from_str(target), host_os, host_arch }
    }

    /// The human-readable description of the error.
    pub fn message(&self) -> (r: String)
        ensures
            r@ == spec_message(*self),
    {
        match self {
            BuildError::UnsupportedTarget { target, host_os, host_arch } => String::from_str(
                "Unsupported target: ",
            ).concat(target.as_str()).concat(", for host OS: ").concat(
                host_os_name(*host_os),
            ).concat(", arch: ").concat(host_arch_name(*host_arch)),
            BuildError::Filesystem { message } => message.clone(),
            BuildError::Subprocess { command, code, stderr } => String::from_str("Command '")
                .concat(command.as_str()).concat("' failed with status code ").concat(
                exit_code_string(*code).as_str(),
            ).concat("\nError: ").concat(stderr.as_str()),
            BuildError::ArtifactNotFound { path } => String::from_str(
                "Artifact not found at path: ",
            ).concat(path.as_str()),
        }
    }
}

} // verus!
