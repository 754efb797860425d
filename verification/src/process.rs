//! The process runner's decision: what a finished subprocess means for the
//! build.  Spawning, waiting and stream capture stay with the caller, which
//! hands the observed outcome in as plain values; this function is the
//! whole of the judgement.

use vstd::prelude::*;
use crate::error::BuildError;

verus! {

/// What the caller observed of a finished subprocess: whether the exit
/// status was success, the numeric exit code when one was available, and
/// the captured output streams.
pub struct RunReport {
    pub success: bool,
    pub code: Option<i32>,
    pub stdout: String,
    pub stderr: String,
}

/// The exit code recorded in a failure report: the observed code, or `-1`
/// when none was available.
pub open spec fn spec_exit_code(code: Option<i32>) -> i32 {
    match code {
        Some(c) => c,
        None => -1i32,
    }
}

/// Judges a finished run of `command`: success surfaces the captured
/// standard output as an informational trace; a non-zero exit becomes a
/// subprocess error carrying the command name, the exit code (or its
/// sentinel) and the captured standard error.
pub fn interpret_run(command: &str, report: RunReport) -> (r: Result<String, BuildError>)
    ensures
        report.success ==> (r matches Ok(out) && out@ == report.stdout@),
        !report.success ==> (r matches Err(e) && e matches BuildError::Subprocess {
            command: c,
            code,
            stderr,
        } && c@ == command@ && code == spec_exit_code(report.code) && stderr@ == report.stderr@),
{
    if report.success {
        Ok(report.stdout)
    } else {
        let code: i32 = match report.code {
            Some(c) => c,
            None => -1,
        };
        Err(BuildError::Subprocess {
            command: String::from_str(command),
            code,
            stderr: report.stderr,
        })
    }
}

} // verus!
