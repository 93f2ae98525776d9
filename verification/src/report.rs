//! The run's final report: what is printed where, and the process exit code,
//! decided from the download's outcome.

use vstd::prelude::*;
use vstd::string::StringExecFns;
use crate::error::YtdlError;

verus! {

/// The line printed to standard output when the download succeeded and the
/// output was written into `dir`.
pub open spec fn success_line_spec(dir: Seq<char>) -> Seq<char> {
    "File downloaded at: "@ + dir
}

/// How one run ends: at most one line for standard output, at most one line
/// for standard error, and the process exit code.
pub struct RunReport {
    /// The final line for standard output; only a success produces one.
    pub stdout_line: Option<String>,
    /// The diagnostic line for standard error; only a failure produces one.
    pub stderr_line: Option<String>,
    /// The process exit code: zero exactly on success.
    pub exit_code: i32,
}

/// Decide the report for a finished run. A success reports the output
/// directory on standard output and exits zero; every failure reports its
/// diagnostic on standard error, prints no output path, and exits non-zero.
pub fn report(outcome: &Result<String, YtdlError>) -> (r: RunReport)
    ensures
        outcome matches Ok(dir) ==> {
            &&& r.exit_code == 0
            &&& r.stderr_line is None
            &&& r.stdout_line matches Some(line) && line@ == success_line_spec(dir@)
        },
        outcome matches Err(e) ==> {
            &&& r.exit_code == 1
            &&& r.stdout_line is None
            &&& r.stderr_line matches Some(line) && line@ == e.message_spec()
        },
{
    match outcome {
        Ok(dir) => RunReport {
            stdout_line: Some(String::from_str("File downloaded at: ").concat(dir.as_str())),
            stderr_line: None,
            exit_code: 0,
        },
        Err(err) => RunReport {
            stdout_line: None,
            stderr_line: Some(err.message()),
            exit_code: 1,
        },
    }
}

} // verus!
