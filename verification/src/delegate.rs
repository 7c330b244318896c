//! The test delegate: relaying a delegated test run's outcome.
//!
//! The external test runner is invoked inside the managed environment (the
//! command line comes from [`crate::commands::pytest_command`]); what comes
//! back is reduced here to a binary pass/fail signal taken solely from the
//! exit status, with both output streams passed through verbatim for the
//! caller to surface. Nothing interprets the framework's own output
//! format.

use vstd::prelude::*;
use crate::errors::SetupError;
use crate::process::SpawnReport;

verus! {

/// What the delegate relays of a finished test run: the binary pass/fail
/// signal and both streams, untouched.
pub struct DelegateReport {
    /// The delegated process exited with status zero.
    pub success: bool,
    /// Its standard output, verbatim.
    pub stdout: Vec<u8>,
    /// Its standard error, verbatim.
    pub stderr: Vec<u8>,
}

/// Reduce a test runner invocation to the delegate's report: success is
/// exactly "the process exited zero", and both streams are forwarded
/// verbatim, whether the run passed or failed. A runner that could not be
/// spawned at all is the one failure that yields an error instead of a
/// report.
pub fn pytest_report(report: SpawnReport) -> (r: Result<DelegateReport, SetupError>)
    ensures
        report.spawned ==> (r matches Ok(d) && d.success == report.exit_ok && d.stdout
            == report.stdout && d.stderr == report.stderr),
        !report.spawned ==> (r matches Err(e) && e matches SetupError::IoError(m) && m
            == report.stderr),
{
    if report.spawned {
        Ok(
            DelegateReport {
                success: report.exit_ok,
                stdout: report.stdout,
                stderr: report.stderr,
            },
        )
    } else {
        Err(SetupError::IoError(report.stderr))
    }
}

/// The delegate's terminal result: nothing for a passing run, and for a
/// failing one an invocation-failure error that keeps the run's captured
/// standard-error text with it.
pub fn pytest_outcome(report: DelegateReport) -> (r: Result<(), SetupError>)
    ensures
        report.success <==> r is Ok,
        !report.success ==> (r matches Err(e) && e matches SetupError::CommandFailed(m) && m
            == report.stderr),
{
    if report.success {
        Ok(())
    } else {
        Err(SetupError::CommandFailed(report.stderr))
    }
}

} // verus!
