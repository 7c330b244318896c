//! The plain-value picture of one finished child process.
//!
//! The caller spawns the processes the library asks for and reports each
//! one back through this struct; the library classifies the report and
//! decides, so every decision about a process outcome is made in verified
//! code.

use vstd::prelude::*;

verus! {

/// What became of one attempt to run an external command.
pub struct SpawnReport {
    /// The executable could be invoked at all; when false, the fields
    /// below other than `not_found` and `stderr` carry nothing.
    pub spawned: bool,
    /// Spawning failed because the executable was absent, as opposed to
    /// any other operating-system failure. Meaningful only when
    /// `spawned` is false.
    pub not_found: bool,
    /// The process exited with status zero. Meaningful only when
    /// `spawned` is true.
    pub exit_ok: bool,
    /// The captured standard output.
    pub stdout: Vec<u8>,
    /// The captured standard error; for a failed spawn, the
    /// operating-system error's description.
    pub stderr: Vec<u8>,
}

} // verus!
