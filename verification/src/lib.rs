//! Torchlings: a learning-exercise runner.
//!
//! The library holds the logic of the runner: the bootstrap state machine
//! that brings a Python environment to a ready state, the reconciliation of
//! the required package set against an installed-package listing, the
//! construction of the commands handed to the package-manager tool, the
//! mapping of a delegated test run's exit status to a result, and the
//! filtering rules of exercise-file discovery. Everything that touches the
//! outside world (spawning processes, walking directories, printing) lives
//! outside the library and exchanges plain values with it.

use vstd::prelude::*;
use vstd::string::StrSliceExecFns;
use vstd::string::StringSliceAdditionalSpecFns;

pub mod bootstrap;
pub mod bytes;
pub mod commands;
pub mod delegate;
pub mod discovery;
mod errors;
pub mod packages;
pub mod process;

pub use errors::SetupError;

verus! {

/// The reserved name of the managed virtual environment directory,
/// distinguishing it from any environment a user created themselves.
pub open spec fn spec_venv_name() -> Seq<u8> {
    ".torchlings".spec_bytes()
}

/// The reserved name of the managed virtual environment directory.
pub fn venv_name() -> (r: Vec<u8>)
    ensures
        r@ == spec_venv_name(),
{
    ".torchlings".as_bytes_vec()
}

} // verus!
