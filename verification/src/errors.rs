//! The closed error taxonomy of the bootstrap path.

use vstd::prelude::*;

verus! {

/// A failure of the environment bootstrap or of a delegated process.
///
/// Every variant that stems from a subprocess carries the captured
/// diagnostic bytes (its standard-error text), so a caller can surface the
/// underlying tool's own words rather than a bare category label.
#[derive(Debug)]
pub enum SetupError {
    /// A command invocation failed; the bytes are its captured diagnostics.
    CommandFailed(Vec<u8>),
    /// An operating-system level failure; the bytes are its description.
    IoError(Vec<u8>),
    /// The package-manager tool was still uninvokable after an install
    /// that reported success.
    UvNotFound,
    /// Creating the virtual environment failed; the bytes are the captured
    /// standard-error text of the creation command.
    VenvCreationFailed(Vec<u8>),
    /// Installing the requirement set failed; the bytes are the captured
    /// standard-error text of the install command.
    RequirementsInstallFailed(Vec<u8>),
}

impl SetupError {
    /// The captured diagnostic bytes attached to this error, if any.
    pub fn diagnostic(&self) -> (r: Option<&Vec<u8>>)
        ensures
            match self {
                SetupError::CommandFailed(d) => r == Some(d),
                SetupError::IoError(d) => r == Some(d),
                SetupError::UvNotFound => r is None,
                SetupError::VenvCreationFailed(d) => r == Some(d),
                SetupError::RequirementsInstallFailed(d) => r == Some(d),
            },
    {
        match self {
            SetupError::CommandFailed(d) => Some(d),
            SetupError::IoError(d) => Some(d),
            SetupError::UvNotFound => None,
            SetupError::VenvCreationFailed(d) => Some(d),
            SetupError::RequirementsInstallFailed(d) => Some(d),
        }
    }
}

} // verus!
