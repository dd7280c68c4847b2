//! The errors that cross the pipeline's outer boundary.

use vstd::prelude::*;
use vstd::string::StringExecFns;

verus! {

/// The only failures surfaced to the caller: an empty discovery snapshot, a
/// failed artifact write, or a failed job submission. Every other condition
/// is absorbed into events or safe defaults.
#[derive(Debug)]
pub enum PrintError {
    NoPrintersAvailable,
    ArtifactWriteFailure { reason: String },
    JobSubmissionFailure { reason: String },
}

impl PrintError {
    /// The human-readable diagnostic returned to the caller.
    pub open spec fn message_spec(self) -> Seq<char> {
        match self {
            PrintError::NoPrintersAvailable => "No printers available"@,
            PrintError::ArtifactWriteFailure { reason } => "Failed to write receipt file: "@
                + reason@,
            PrintError::JobSubmissionFailure { reason } => "Printing failed: "@ + reason@,
        }
    }

    /// Renders the diagnostic handed back across the boundary.
    pub fn message(&self) -> (r: String)
        ensures
            r@ == self.message_spec(),
    {
        match self {
            PrintError::NoPrintersAvailable => "No printers available".to_owned(),
            PrintError::ArtifactWriteFailure { reason } => {
                let mut m = "Failed to write receipt file: ".to_owned();
                m.append(reason.as_str());
                m
            },
            PrintError::JobSubmissionFailure { reason } => {
                let mut m = "Printing failed: ".to_owned();
                m.append(reason.as_str());
                m
            },
        }
    }
}

} // verus!
