//! The status events the pipeline reports to the external sink.

use vstd::prelude::*;
use vstd::string::StringExecFns;

verus! {

/// One status event per pipeline stage transition. Delivery is purely
/// observational: the sink cannot influence the pipeline's outcome.
pub enum Event {
    NoPrintersFound,
    PrinterSelected { name: String },
    SelectionFallback { requested: String, actual: String },
    PrintSucceeded { name: String },
    PrintFailed { name: String, reason: String },
    ArtifactWriteFailed { reason: String },
}

impl Event {
    /// The human-readable line forwarded to the event sink.
    pub open spec fn message_spec(self) -> Seq<char> {
        match self {
            Event::NoPrintersFound => "No printers available"@,
            Event::PrinterSelected { name } => "Printing to: "@ + name@,
            Event::SelectionFallback { requested, actual } => "Printer '"@ + requested@
                + "' not available, printing to: "@ + actual@,
            Event::PrintSucceeded { name } => "Printing succeeded on: "@ + name@,
            Event::PrintFailed { name, reason } => "Printing failed on "@ + name@ + ": "@
                + reason@,
            Event::ArtifactWriteFailed { reason } => "Failed to write receipt file: "@ + reason@,
        }
    }

    /// Renders the event as the line handed to the sink.
    pub fn message(&self) -> (r: String)
        ensures
            r@ == self.message_spec(),
    {
        match self {
            Event::NoPrintersFound => "No printers available".to_owned(),
            Event::PrinterSelected { name } => {
                let mut m = "Printing to: ".to_owned();
                m.append(name.as_str());
                m
            },
            Event::SelectionFallback { requested, actual } => {
                let mut m = "Printer '".to_owned();
                m.append(requested.as_str());
                m.append("' not available, printing to: ");
                m.append(actual.as_str());
                m
            },
            Event::PrintSucceeded { name } => {
                let mut m = "Printing succeeded on: ".to_owned();
                m.append(name.as_str());
                m
            },
            Event::PrintFailed { name, reason } => {
                let mut m = "Printing failed on ".to_owned();
                m.append(name.as_str());
                m.append(": ");
                m.append(reason.as_str());
                m
            },
            Event::ArtifactWriteFailed { reason } => {
                let mut m = "Failed to write receipt file: ".to_owned();
                m.append(reason.as_str());
                m
            },
        }
    }
}

} // verus!
