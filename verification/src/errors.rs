//! The service's error taxonomy and its rendering as text.

use vstd::prelude::*;

verus! {

/// A failure of the print service or of the printer directory.
///
/// Each variant carries a human-readable detail message; `display_string`
/// prefixes it with the variant's category label.
#[derive(Debug, PartialEq, Eq)]
pub enum PrinterError {
    /// The printing gateway rejected the operation; the message is its
    /// raw diagnostic output.
    CupsError(String),
    /// No target printer could be resolved.
    PrinterNotFound(String),
    /// The label request was rejected before any external work.
    InvalidText(String),
    /// A subprocess could not be spawned, written to, or waited on.
    SystemError(String),
}

/// The rendered form of an error: a category label followed by the detail.
pub open spec fn spec_display(e: PrinterError) -> Seq<char> {
    match e {
        PrinterError::CupsError(m) => "CUPS error: "@ + m@,
        PrinterError::PrinterNotFound(m) => "Printer not found: "@ + m@,
        PrinterError::InvalidText(m) => "Invalid text: "@ + m@,
        PrinterError::SystemError(m) => "System error: "@ + m@,
    }
}

impl PrinterError {
    /// Renders the error as `"<category>: <detail>"`.
    pub fn display_string(&self) -> (r: String)
        ensures
            r@ == spec_display(*self),
    {
        match self {
            PrinterError::CupsError(m) => {
                let mut s = String::from_str("CUPS error: ");
                s.append(m.as_str());
                s
            },
            PrinterError::PrinterNotFound(m) => {
                let mut s = String::from_str("Printer not found: ");
                s.append(m.as_str());
                s
            },
            PrinterError::InvalidText(m) => {
                let mut s = String::from_str("Invalid text: ");
                s.append(m.as_str());
                s
            },
            PrinterError::SystemError(m) => {
                let mut s = String::from_str("System error: ");
                s.append(m.as_str());
                s
            },
        }
    }
}

} // verus!
