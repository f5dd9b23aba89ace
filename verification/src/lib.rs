//! Verified core of a small label-printing service.
//!
//! The library holds everything the service decides or computes: validating a
//! label request, parsing the gateway's printer listing, discovering a target
//! printer, formatting the label text, building the submit invocation, and
//! mapping subprocess outcomes to a job identifier or a typed error. The
//! surrounding binary only moves bytes: it runs the gateway commands and
//! serves HTTP, handing plain values in and out of this crate.

use vstd::prelude::*;

pub mod directory;
pub mod errors;
pub mod service;
pub mod text;

verus! {

pub use directory::contains_dymo;
pub use directory::find_dymo_printer;
pub use directory::first_dymo;
pub use directory::lemma_no_match_means_none;
pub use directory::lemma_parse_printers_deterministic;
pub use directory::lemma_unique_match_selected;
pub use directory::list_printers_outcome;
pub use directory::parse_printer_list;
pub use directory::parse_printers;
pub use errors::PrinterError;
pub use errors::spec_display;
pub use service::LpJob;
pub use service::PrintResponse;
pub use service::PrinterChoice;
pub use service::begin_submit;
pub use service::format_label_text;
pub use service::interpret_submit_outcome;
pub use service::label_text;
pub use service::lp_args;
pub use service::media_of;
pub use service::prepare_job;
pub use service::print_response;
pub use service::submit_job_id;
pub use service::valid_lines;

} // verus!
