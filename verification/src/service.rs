//! The print service: validating a label request, resolving the target
//! printer, formatting the label text, describing the submit invocation,
//! and mapping the gateway's outcome to a job identifier or a typed error.

use vstd::prelude::*;

use crate::errors::PrinterError;
use crate::errors::spec_display;
use crate::text::chars_of;
use crate::text::contains_non_space;
use crate::text::find_first_match;
use crate::text::find_line_end;
use crate::text::first_match;
use crate::text::has_non_space;
use crate::text::join_strings;
use crate::text::join_with;
use crate::text::lemma_first_match_props;
use crate::text::line_end;
use crate::text::skip_spaces;
use crate::text::skip_token;
use crate::text::token_end;
use crate::text::token_start;

verus! {

/// A request's label lines are acceptable exactly when the first line is
/// present and non-empty after trimming whitespace; the remaining lines are
/// free-form and optional.
pub open spec fn valid_lines(lines: Seq<Option<Seq<char>>>) -> bool {
    lines.len() > 0 && lines[0] is Some && has_non_space(lines[0]->0)
}

/// How the target printer will be chosen for a submission.
#[derive(Debug)]
pub enum PrinterChoice {
    /// The caller named the printer; the directory is not consulted.
    Named(String),
    /// No override was given: the directory must be queried and searched.
    Discover,
}

/// Validates a label request and resolves how the target printer is chosen.
///
/// A first line that is absent or empty after trimming whitespace is
/// rejected here, before any external work is requested. With a
/// printer-name override the choice is that name and discovery is never
/// requested; without one the choice is discovery.
pub fn begin_submit(lines: &Vec<Option<String>>, printer_name: &Option<String>) -> (r: Result<
    PrinterChoice,
    PrinterError,
>)
    ensures
        !valid_lines(lines.deep_view()) ==> (r matches Err(e) && e matches PrinterError::InvalidText(
            m,
        ) && m@ == "First line cannot be empty"@),
        valid_lines(lines.deep_view()) && printer_name is Some ==> (r matches Ok(c)
            && c matches PrinterChoice::Named(p) && p@ == printer_name->0@),
        valid_lines(lines.deep_view()) && printer_name is None ==> (r matches Ok(c)
            && c is Discover),
{
    let invalid = if lines.len() == 0 {
        true
    } else {
        match &lines[0] {
            None => true,
            Some(first) => !contains_non_space(first.as_str()),
        }
    };
    if invalid {
        return Err(PrinterError::InvalidText(String::from_str("First line cannot be empty")));
    }
    match printer_name {
        Some(name) => Ok(PrinterChoice::Named(name.clone())),
        None => Ok(PrinterChoice::Discover),
    }
}

/// The supplied lines that take part in the label: present and non-empty,
/// in their given order.
pub open spec fn present_lines(lines: Seq<Option<Seq<char>>>) -> Seq<Seq<char>>
    decreases lines.len(),
{
    if lines.len() == 0 {
        Seq::empty()
    } else {
        let rest = present_lines(lines.drop_first());
        match lines[0] {
            Some(l) => if l.len() > 0 {
                seq![l] + rest
            } else {
                rest
            },
            None => rest,
        }
    }
}

/// The document handed to the gateway: two leading blank lines (a fixed
/// offset for label stock positioning), then the present lines joined by
/// newlines.
pub open spec fn label_text(lines: Seq<Option<Seq<char>>>) -> Seq<char> {
    "\n\n"@ + join_with(present_lines(lines), "\n"@)
}

/// Formats the label document exactly as `label_text` describes.
pub fn format_label_text(lines: &Vec<Option<String>>) -> (r: String)
    ensures
        r@ == label_text(lines.deep_view()),
{
    let ghost all = lines.deep_view();
    let mut present: Vec<String> = Vec::new();
    let mut i: usize = 0;
    proof {
        assert(all.skip(0) =~= all);
    }
    while i < lines.len()
        invariant
            i <= lines@.len(),
            all == lines.deep_view(),
            all.len() == lines@.len(),
            present_lines(all) == present.deep_view() + present_lines(all.skip(i as int)),
        decreases lines@.len() - i,
    {
        let ghost pre = present.deep_view();
        proof {
            assert(all.skip(i as int)[0] == all[i as int]);
            assert(all.skip(i as int).drop_first() =~= all.skip(i + 1));
        }
        match &lines[i] {
            Some(line) => {
                if !line.as_str().is_empty() {
                    present.push(line.clone());
                    proof {
                        assert(present.deep_view() =~= pre.push(line@));
                        assert(pre.push(line@) + present_lines(all.skip(i + 1)) =~= pre + (seq![
                            line@,
                        ] + present_lines(all.skip(i + 1))));
                    }
                }
            },
            None => {},
        }
        i = i + 1;
    }
    proof {
        assert(all.skip(lines@.len() as int) =~= Seq::<Option<Seq<char>>>::empty());
        assert(present.deep_view() + present_lines(all.skip(lines@.len() as int))
            =~= present.deep_view());
    }
    let joined = join_strings(&present, "\n");
    let mut r = String::from_str("\n\n");
    r.append(joined.as_str());
    r
}

/// The media size handed to the gateway: the requested label size, or the
/// fixed default label-stock code when none was given.
pub open spec fn media_of(label_size: Option<Seq<char>>) -> Seq<char> {
    match label_size {
        Some(s) => s,
        None => "30252"@,
    }
}

/// The argument list of the gateway's submit command: the destination
/// printer, a job title derived from the fallback identifier, the media
/// size, fit-to-page scaling, and a fixed orientation.
pub open spec fn lp_args(printer: Seq<char>, job_id: Seq<char>, media: Seq<char>) -> Seq<
    Seq<char>,
> {
    seq![
        "-d"@,
        printer,
        "-t"@,
        "Label-"@ + job_id,
        "-o"@,
        "media="@ + media,
        "-o"@,
        "fit-to-page"@,
        "-o"@,
        "orientation-requested=4"@,
    ]
}

/// One fully prepared submission: everything the gateway's submit command
/// is to be invoked with, plus the fallback job identifier that was
/// generated before the invocation.
pub struct LpJob {
    /// The destination printer name.
    pub printer: String,
    /// A locally generated unique identifier; returned to the caller only
    /// if the gateway's output reports no identifier of its own.
    pub fallback_job_id: String,
    /// The submit command's arguments, as `lp_args` describes.
    pub args: Vec<String>,
    /// The document body, handed to the command's standard input.
    pub document: String,
}

/// A lowercase hexadecimal digit.
pub open spec fn is_lower_hex_digit(c: char) -> bool {
    (48 <= c as int && c as int <= 57) || (97 <= c as int && c as int <= 102)
}

/// The shape of a locally generated job identifier: the hyphenated UUID
/// form — 36 characters, hyphens at positions 8, 13, 18 and 23, lowercase
/// hexadecimal digits everywhere else.
pub open spec fn is_job_id_shape(s: Seq<char>) -> bool {
    &&& s.len() == 36
    &&& s[8] == '-' && s[13] == '-' && s[18] == '-' && s[23] == '-'
    &&& forall|i: int|
        0 <= i < 36 && i != 8 && i != 13 && i != 18 && i != 23 ==> is_lower_hex_digit(s[i])
}

/// Relies on uuid::Uuid::new_v4 and Uuid's Display impl: a freshly drawn
/// random version-4 UUID, rendered in the hyphenated lowercase form, whose
/// shape `is_job_id_shape` states. Nothing more is assumed: the value
/// depends on the process's randomness source.
#[verifier::external_body]
fn new_job_id() -> (r: String)
    ensures
        is_job_id_shape(r@),
{
    uuid::Uuid::new_v4().to_string()
}

/// Prepares a submission: generates the fallback identifier, formats the
/// document, and lays out the submit command's arguments.
pub fn prepare_job(lines: &Vec<Option<String>>, printer: String, label_size: &Option<String>) -> (j:
    LpJob)
    ensures
        j.printer@ == printer@,
        is_job_id_shape(j.fallback_job_id@),
        j.args.deep_view() == lp_args(
            printer@,
            j.fallback_job_id@,
            media_of(label_size.deep_view()),
        ),
        j.document@ == label_text(lines.deep_view()),
{
    let fallback = new_job_id();
    let document = format_label_text(lines);
    let media = match label_size {
        Some(s) => s.clone(),
        None => String::from_str("30252"),
    };
    let mut args: Vec<String> = Vec::new();
    args.push(String::from_str("-d"));
    args.push(printer.clone());
    args.push(String::from_str("-t"));
    args.push(String::from_str("Label-").concat(fallback.as_str()));
    args.push(String::from_str("-o"));
    args.push(String::from_str("media=").concat(media.as_str()));
    args.push(String::from_str("-o"));
    args.push(String::from_str("fit-to-page"));
    args.push(String::from_str("-o"));
    args.push(String::from_str("orientation-requested=4"));
    proof {
        assert(args.deep_view() =~= lp_args(
            printer@,
            fallback@,
            media_of(label_size.deep_view()),
        ));
    }
    LpJob { printer, fallback_job_id: fallback, args, document }
}

/// The job identifier owed to the caller after a successful submit: when
/// the output's first line shows the pattern `request id is <id>`, the
/// `<id>` is the whitespace-delimited token immediately following the first
/// occurrence of that marker; otherwise — no marker, or nothing after it —
/// the fallback identifier.
pub open spec fn submit_job_id(out: Seq<char>, fallback: Seq<char>) -> Seq<char> {
    let e = line_end(out, 0);
    let marker = "request id is"@;
    let k = first_match(out, 0, e, marker);
    if k < e {
        let a = token_start(out, k + marker.len(), e);
        if a < e {
            out.subrange(a, token_end(out, a, e))
        } else {
            fallback
        }
    } else {
        fallback
    }
}

/// Maps the submit command's outcome. A failing exit carries the raw
/// diagnostic text as a gateway error; a successful exit yields the
/// gateway-reported identifier when its output shows one, and the fallback
/// identifier otherwise, exactly as `submit_job_id` describes.
pub fn interpret_submit_outcome(
    success: bool,
    stdout: &String,
    stderr: &String,
    fallback_job_id: String,
) -> (r: Result<String, PrinterError>)
    ensures
        !success ==> (r matches Err(e) && e matches PrinterError::CupsError(m) && m@ == stderr@),
        success ==> (r matches Ok(id) && id@ == submit_job_id(stdout@, fallback_job_id@)),
{
    if !success {
        return Err(PrinterError::CupsError(stderr.clone()));
    }
    let cs = chars_of(stdout.as_str());
    let e = find_line_end(&cs, 0);
    let marker = chars_of("request id is");
    proof {
        reveal_strlit("request id is");
    }
    let k = find_first_match(&cs, 0, e, &marker);
    if k < e {
        proof {
            lemma_first_match_props(cs@, 0, e as int, marker@);
        }
        let a = skip_spaces(&cs, k + marker.len(), e);
        if a < e {
            let b = skip_token(&cs, a, e);
            let id = stdout.as_str().substring_char(a, b).to_owned();
            return Ok(id);
        }
        return Ok(fallback_job_id);
    }
    Ok(fallback_job_id)
}

/// The body of the service's reply to a submission: a success flag, a
/// message, and the job identifier when one was issued.
pub struct PrintResponse {
    pub success: bool,
    pub message: String,
    pub job_id: Option<String>,
}

/// Renders a submission outcome as the service's reply: success carries the
/// job identifier, and any failure carries the rendered error prefixed with
/// `"Print failed: "` and no identifier.
pub fn print_response(outcome: Result<String, PrinterError>) -> (r: PrintResponse)
    ensures
        outcome matches Ok(id) ==> (r.success && r.message@ == "Print job submitted successfully"@
            && (r.job_id matches Some(j) && j@ == id@)),
        outcome matches Err(e) ==> (!r.success && r.message@ == "Print failed: "@ + spec_display(e)
            && r.job_id is None),
{
    match outcome {
        Ok(id) => PrintResponse {
            success: true,
            message: String::from_str("Print job submitted successfully"),
            job_id: Some(id),
        },
        Err(e) => {
            let mut m = String::from_str("Print failed: ");
            let detail = e.display_string();
            m.append(detail.as_str());
            PrintResponse { success: false, message: m, job_id: None }
        },
    }
}

} // verus!
