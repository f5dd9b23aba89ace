use labelprint::begin_submit;
use labelprint::find_dymo_printer;
use labelprint::interpret_submit_outcome;
use labelprint::list_printers_outcome;
use labelprint::parse_printer_list;
use labelprint::prepare_job;
use labelprint::print_response;
use labelprint::PrinterChoice;
use labelprint::PrinterError;

fn s(t: &str) -> String {
    t.to_string()
}

#[test]
fn parse_printer_list_extracts_records() {
    let out = "printer DYMO_LabelWriter is idle.  enabled since Mon\n\
               system default destination: DYMO_LabelWriter\n\
               printer HP_Office is idle.\n\
               no entries\n";
    let names = parse_printer_list(out);
    assert_eq!(names, vec![s("DYMO_LabelWriter"), s("HP_Office")]);
}

#[test]
fn parse_printer_list_ignores_other_lines() {
    assert_eq!(parse_printer_list(""), Vec::<String>::new());
    assert_eq!(parse_printer_list("lpstat: No destinations added.\n"), Vec::<String>::new());
    // The record token must be exact: no partial or differently-cased prefix.
    assert_eq!(parse_printer_list("Printer X is idle\nprinters Y\n"), Vec::<String>::new());
}

#[test]
fn parse_printer_list_handles_missing_newline_and_cr() {
    assert_eq!(parse_printer_list("printer Foo is idle"), vec![s("Foo")]);
    assert_eq!(parse_printer_list("printer   Indented idle\n"), vec![s("Indented")]);
    assert_eq!(parse_printer_list("printer Foo is idle\r\nprinter Bar\r\n"), vec![
        s("Foo"),
        s("Bar"),
    ]);
    // A record line with no second token yields no name.
    assert_eq!(parse_printer_list("printer \nprinter   \n"), Vec::<String>::new());
}

#[test]
fn parse_printer_list_is_idempotent() {
    let out = "printer A one\nprinter B two\n";
    let first = parse_printer_list(out);
    let second = parse_printer_list(out);
    assert_eq!(first, second);
    assert_eq!(first, vec![s("A"), s("B")]);
}

#[test]
fn discovery_matches_case_insensitively_in_any_order() {
    let a = vec![s("HP_Office"), s("DYMO_LabelWriter")];
    assert_eq!(find_dymo_printer(&a).unwrap(), s("DYMO_LabelWriter"));
    let b = vec![s("DYMO_LabelWriter"), s("HP_Office")];
    assert_eq!(find_dymo_printer(&b).unwrap(), s("DYMO_LabelWriter"));
    let c = vec![s("dymo-450-turbo")];
    assert_eq!(find_dymo_printer(&c).unwrap(), s("dymo-450-turbo"));
}

#[test]
fn discovery_picks_first_match() {
    let names = vec![s("HP"), s("Dymo_A"), s("DYMO_B")];
    assert_eq!(find_dymo_printer(&names).unwrap(), s("Dymo_A"));
}

#[test]
fn discovery_with_empty_list_reports_no_printers() {
    let err = find_dymo_printer(&Vec::new()).unwrap_err();
    assert_eq!(err, PrinterError::PrinterNotFound(s("No printers found")));
}

#[test]
fn discovery_without_match_lists_available_printers() {
    let names = vec![s("HP_Office"), s("Brother_QL")];
    let err = find_dymo_printer(&names).unwrap_err();
    assert_eq!(
        err,
        PrinterError::PrinterNotFound(s(
            "No Dymo printer found. Available printers: HP_Office, Brother_QL"
        ))
    );
}

#[test]
fn submit_rejects_empty_or_absent_first_line() {
    let expected = PrinterError::InvalidText(s("First line cannot be empty"));
    let empty_first = vec![Some(s("")), Some(s("second"))];
    assert_eq!(begin_submit(&empty_first, &None).unwrap_err(), expected);
    let absent_first = vec![None, Some(s("second"))];
    assert_eq!(begin_submit(&absent_first, &Some(s("P"))).unwrap_err(), expected);
    let no_lines: Vec<Option<String>> = Vec::new();
    assert_eq!(begin_submit(&no_lines, &None).unwrap_err(), expected);
}

#[test]
fn submit_rejects_whitespace_only_first_line() {
    let expected = PrinterError::InvalidText(s("First line cannot be empty"));
    let spaces = vec![Some(s("   "))];
    assert_eq!(begin_submit(&spaces, &None).unwrap_err(), expected);
    let mixed = vec![Some(s(" \t\r\n ")), Some(s("second"))];
    assert_eq!(begin_submit(&mixed, &Some(s("P"))).unwrap_err(), expected);
    // A single visible character among whitespace is enough.
    let barely = vec![Some(s(" x "))];
    assert!(begin_submit(&barely, &None).is_ok());
}

#[test]
fn submit_with_override_never_discovers() {
    let lines = vec![Some(s("ACME"))];
    let choice = begin_submit(&lines, &Some(s("Office_Printer"))).unwrap();
    match choice {
        PrinterChoice::Named(p) => assert_eq!(p, s("Office_Printer")),
        PrinterChoice::Discover => panic!("discovery requested despite an override"),
    }
}

#[test]
fn submit_without_override_discovers() {
    let lines = vec![Some(s("ACME"))];
    let choice = begin_submit(&lines, &None).unwrap();
    assert!(matches!(choice, PrinterChoice::Discover));
}

#[test]
fn prepared_job_formats_document_with_leading_offset() {
    let lines = vec![Some(s("ACME")), Some(s("Order #5")), Some(s("")), None];
    let job = prepare_job(&lines, s("DYMO_LabelWriter"), &None);
    assert_eq!(job.document, s("\n\nACME\nOrder #5"));
    assert_eq!(job.printer, s("DYMO_LabelWriter"));
}

#[test]
fn prepared_job_builds_submit_arguments() {
    let lines = vec![Some(s("A"))];
    let job = prepare_job(&lines, s("P1"), &None);
    let title = format!("Label-{}", job.fallback_job_id);
    assert_eq!(job.args, vec![
        s("-d"),
        s("P1"),
        s("-t"),
        title,
        s("-o"),
        s("media=30252"),
        s("-o"),
        s("fit-to-page"),
        s("-o"),
        s("orientation-requested=4"),
    ]);
    let sized = prepare_job(&lines, s("P1"), &Some(s("30334")));
    assert_eq!(sized.args[5], s("media=30334"));
}

#[test]
fn prepared_job_fallback_identifier_is_well_formed() {
    let lines = vec![Some(s("A"))];
    let job = prepare_job(&lines, s("P1"), &None);
    let id: Vec<char> = job.fallback_job_id.chars().collect();
    assert_eq!(id.len(), 36);
    for (i, c) in id.iter().enumerate() {
        if i == 8 || i == 13 || i == 18 || i == 23 {
            assert_eq!(*c, '-');
        } else {
            assert!(c.is_ascii_hexdigit() && !c.is_ascii_uppercase());
        }
    }
}

#[test]
fn failing_exit_maps_to_cups_error() {
    let r = interpret_submit_outcome(false, &s(""), &s("media size not supported"), s("fb"));
    assert_eq!(r.unwrap_err(), PrinterError::CupsError(s("media size not supported")));
}

#[test]
fn reported_request_id_wins_over_fallback() {
    let r = interpret_submit_outcome(true, &s("request id is dymo-42\n"), &s(""), s("fb"));
    assert_eq!(r.unwrap(), s("dymo-42"));
}

#[test]
fn reported_request_id_is_the_token_after_the_marker() {
    // A gateway may append a suffix after the id; the id is the token
    // immediately following the marker, not whatever ends the line.
    let out = s("request id is DYMO_LabelWriter-42 (1 file(s))\n");
    let r = interpret_submit_outcome(true, &out, &s(""), s("fb"));
    assert_eq!(r.unwrap(), s("DYMO_LabelWriter-42"));
    let spaced = s("request id is   x-1  done\n");
    let r2 = interpret_submit_outcome(true, &spaced, &s(""), s("fb"));
    assert_eq!(r2.unwrap(), s("x-1"));
}

#[test]
fn marker_without_id_falls_back() {
    let r = interpret_submit_outcome(true, &s("request id is\n"), &s(""), s("fb-9"));
    assert_eq!(r.unwrap(), s("fb-9"));
    let r2 = interpret_submit_outcome(true, &s("request id is   \n"), &s(""), s("fb-9"));
    assert_eq!(r2.unwrap(), s("fb-9"));
}

#[test]
fn unparseable_output_falls_back_to_generated_id() {
    let r = interpret_submit_outcome(true, &s(""), &s(""), s("fb-1"));
    assert_eq!(r.unwrap(), s("fb-1"));
    let r2 = interpret_submit_outcome(true, &s("queued\n"), &s(""), s("fb-2"));
    assert_eq!(r2.unwrap(), s("fb-2"));
    // The marker must be on the first line to count.
    let r3 = interpret_submit_outcome(true, &s("queued\nrequest id is x\n"), &s(""), s("fb-3"));
    assert_eq!(r3.unwrap(), s("fb-3"));
}

#[test]
fn listing_outcome_maps_exit_and_output() {
    let ok = list_printers_outcome(true, &s("printer A x\n"), &s(""));
    assert_eq!(ok.unwrap(), vec![s("A")]);
    let err = list_printers_outcome(false, &s(""), &s("lpstat failed"));
    assert_eq!(err.unwrap_err(), PrinterError::CupsError(s("lpstat failed")));
}

#[test]
fn error_rendering_prefixes_category() {
    assert_eq!(PrinterError::CupsError(s("x")).display_string(), s("CUPS error: x"));
    assert_eq!(
        PrinterError::PrinterNotFound(s("x")).display_string(),
        s("Printer not found: x")
    );
    assert_eq!(PrinterError::InvalidText(s("x")).display_string(), s("Invalid text: x"));
    assert_eq!(PrinterError::SystemError(s("x")).display_string(), s("System error: x"));
}

#[test]
fn response_reports_success_with_job_id() {
    let r = print_response(Ok(s("dymo-42")));
    assert!(r.success);
    assert_eq!(r.message, s("Print job submitted successfully"));
    assert_eq!(r.job_id, Some(s("dymo-42")));
}

#[test]
fn response_reports_failure_without_job_id() {
    let r = print_response(Err(PrinterError::SystemError(s("boom"))));
    assert!(!r.success);
    assert_eq!(r.message, s("Print failed: System error: boom"));
    assert_eq!(r.job_id, None);
}

#[test]
fn submission_without_any_dymo_printer_fails_end_to_end() {
    let lines = vec![Some(s("ACME")), Some(s("Order #5")), None, None];
    let choice = begin_submit(&lines, &None).unwrap();
    assert!(matches!(choice, PrinterChoice::Discover));
    let printers = list_printers_outcome(true, &s(""), &s("")).unwrap();
    assert_eq!(printers, Vec::<String>::new());
    let err = find_dymo_printer(&printers).unwrap_err();
    let r = print_response(Err(err));
    assert!(!r.success);
    assert_eq!(r.message, s("Print failed: Printer not found: No printers found"));
    assert_eq!(r.job_id, None);
}
