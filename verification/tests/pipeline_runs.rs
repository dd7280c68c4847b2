use receipt_pipeline::event::Event;
use receipt_pipeline::pipeline::{start, Action, Input, Pipeline, StepOutcome};
use receipt_pipeline::printer::Printer;

fn snapshot(names: &[&str]) -> Vec<Printer> {
    names
        .iter()
        .enumerate()
        .map(|(i, n)| Printer::new((*n).to_string(), i))
        .collect()
}

fn messages(events: &[Event]) -> Vec<String> {
    events.iter().map(|e| e.message()).collect()
}

/// Drives one whole invocation against a faked backend: the given snapshot,
/// a write outcome, and a submission outcome. Returns the finished machine,
/// every event message in order, and the count of each action seen.
struct Run {
    machine: Pipeline,
    lines: Vec<String>,
    enumerations: usize,
    writes_asked: usize,
    removes_asked: usize,
    submitted_job_names: Vec<String>,
    submitted_printers: Vec<String>,
    markup: Option<String>,
}

fn run(
    defect_platform: bool,
    probe_output: Option<String>,
    printers: Vec<Printer>,
    write_error: Option<String>,
    submit_error: Option<String>,
    hint: Option<String>,
    content: &str,
) -> Run {
    let (mut machine, mut action) = start(defect_platform, hint, content.to_string());
    let mut lines: Vec<String> = Vec::new();
    let mut enumerations = 0;
    let mut writes_asked = 0;
    let mut removes_asked = 0;
    let mut submitted_job_names: Vec<String> = Vec::new();
    let mut submitted_printers: Vec<String> = Vec::new();
    let mut markup: Option<String> = None;
    let mut printers = Some(printers);
    loop {
        let input = match action {
            Action::RunProbe => Input::ProbeOutput { output: probe_output.clone() },
            Action::EnumeratePrinters => {
                enumerations += 1;
                Input::PrinterList { printers: printers.take().unwrap() }
            }
            Action::WriteArtifact { markup: m } => {
                writes_asked += 1;
                markup = Some(m);
                Input::WriteOutcome { error: write_error.clone() }
            }
            Action::SubmitJob { printer, job_name } => {
                submitted_printers.push(printer.name.clone());
                submitted_job_names.push(job_name);
                Input::SubmitOutcome { error: submit_error.clone() }
            }
            Action::RemoveArtifact => {
                removes_asked += 1;
                Input::ArtifactRemoved
            }
            Action::Report => break,
        };
        let StepOutcome { machine: next, events, action: next_action } = machine.step(input);
        lines.extend(messages(&events));
        machine = next;
        action = next_action;
    }
    Run {
        machine,
        lines,
        enumerations,
        writes_asked,
        removes_asked,
        submitted_job_names,
        submitted_printers,
        markup,
    }
}

#[test]
fn no_printers_fails_with_the_verbatim_diagnostic() {
    let r = run(false, None, snapshot(&[]), None, None, None, "hello");
    assert_eq!(r.machine.result(), Err("No printers available".to_string()));
    assert_eq!(r.lines, vec!["No printers available".to_string()]);
    assert_eq!(r.writes_asked, 0);
    assert_eq!(r.removes_asked, 0);
}

#[test]
fn exact_hint_prints_and_cleans_up() {
    let r = run(
        false,
        None,
        snapshot(&["Epson-1"]),
        None,
        None,
        Some("Epson-1".to_string()),
        "hello",
    );
    assert_eq!(r.machine.result(), Ok(()));
    assert_eq!(
        r.lines,
        vec![
            "Printing to: Epson-1".to_string(),
            "Printing succeeded on: Epson-1".to_string(),
        ]
    );
    assert_eq!(r.submitted_printers, vec!["Epson-1".to_string()]);
    assert_eq!(r.submitted_job_names, vec!["Receipt Print Job".to_string()]);
    assert_eq!(r.writes_asked, 1);
    assert_eq!(r.removes_asked, 1);
    let markup = r.markup.unwrap();
    assert!(markup.contains("hello"));
    assert!(markup.starts_with("<!DOCTYPE html>"));
}

#[test]
fn unmatched_hint_falls_back_to_the_first_printer() {
    let r = run(
        false,
        None,
        snapshot(&["Epson-1", "Star-2"]),
        None,
        None,
        Some("Missing".to_string()),
        "hello",
    );
    assert_eq!(r.machine.result(), Ok(()));
    assert_eq!(r.lines[0], "Printer 'Missing' not available, printing to: Epson-1");
    assert_eq!(r.submitted_printers, vec!["Epson-1".to_string()]);
}

#[test]
fn submission_failure_surfaces_and_still_removes_the_artifact() {
    let r = run(
        false,
        None,
        snapshot(&["Epson-1"]),
        None,
        Some("driver error".to_string()),
        None,
        "hello",
    );
    assert_eq!(r.machine.result(), Err("Printing failed: driver error".to_string()));
    assert!(r.lines.contains(&"Printing failed on Epson-1: driver error".to_string()));
    assert_eq!(r.writes_asked, 1);
    assert_eq!(r.removes_asked, 1);
}

#[test]
fn write_failure_surfaces_and_nothing_is_removed() {
    let r = run(
        false,
        None,
        snapshot(&["Epson-1"]),
        Some("disk full".to_string()),
        None,
        None,
        "hello",
    );
    assert_eq!(
        r.machine.result(),
        Err("Failed to write receipt file: disk full".to_string())
    );
    assert!(r.lines.contains(&"Failed to write receipt file: disk full".to_string()));
    assert_eq!(r.writes_asked, 1);
    assert_eq!(r.removes_asked, 0);
}

#[test]
fn success_and_failure_each_remove_exactly_once_per_write() {
    let ok = run(false, None, snapshot(&["Epson-1"]), None, None, None, "x");
    assert_eq!((ok.writes_asked, ok.removes_asked), (1, 1));
    let failed = run(
        false,
        None,
        snapshot(&["Epson-1"]),
        None,
        Some("offline".to_string()),
        None,
        "x",
    );
    assert_eq!((failed.writes_asked, failed.removes_asked), (1, 1));
}

#[test]
fn defect_platform_with_zero_count_never_enumerates() {
    let r = run(
        true,
        Some("0".to_string()),
        snapshot(&["Ghost"]),
        None,
        None,
        None,
        "hello",
    );
    assert_eq!(r.enumerations, 0);
    assert_eq!(r.machine.result(), Err("No printers available".to_string()));
    assert_eq!(r.lines, vec!["No printers available".to_string()]);
}

#[test]
fn defect_platform_with_positive_count_enumerates() {
    let r = run(
        true,
        Some("1\r\n".to_string()),
        snapshot(&["Epson-1"]),
        None,
        None,
        None,
        "hello",
    );
    assert_eq!(r.enumerations, 1);
    assert_eq!(r.machine.result(), Ok(()));
}
