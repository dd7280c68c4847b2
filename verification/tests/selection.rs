use receipt_pipeline::discovery::printer_names;
use receipt_pipeline::error::PrintError;
use receipt_pipeline::printer::Printer;
use receipt_pipeline::selector::select;

fn snapshot(names: &[&str]) -> Vec<Printer> {
    names
        .iter()
        .enumerate()
        .map(|(i, n)| Printer::new((*n).to_string(), i))
        .collect()
}

#[test]
fn empty_list_fails_without_hint() {
    let printers = snapshot(&[]);
    let r = select(&printers, &None);
    assert!(matches!(r, Err(PrintError::NoPrintersAvailable)));
}

#[test]
fn empty_list_fails_whatever_the_hint() {
    let printers = snapshot(&[]);
    let r = select(&printers, &Some("Epson-1".to_string()));
    assert!(matches!(r, Err(PrintError::NoPrintersAvailable)));
}

#[test]
fn exact_hint_selects_that_entry() {
    let printers = snapshot(&["Epson-1", "Star-2", "HP-3"]);
    let sel = select(&printers, &Some("Star-2".to_string())).unwrap();
    assert_eq!(sel.index, 1);
    assert!(!sel.fallback);
}

#[test]
fn hint_matching_is_case_sensitive() {
    let printers = snapshot(&["Epson-1", "Star-2"]);
    let sel = select(&printers, &Some("star-2".to_string())).unwrap();
    assert_eq!(sel.index, 0);
    assert!(sel.fallback);
}

#[test]
fn unmatched_hint_falls_back_to_first() {
    let printers = snapshot(&["Epson-1", "Star-2"]);
    let sel = select(&printers, &Some("Missing".to_string())).unwrap();
    assert_eq!(sel.index, 0);
    assert!(sel.fallback);
}

#[test]
fn absent_hint_selects_first() {
    let printers = snapshot(&["Epson-1", "Star-2"]);
    let sel = select(&printers, &None).unwrap();
    assert_eq!(sel.index, 0);
    assert!(!sel.fallback);
}

#[test]
fn names_keep_the_snapshot_order() {
    let printers = snapshot(&["Epson-1", "Star-2"]);
    assert_eq!(
        printer_names(&printers),
        vec!["Epson-1".to_string(), "Star-2".to_string()]
    );
    assert_eq!(printer_names(&snapshot(&[])), Vec::<String>::new());
}

#[test]
fn duplicate_name_takes_the_earliest() {
    let mut printers = snapshot(&["Epson-1", "Star-2"]);
    printers.push(Printer::new("Star-2".to_string(), 2));
    let sel = select(&printers, &Some("Star-2".to_string())).unwrap();
    assert_eq!(sel.index, 1);
    assert!(!sel.fallback);
}
