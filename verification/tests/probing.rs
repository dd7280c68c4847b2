use receipt_pipeline::probe::{interpret_probe_output, may_enumerate};

#[test]
fn failed_probe_means_no_printers() {
    assert!(!interpret_probe_output(&None));
}

#[test]
fn empty_output_means_no_printers() {
    assert!(!interpret_probe_output(&Some(String::new())));
}

#[test]
fn whitespace_only_output_means_no_printers() {
    assert!(!interpret_probe_output(&Some(" \r\n\t ".to_string())));
}

#[test]
fn zero_count_means_no_printers() {
    assert!(!interpret_probe_output(&Some("0".to_string())));
    assert!(!interpret_probe_output(&Some("000".to_string())));
}

#[test]
fn negative_count_means_no_printers() {
    assert!(!interpret_probe_output(&Some("-1".to_string())));
}

#[test]
fn positive_count_means_printers() {
    assert!(interpret_probe_output(&Some("1".to_string())));
    assert!(interpret_probe_output(&Some("12".to_string())));
    assert!(interpret_probe_output(&Some("  3 \r\n".to_string())));
}

#[test]
fn ambiguous_output_is_read_as_printers_may_exist() {
    assert!(interpret_probe_output(&Some("two printers".to_string())));
    assert!(interpret_probe_output(&Some("-".to_string())));
    assert!(interpret_probe_output(&Some("3 printers".to_string())));
}

#[test]
fn platform_without_the_defect_always_enumerates() {
    assert!(may_enumerate(false, &None));
    assert!(may_enumerate(false, &Some("0".to_string())));
    assert!(may_enumerate(false, &Some("garbage".to_string())));
}

#[test]
fn defect_platform_follows_the_probe() {
    assert!(!may_enumerate(true, &Some("0".to_string())));
    assert!(!may_enumerate(true, &None));
    assert!(may_enumerate(true, &Some("2".to_string())));
}
