use mail_report::derived::{attachment_summary, domain_of, sender_domain};
use mail_report::headers::HeaderMap;
use mail_report::textutil::{ascii_lowercase, decimal_string, trimmed};

#[test]
fn display_form_address_yields_domain() {
    assert_eq!(domain_of("\"A\" <a@corp.example>"), "corp.example");
}

#[test]
fn address_without_at_yields_fallback() {
    assert_eq!(domain_of("no-domain-here"), "Not able to extract domain");
}

#[test]
fn address_with_two_ats_yields_fallback() {
    assert_eq!(domain_of("a@b@c.example"), "Not able to extract domain");
}

#[test]
fn empty_value_yields_fallback() {
    assert_eq!(domain_of(""), "Not able to extract domain");
    assert_eq!(domain_of("NA"), "Not able to extract domain");
}

#[test]
fn surrounding_whitespace_is_trimmed() {
    assert_eq!(domain_of("  user@plain.example \t"), "plain.example");
}

#[test]
fn only_a_single_trailing_gt_is_stripped() {
    assert_eq!(domain_of("u@d>>"), "d>");
    assert_eq!(domain_of("u@d"), "d");
}

#[test]
fn sender_domain_reads_the_from_header() {
    let mut map = HeaderMap::new();
    map.insert("From".to_string(), "\"A\" <a@corp.example>".to_string());
    assert_eq!(sender_domain(&map), "corp.example");
}

#[test]
fn sender_domain_of_missing_from_is_fallback() {
    let map = HeaderMap::new();
    assert_eq!(sender_domain(&map), "Not able to extract domain");
}

#[test]
fn attachment_with_na_value_counts_as_absent() {
    let mut with_na = HeaderMap::new();
    with_na.insert("Content-Disposition".to_string(), "NA".to_string());
    let parts = vec![with_na];
    let (has, count) = attachment_summary(&parts);
    assert!(!has);
    assert_eq!(count, 0);
}

#[test]
fn attachment_value_is_not_inspected() {
    let mut inline_part = HeaderMap::new();
    inline_part.insert("Content-Disposition".to_string(), "inline".to_string());
    let mut plain_part = HeaderMap::new();
    plain_part.insert("Content-Type".to_string(), "text/plain".to_string());
    let parts = vec![inline_part, plain_part];
    let (has, count) = attachment_summary(&parts);
    assert!(has);
    assert_eq!(count, 1);
}

#[test]
fn lowercase_only_lowers_ascii_letters() {
    assert_eq!(ascii_lowercase("CORP.ExAmple"), "corp.example");
    assert_eq!(ascii_lowercase("abc-123"), "abc-123");
}

#[test]
fn decimal_rendering_is_exact() {
    assert_eq!(decimal_string(0), "0");
    assert_eq!(decimal_string(7), "7");
    assert_eq!(decimal_string(10), "10");
    assert_eq!(decimal_string(907), "907");
}

#[test]
fn trimming_removes_both_ends() {
    assert_eq!(trimmed("  x \t"), "x");
    assert_eq!(trimmed("\r\n"), "");
    assert_eq!(trimmed("inner space kept"), "inner space kept");
}
