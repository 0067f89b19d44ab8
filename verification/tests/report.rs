use folsec_auditor::reporter::{generate_html_report, html_escape, html_report, ReportValues};

fn values<'a>(root: &'a str, findings: &'a str, summary: &'a str, errors: &'a str) -> ReportValues<'a> {
    ReportValues {
        scan_root: root,
        scan_time: "2024-05-06 07:08:09",
        findings_json: findings,
        summary_json: summary,
        errors_json: errors,
    }
}

#[test]
fn markup_is_escaped() {
    assert_eq!(html_escape("a<b>&\"c'"), "a&lt;b&gt;&amp;&quot;c&#39;");
    assert_eq!(html_escape("&amp;"), "&amp;amp;");
    assert_eq!(html_escape("C:\\Ünicode"), "C:\\Ünicode");
    assert_eq!(html_escape(""), "");
}

#[test]
fn report_embeds_the_data() {
    let html = html_report(&values("C:\\<HR>", "[1]", "{\"a\": 2}", "[]"));
    assert!(html.starts_with("<!DOCTYPE html>\n<html lang=\"en\">"));
    assert!(html.ends_with("</body>\n</html>"));
    assert!(html.contains("  <title>FolSec NTFS Audit Report — C:\\&lt;HR&gt;</title>\n"));
    assert!(html.contains("        <div>Scan root: <span>C:\\&lt;HR&gt;</span></div>\n        <div>Generated: <span>2024-05-06 07:08:09</span></div>\n"));
    assert!(html.contains("    window.__FOLSEC_DATA__ = {\n      findings: [1],\n      summary:  {\"a\": 2},\n      errors:   []\n    };\n"));
    assert!(!html.contains("__SCAN_ROOT__"));
    assert!(!html.contains("__SCAN_TIME__"));
    assert!(!html.contains("_JSON__"));
}

#[test]
fn report_needs_no_network() {
    let html = html_report(&values("r", "[]", "{}", "[]"));
    assert!(html.contains("<style>"));
    assert!(!html.contains("<link"));
    assert!(!html.contains("<script src"));
    assert!(!html.contains("@import"));
}

#[test]
fn values_are_put_in_one_after_the_other() {
    let html = html_report(&values("__SCAN_TIME__", "[\"__ERRORS_JSON__\"]", "{}", "[7]"));
    assert!(html.contains("<title>FolSec NTFS Audit Report — 2024-05-06 07:08:09</title>"));
    assert!(html.contains("      findings: [\"[7]\"],\n"));
    let html = html_report(&values("r", "[]", "{}", "[\"__SCAN_ROOT__\"]"));
    assert!(html.contains("      errors:   [\"__SCAN_ROOT__\"]\n"));
}

#[test]
fn report_carries_the_time() {
    let html = generate_html_report("root", "[]", "{}", "[]");
    let start = html.find("Generated: <span>").unwrap() + "Generated: <span>".len();
    let time = &html[start..start + html[start..].find('<').unwrap()];
    let n = time.len();
    assert!(n >= 19);
    let bytes = time.as_bytes();
    assert_eq!(bytes[n - 3], b':');
    assert_eq!(bytes[n - 6], b':');
    assert_eq!(bytes[n - 9], b' ');
    assert_eq!(bytes[n - 12], b'-');
    assert!(bytes[n - 1].is_ascii_digit());
    assert!(!time.contains('%'));
}
