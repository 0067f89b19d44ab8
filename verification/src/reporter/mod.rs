//! The HTML report.
//!
//! The report is one page that embeds its style, its script and the data of the
//! scan, so that it renders without a network.

pub mod embedding;
pub mod page;

use self::page::{
    ERRORS_JSON, ERRORS_LINE, FINDINGS_JSON, FINDINGS_LINE, PAGE_BODY, PAGE_SCRIPT, PAGE_STYLE,
    PAGE_TOP, ROOT_LINE, SCAN_ROOT, SCAN_TIME, SUMMARY_JSON, SUMMARY_LINE, TIME_LINE, TITLE_LINE,
};
use crate::clock::{is_local_time, now, LOCAL_TIME};
use crate::text::{chars_of, map_chars, replace, replace_all};
use vstd::prelude::*;

verus! {

// ---------------------------------------------------------------------------
// Escaping
// ---------------------------------------------------------------------------

/// A character in the text of a page.
pub open spec fn html_char(c: char) -> Seq<char> {
    if c == '&' {
        "&amp;"@
    } else if c == '<' {
        "&lt;"@
    } else if c == '>' {
        "&gt;"@
    } else if c == '"' {
        "&quot;"@
    } else if c == '\'' {
        "&#39;"@
    } else {
        seq![c]
    }
}

/// A text in a page.
pub open spec fn html_escaped(s: Seq<char>) -> Seq<char> {
    map_chars(s, |c: char| html_char(c))
}

/// Writes a text for use in a page.
pub fn html_escape(s: &str) -> (r: String)
    ensures
        r@ == html_escaped(s@),
{
    let chars = chars_of(s);
    let mut out = String::new();
    let mut k: usize = 0;
    while k < chars.len()
        invariant
            chars@ == s@,
            k <= chars@.len(),
            out@ == html_escaped(s@.take(k as int)),
        decreases chars@.len() - k,
    {
        let ghost before = out@;
        let c = chars[k];
        match c {
            '&' => out.append("&amp;"),
            '<' => out.append("&lt;"),
            '>' => out.append("&gt;"),
            '"' => out.append("&quot;"),
            '\'' => out.append("&#39;"),
            _ => out.push(c),
        }
        proof {
            assert(s@.take(k + 1).drop_last() =~= s@.take(k as int));
            assert(out@ =~= before + html_char(s@[k as int]));
        }
        k += 1;
    }
    assert(s@.take(k as int) =~= s@);
    out
}

// ---------------------------------------------------------------------------
// The page
// ---------------------------------------------------------------------------

/// What a report is made of.
pub struct ReportValues<'a> {
    /// The path that was scanned.
    pub scan_root: &'a str,
    /// When it was scanned.
    pub scan_time: &'a str,
    /// The findings, the summary and the errors of the scan, as JSON.
    pub findings_json: &'a str,
    pub summary_json: &'a str,
    pub errors_json: &'a str,
}

/// What [`ReportValues`] hold.
pub struct ReportView {
    pub scan_root: Seq<char>,
    pub scan_time: Seq<char>,
    pub findings_json: Seq<char>,
    pub summary_json: Seq<char>,
    pub errors_json: Seq<char>,
}

impl<'a> View for ReportValues<'a> {
    type V = ReportView;

    open spec fn view(&self) -> ReportView {
        ReportView {
            scan_root: self.scan_root@,
            scan_time: self.scan_time@,
            findings_json: self.findings_json@,
            summary_json: self.summary_json@,
            errors_json: self.errors_json@,
        }
    }
}

/// A line with the values in the places that stand for them. A value is put in
/// before the places behind it in the list are looked for, so a place that the
/// value itself names is filled as well.
pub open spec fn with_values(line: Seq<char>, v: ReportView) -> Seq<char> {
    let root = replace_all(line, SCAN_ROOT@, html_escaped(v.scan_root));
    let time = replace_all(root, SCAN_TIME@, v.scan_time);
    let findings = replace_all(time, FINDINGS_JSON@, v.findings_json);
    let summary = replace_all(findings, SUMMARY_JSON@, v.summary_json);
    replace_all(summary, ERRORS_JSON@, v.errors_json)
}

/// The report.
pub open spec fn report_text(v: ReportView) -> Seq<char> {
    PAGE_TOP@ + with_values(TITLE_LINE@, v) + PAGE_STYLE@ + with_values(ROOT_LINE@, v)
        + with_values(TIME_LINE@, v) + PAGE_BODY@ + with_values(FINDINGS_LINE@, v) + with_values(
        SUMMARY_LINE@,
        v,
    ) + with_values(ERRORS_LINE@, v) + PAGE_SCRIPT@
}

/// Puts the values into a line.
fn insert_values(line: &str, v: &ReportValues) -> (r: String)
    ensures
        r@ == with_values(line@, v@),
{
    proof {
        lemma_places();
    }
    let escaped_root = html_escape(v.scan_root);
    let root = replace(line, SCAN_ROOT, escaped_root.as_str());
    let time = replace(root.as_str(), SCAN_TIME, v.scan_time);
    let findings = replace(time.as_str(), FINDINGS_JSON, v.findings_json);
    let summary = replace(findings.as_str(), SUMMARY_JSON, v.summary_json);
    replace(summary.as_str(), ERRORS_JSON, v.errors_json)
}

/// Writes the report with given values.
pub fn html_report(v: &ReportValues) -> (r: String)
    ensures
        r@ == report_text(v@),
{
    let title = insert_values(TITLE_LINE, v);
    let root = insert_values(ROOT_LINE, v);
    let time = insert_values(TIME_LINE, v);
    let findings = insert_values(FINDINGS_LINE, v);
    let summary = insert_values(SUMMARY_LINE, v);
    let errors = insert_values(ERRORS_LINE, v);
    let mut html = PAGE_TOP.to_owned();
    html.append(title.as_str());
    html.append(PAGE_STYLE);
    html.append(root.as_str());
    html.append(time.as_str());
    html.append(PAGE_BODY);
    html.append(findings.as_str());
    html.append(summary.as_str());
    html.append(errors.as_str());
    html.append(PAGE_SCRIPT);
    html
}

/// Writes the report of a scan whose findings, summary and errors are given as
/// JSON.
pub fn generate_html_report(
    scan_root: &str,
    findings_json: &str,
    summary_json: &str,
    errors_json: &str,
) -> (r: String)
    ensures
        exists|scan_time: Seq<char>|
            is_local_time(scan_time) && r@ == report_text(
                ReportView {
                    scan_root: scan_root@,
                    scan_time,
                    findings_json: findings_json@,
                    summary_json: summary_json@,
                    errors_json: errors_json@,
                },
            ),
{
    let scan_time = now(LOCAL_TIME);
    let values = ReportValues {
        scan_root,
        scan_time: scan_time.as_str(),
        findings_json,
        summary_json,
        errors_json,
    };
    let r = html_report(&values);
    assert(is_local_time(scan_time@));
    assert(r@ == report_text(values@));
    r
}

proof fn lemma_places()
    ensures
        SCAN_ROOT@.len() == 13,
        SCAN_TIME@.len() == 13,
        FINDINGS_JSON@.len() == 17,
        SUMMARY_JSON@.len() == 16,
        ERRORS_JSON@.len() == 15,
{
    reveal_strlit("__SCAN_ROOT__");
    reveal_strlit("__SCAN_TIME__");
    reveal_strlit("__FINDINGS_JSON__");
    reveal_strlit("__SUMMARY_JSON__");
    reveal_strlit("__ERRORS_JSON__");
}

} // verus!
