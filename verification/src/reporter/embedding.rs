//! What the report shows of its values.

use super::page::{
    ERRORS_JSON, ERRORS_LINE, FINDINGS_JSON, FINDINGS_LINE, ROOT_LINE, SCAN_ROOT, SCAN_TIME,
    SUMMARY_JSON, SUMMARY_LINE, TIME_LINE, TITLE_LINE,
};
use super::{html_char, html_escaped, with_values, ReportView};
use crate::clock::is_local_time;
use crate::text::{
    contains_text, occurs_at, one_place_is_replaced, replace_all, unused_place_is_kept,
};
use vstd::prelude::*;

verus! {

/// No markup is left in an escaped text.
pub proof fn escaped_is_no_markup(s: Seq<char>)
    ensures
        !html_escaped(s).contains('<'),
        !html_escaped(s).contains('>'),
        !html_escaped(s).contains('"'),
        !html_escaped(s).contains('\''),
    decreases s.len(),
{
    if s.len() > 0 {
        escaped_is_no_markup(s.drop_last());
        let head = html_escaped(s.drop_last());
        let last = html_char(s.last());
        assert(html_escaped(s) == head + last);
        reveal_strlit("&amp;");
        reveal_strlit("&lt;");
        reveal_strlit("&gt;");
        reveal_strlit("&quot;");
        reveal_strlit("&#39;");
        assert forall|i: int| 0 <= i < (head + last).len() implies {
            let c = #[trigger] (head + last)[i];
            c != '<' && c != '>' && c != '"' && c != '\''
        } by {
            if i < head.len() {
                assert(head.contains(head[i]));
            } else {
                let c = last[i - head.len()];
                assert(c != '<' && c != '>' && c != '"' && c != '\'');
            }
        }
    }
}

/// Whether none of the places that stand for values is named in a text.
pub open spec fn names_no_place(s: Seq<char>) -> bool {
    &&& !contains_text(s, SCAN_TIME@)
    &&& !contains_text(s, FINDINGS_JSON@)
    &&& !contains_text(s, SUMMARY_JSON@)
    &&& !contains_text(s, ERRORS_JSON@)
}

proof fn lemma_occurs(s: Seq<char>, pat: Seq<char>, i: int)
    requires
        occurs_at(s, pat, i),
    ensures
        forall|j: int| 0 <= j < pat.len() ==> s[i + j] == #[trigger] pat[j],
{
    assert forall|j: int| 0 <= j < pat.len() implies s[i + j] == #[trigger] pat[j] by {
        assert(s.subrange(i, i + pat.len())[j] == s[i + j]);
    }
}

/// A text that is cut by a character that the place does not hold names the place
/// only if one of the two halves does.
proof fn lemma_cut(a: Seq<char>, c: char, b: Seq<char>, pat: Seq<char>)
    requires
        !pat.contains(c),
        pat.len() > 0,
        !contains_text(a, pat),
        !contains_text(b, pat),
    ensures
        !contains_text(a.push(c) + b, pat),
{
    let s = a.push(c) + b;
    if contains_text(s, pat) {
        let i = choose|i: int| occurs_at(s, pat, i);
        let n = pat.len() as int;
        if i + n <= a.len() {
            assert(a.subrange(i, i + n) =~= s.subrange(i, i + n));
            assert(occurs_at(a, pat, i));
        } else if i > a.len() {
            let k = i - a.len() - 1;
            assert(b.subrange(k, k + n) =~= s.subrange(i, i + n));
            assert(occurs_at(b, pat, k));
        } else {
            lemma_occurs(s, pat, i);
            let j = a.len() - i;
            assert(s[i + j] == c);
            assert(pat[j] == c);
        }
    }
}

/// Whether a text is the place of a value: it starts with `_`, and holds nothing
/// that stands next to a place.
spec fn is_place(pat: Seq<char>) -> bool {
    &&& pat.len() > 0
    &&& pat[0] == '_'
    &&& !pat.contains(' ')
    &&& !pat.contains('<')
    &&& !pat.contains('>')
    &&& !pat.contains(',')
    &&& !pat.contains('\n')
}

proof fn lemma_are_places()
    ensures
        is_place(SCAN_ROOT@),
        is_place(SCAN_TIME@),
        is_place(FINDINGS_JSON@),
        is_place(SUMMARY_JSON@),
        is_place(ERRORS_JSON@),
{
    assert(is_place(SCAN_ROOT@)) by {
        reveal_strlit("__SCAN_ROOT__");
    }
    assert(is_place(SCAN_TIME@)) by {
        reveal_strlit("__SCAN_TIME__");
    }
    assert(is_place(FINDINGS_JSON@)) by {
        reveal_strlit("__FINDINGS_JSON__");
    }
    assert(is_place(SUMMARY_JSON@)) by {
        reveal_strlit("__SUMMARY_JSON__");
    }
    assert(is_place(ERRORS_JSON@)) by {
        reveal_strlit("__ERRORS_JSON__");
    }
}

/// No place names one that is filled before it.
proof fn lemma_places_differ()
    ensures
        !contains_text(SCAN_TIME@, SCAN_ROOT@),
        !contains_text(FINDINGS_JSON@, SCAN_ROOT@),
        !contains_text(FINDINGS_JSON@, SCAN_TIME@),
        !contains_text(SUMMARY_JSON@, SCAN_ROOT@),
        !contains_text(SUMMARY_JSON@, SCAN_TIME@),
        !contains_text(SUMMARY_JSON@, FINDINGS_JSON@),
        !contains_text(ERRORS_JSON@, SCAN_ROOT@),
        !contains_text(ERRORS_JSON@, SCAN_TIME@),
        !contains_text(ERRORS_JSON@, FINDINGS_JSON@),
        !contains_text(ERRORS_JSON@, SUMMARY_JSON@),
{
    reveal_strlit("__SCAN_ROOT__");
    reveal_strlit("__SCAN_TIME__");
    reveal_strlit("__FINDINGS_JSON__");
    reveal_strlit("__SUMMARY_JSON__");
    reveal_strlit("__ERRORS_JSON__");
    if contains_text(SCAN_TIME@, SCAN_ROOT@) {
        lemma_occurs_start(SCAN_TIME@, SCAN_ROOT@);
    }
    if contains_text(FINDINGS_JSON@, SCAN_ROOT@) {
        lemma_occurs_start(FINDINGS_JSON@, SCAN_ROOT@);
    }
    if contains_text(FINDINGS_JSON@, SCAN_TIME@) {
        lemma_occurs_start(FINDINGS_JSON@, SCAN_TIME@);
    }
    if contains_text(SUMMARY_JSON@, SCAN_ROOT@) {
        lemma_occurs_start(SUMMARY_JSON@, SCAN_ROOT@);
    }
    if contains_text(SUMMARY_JSON@, SCAN_TIME@) {
        lemma_occurs_start(SUMMARY_JSON@, SCAN_TIME@);
    }
    if contains_text(SUMMARY_JSON@, FINDINGS_JSON@) {
        lemma_occurs_start(SUMMARY_JSON@, FINDINGS_JSON@);
    }
    if contains_text(ERRORS_JSON@, SCAN_ROOT@) {
        lemma_occurs_start(ERRORS_JSON@, SCAN_ROOT@);
    }
    if contains_text(ERRORS_JSON@, SCAN_TIME@) {
        lemma_occurs_start(ERRORS_JSON@, SCAN_TIME@);
    }
    if contains_text(ERRORS_JSON@, FINDINGS_JSON@) {
        lemma_occurs_start(ERRORS_JSON@, FINDINGS_JSON@);
    }
    if contains_text(ERRORS_JSON@, SUMMARY_JSON@) {
        lemma_occurs_start(ERRORS_JSON@, SUMMARY_JSON@);
    }
}

proof fn lemma_occurs_start(s: Seq<char>, pat: Seq<char>)
    requires
        pat.len() >= 8,
        contains_text(s, pat),
    ensures
        exists|i: int|
            0 <= i && i + pat.len() <= s.len() && #[trigger] s[i] == pat[0] && s[i + 1] == pat[1]
                && s[i + 2] == pat[2] && s[i + 3] == pat[3] && s[i + 4] == pat[4] && s[i + 5]
                == pat[5] && s[i + 6] == pat[6] && s[i + 7] == pat[7],
{
    let i = choose|i: int| occurs_at(s, pat, i);
    lemma_occurs(s, pat, i);
    assert(s[i + 0] == pat[0]);
}

/// A value between texts that hold no `_` and are cut off from it names a place
/// only if the value does.
proof fn lemma_around(a: Seq<char>, c: char, x: Seq<char>, d: char, b: Seq<char>, pat: Seq<char>)
    requires
        is_place(pat),
        !pat.contains(c),
        !pat.contains(d),
        !a.contains('_'),
        !b.contains('_'),
        !contains_text(x, pat),
    ensures
        !contains_text(a.push(c) + x + seq![d] + b, pat),
{
    lemma_no_place(a, pat);
    lemma_no_place(b, pat);
    lemma_cut(x, d, b, pat);
    lemma_cut(a, c, x.push(d) + b, pat);
    assert(a.push(c) + x + seq![d] + b =~= a.push(c) + (x.push(d) + b));
}

proof fn lemma_no_place(s: Seq<char>, pat: Seq<char>)
    requires
        is_place(pat),
        !s.contains('_'),
    ensures
        !contains_text(s, pat),
{
    if contains_text(s, pat) {
        let i = choose|i: int| occurs_at(s, pat, i);
        lemma_occurs(s, pat, i);
        assert(s[i + 0] == pat[0]);
        assert(s.contains(s[i]));
    }
}

/// Fills the place of a line, which stands between `a`, `c` and `d`, `b`.
proof fn lemma_filled(
    a: Seq<char>,
    c: char,
    pat: Seq<char>,
    d: char,
    b: Seq<char>,
    to: Seq<char>,
)
    requires
        is_place(pat),
        c != '_',
        d != '_',
        !pat.contains(d),
        !a.contains('_'),
        !b.contains('_'),
    ensures
        replace_all(a.push(c) + pat + seq![d] + b, pat, to) == a.push(c) + to + seq![d] + b,
{
    let after = seq![d] + b;
    assert(!after.contains('_')) by {
        if after.contains('_') {
            let i = choose|i: int| 0 <= i < after.len() && after[i] == '_';
            assert(b[i - 1] == '_');
        }
    }
    assert(!a.push(c).contains('_')) by {
        if a.push(c).contains('_') {
            let i = choose|i: int| 0 <= i < a.push(c).len() && a.push(c)[i] == '_';
            assert(a[i] == '_');
        }
    }
    lemma_no_place(after, pat);
    one_place_is_replaced(a.push(c), pat, after, to);
    assert(a.push(c) + pat + seq![d] + b =~= a.push(c) + pat + after);
    assert(a.push(c) + to + seq![d] + b =~= a.push(c) + to + after);
}

/// The findings, the summary and the errors stand in the page as they were given,
/// as long as none of them names a place that is filled later.
pub proof fn data_is_embedded(v: ReportView)
    ensures
        !contains_text(v.findings_json, SUMMARY_JSON@) && !contains_text(
            v.findings_json,
            ERRORS_JSON@,
        ) ==> with_values(FINDINGS_LINE@, v) == "      findings: "@ + v.findings_json + ",\n"@,
        !contains_text(v.summary_json, ERRORS_JSON@) ==> with_values(SUMMARY_LINE@, v)
            == "      summary:  "@ + v.summary_json + ",\n"@,
        with_values(ERRORS_LINE@, v) == "      errors:   "@ + v.errors_json + "\n"@,
{
    lemma_are_places();
    lemma_places_differ();
    lemma_findings_line(v);
    lemma_summary_line(v);
    lemma_errors_line(v);
}

proof fn lemma_findings_line(v: ReportView)
    requires
        is_place(SCAN_ROOT@),
        is_place(SCAN_TIME@),
        is_place(FINDINGS_JSON@),
        is_place(SUMMARY_JSON@),
        is_place(ERRORS_JSON@),
        !contains_text(FINDINGS_JSON@, SCAN_ROOT@),
        !contains_text(FINDINGS_JSON@, SCAN_TIME@),
    ensures
        !contains_text(v.findings_json, SUMMARY_JSON@) && !contains_text(
            v.findings_json,
            ERRORS_JSON@,
        ) ==> with_values(FINDINGS_LINE@, v) == "      findings: "@ + v.findings_json + ",\n"@,
{
    let x = v.findings_json;
    reveal_strlit("      findings: __FINDINGS_JSON__,\n");
    reveal_strlit("      findings: ");
    reveal_strlit("__FINDINGS_JSON__");
    reveal_strlit(",\n");
    let a = "      findings: "@.drop_last();
    let b = seq!['\n'];
    assert(!a.contains('_'));
    assert(!b.contains('_'));
    assert(FINDINGS_LINE@ =~= a.push(' ') + FINDINGS_JSON@ + seq![','] + b);
    lemma_around(a, ' ', FINDINGS_JSON@, ',', b, SCAN_ROOT@);
    lemma_around(a, ' ', FINDINGS_JSON@, ',', b, SCAN_TIME@);
    unused_place_is_kept(FINDINGS_LINE@, SCAN_ROOT@, html_escaped(v.scan_root));
    unused_place_is_kept(FINDINGS_LINE@, SCAN_TIME@, v.scan_time);
    lemma_filled(a, ' ', FINDINGS_JSON@, ',', b, x);
    let line = a.push(' ') + x + seq![','] + b;
    assert(line =~= "      findings: "@ + x + ",\n"@);
    if !contains_text(x, SUMMARY_JSON@) && !contains_text(x, ERRORS_JSON@) {
        lemma_around(a, ' ', x, ',', b, SUMMARY_JSON@);
        lemma_around(a, ' ', x, ',', b, ERRORS_JSON@);
        unused_place_is_kept(line, SUMMARY_JSON@, v.summary_json);
        unused_place_is_kept(line, ERRORS_JSON@, v.errors_json);
    }
}

proof fn lemma_summary_line(v: ReportView)
    requires
        is_place(SCAN_ROOT@),
        is_place(SCAN_TIME@),
        is_place(FINDINGS_JSON@),
        is_place(SUMMARY_JSON@),
        is_place(ERRORS_JSON@),
        !contains_text(SUMMARY_JSON@, SCAN_ROOT@),
        !contains_text(SUMMARY_JSON@, SCAN_TIME@),
        !contains_text(SUMMARY_JSON@, FINDINGS_JSON@),
    ensures
        !contains_text(v.summary_json, ERRORS_JSON@) ==> with_values(SUMMARY_LINE@, v)
            == "      summary:  "@ + v.summary_json + ",\n"@,
{
    let x = v.summary_json;
    reveal_strlit("      summary:  __SUMMARY_JSON__,\n");
    reveal_strlit("      summary:  ");
    reveal_strlit("__SUMMARY_JSON__");
    reveal_strlit(",\n");
    let a = "      summary:  "@.drop_last();
    let b = seq!['\n'];
    assert(!a.contains('_'));
    assert(!b.contains('_'));
    assert(SUMMARY_LINE@ =~= a.push(' ') + SUMMARY_JSON@ + seq![','] + b);
    lemma_around(a, ' ', SUMMARY_JSON@, ',', b, SCAN_ROOT@);
    lemma_around(a, ' ', SUMMARY_JSON@, ',', b, SCAN_TIME@);
    lemma_around(a, ' ', SUMMARY_JSON@, ',', b, FINDINGS_JSON@);
    unused_place_is_kept(SUMMARY_LINE@, SCAN_ROOT@, html_escaped(v.scan_root));
    unused_place_is_kept(SUMMARY_LINE@, SCAN_TIME@, v.scan_time);
    unused_place_is_kept(SUMMARY_LINE@, FINDINGS_JSON@, v.findings_json);
    lemma_filled(a, ' ', SUMMARY_JSON@, ',', b, x);
    let line = a.push(' ') + x + seq![','] + b;
    assert(line =~= "      summary:  "@ + x + ",\n"@);
    if !contains_text(x, ERRORS_JSON@) {
        lemma_around(a, ' ', x, ',', b, ERRORS_JSON@);
        unused_place_is_kept(line, ERRORS_JSON@, v.errors_json);
    }
}

proof fn lemma_errors_line(v: ReportView)
    requires
        is_place(SCAN_ROOT@),
        is_place(SCAN_TIME@),
        is_place(FINDINGS_JSON@),
        is_place(SUMMARY_JSON@),
        is_place(ERRORS_JSON@),
        !contains_text(ERRORS_JSON@, SCAN_ROOT@),
        !contains_text(ERRORS_JSON@, SCAN_TIME@),
        !contains_text(ERRORS_JSON@, FINDINGS_JSON@),
        !contains_text(ERRORS_JSON@, SUMMARY_JSON@),
    ensures
        with_values(ERRORS_LINE@, v) == "      errors:   "@ + v.errors_json + "\n"@,
{
    reveal_strlit("      errors:   __ERRORS_JSON__\n");
    reveal_strlit("      errors:   ");
    reveal_strlit("__ERRORS_JSON__");
    reveal_strlit("\n");
    let a = "      errors:   "@.drop_last();
    let b = Seq::<char>::empty();
    assert(!a.contains('_'));
    assert(ERRORS_LINE@ =~= a.push(' ') + ERRORS_JSON@ + seq!['\n'] + b);
    lemma_around(a, ' ', ERRORS_JSON@, '\n', b, SCAN_ROOT@);
    lemma_around(a, ' ', ERRORS_JSON@, '\n', b, SCAN_TIME@);
    lemma_around(a, ' ', ERRORS_JSON@, '\n', b, FINDINGS_JSON@);
    lemma_around(a, ' ', ERRORS_JSON@, '\n', b, SUMMARY_JSON@);
    unused_place_is_kept(ERRORS_LINE@, SCAN_ROOT@, html_escaped(v.scan_root));
    unused_place_is_kept(ERRORS_LINE@, SCAN_TIME@, v.scan_time);
    unused_place_is_kept(ERRORS_LINE@, FINDINGS_JSON@, v.findings_json);
    unused_place_is_kept(ERRORS_LINE@, SUMMARY_JSON@, v.summary_json);
    lemma_filled(a, ' ', ERRORS_JSON@, '\n', b, v.errors_json);
    assert(a.push(' ') + v.errors_json + seq!['\n'] + b =~= "      errors:   "@ + v.errors_json
        + "\n"@);
}

/// The page shows the root of the scan without markup, as long as it names no
/// place, and the time of the scan.
pub proof fn root_and_time_are_shown(v: ReportView)
    requires
        is_local_time(v.scan_time),
    ensures
        names_no_place(html_escaped(v.scan_root)) ==> with_values(TITLE_LINE@, v)
            == "  <title>FolSec NTFS Audit Report — "@ + html_escaped(v.scan_root)
            + "</title>\n"@,
        names_no_place(html_escaped(v.scan_root)) ==> with_values(ROOT_LINE@, v)
            == "        <div>Scan root: <span>"@ + html_escaped(v.scan_root)
            + "</span></div>\n"@,
        with_values(TIME_LINE@, v) == "        <div>Generated: <span>"@ + v.scan_time
            + "</span></div>\n"@,
{
    lemma_are_places();
    lemma_places_differ();
    reveal_strlit("  <title>FolSec NTFS Audit Report — __SCAN_ROOT__</title>\n");
    reveal_strlit("  <title>FolSec NTFS Audit Report — ");
    reveal_strlit("__SCAN_ROOT__");
    reveal_strlit("</title>\n");
    reveal_strlit("        <div>Scan root: <span>__SCAN_ROOT__</span></div>\n");
    reveal_strlit("        <div>Scan root: <span>");
    reveal_strlit("</span></div>\n");
    let title = "  <title>FolSec NTFS Audit Report — "@.drop_last();
    let title_end = "</title>\n"@.skip(1);
    assert(TITLE_LINE@ =~= title.push(' ') + SCAN_ROOT@ + seq!['<'] + title_end);
    lemma_root_line(v, title, ' ', title_end);
    assert(title.push(' ') + html_escaped(v.scan_root) + seq!['<'] + title_end
        =~= "  <title>FolSec NTFS Audit Report — "@ + html_escaped(v.scan_root)
        + "</title>\n"@);
    let root = "        <div>Scan root: <span>"@.drop_last();
    let root_end = "</span></div>\n"@.skip(1);
    assert(ROOT_LINE@ =~= root.push('>') + SCAN_ROOT@ + seq!['<'] + root_end);
    lemma_root_line(v, root, '>', root_end);
    assert(root.push('>') + html_escaped(v.scan_root) + seq!['<'] + root_end
        =~= "        <div>Scan root: <span>"@ + html_escaped(v.scan_root) + "</span></div>\n"@);
    lemma_time_line(v);
}

proof fn lemma_root_line(v: ReportView, a: Seq<char>, c: char, b: Seq<char>)
    requires
        is_place(SCAN_ROOT@),
        is_place(SCAN_TIME@),
        is_place(FINDINGS_JSON@),
        is_place(SUMMARY_JSON@),
        is_place(ERRORS_JSON@),
        c == ' ' || c == '>',
        !a.contains('_'),
        !b.contains('_'),
    ensures
        names_no_place(html_escaped(v.scan_root)) ==> with_values(
            a.push(c) + SCAN_ROOT@ + seq!['<'] + b,
            v,
        ) == a.push(c) + html_escaped(v.scan_root) + seq!['<'] + b,
{
    let x = html_escaped(v.scan_root);
    lemma_filled(a, c, SCAN_ROOT@, '<', b, x);
    let line = a.push(c) + x + seq!['<'] + b;
    if names_no_place(x) {
        lemma_around(a, c, x, '<', b, SCAN_TIME@);
        lemma_around(a, c, x, '<', b, FINDINGS_JSON@);
        lemma_around(a, c, x, '<', b, SUMMARY_JSON@);
        lemma_around(a, c, x, '<', b, ERRORS_JSON@);
        unused_place_is_kept(line, SCAN_TIME@, v.scan_time);
        unused_place_is_kept(line, FINDINGS_JSON@, v.findings_json);
        unused_place_is_kept(line, SUMMARY_JSON@, v.summary_json);
        unused_place_is_kept(line, ERRORS_JSON@, v.errors_json);
    }
}

proof fn lemma_time_line(v: ReportView)
    requires
        is_place(SCAN_ROOT@),
        is_place(SCAN_TIME@),
        is_place(FINDINGS_JSON@),
        is_place(SUMMARY_JSON@),
        is_place(ERRORS_JSON@),
        !contains_text(SCAN_TIME@, SCAN_ROOT@),
        is_local_time(v.scan_time),
    ensures
        with_values(TIME_LINE@, v) == "        <div>Generated: <span>"@ + v.scan_time
            + "</span></div>\n"@,
{
    let x = v.scan_time;
    reveal_strlit("        <div>Generated: <span>__SCAN_TIME__</span></div>\n");
    reveal_strlit("        <div>Generated: <span>");
    reveal_strlit("__SCAN_TIME__");
    reveal_strlit("</span></div>\n");
    let a = "        <div>Generated: <span>"@.drop_last();
    let b = "</span></div>\n"@.skip(1);
    assert(!a.contains('_'));
    assert(!b.contains('_'));
    assert(TIME_LINE@ =~= a.push('>') + SCAN_TIME@ + seq!['<'] + b);
    lemma_around(a, '>', SCAN_TIME@, '<', b, SCAN_ROOT@);
    unused_place_is_kept(TIME_LINE@, SCAN_ROOT@, html_escaped(v.scan_root));
    lemma_filled(a, '>', SCAN_TIME@, '<', b, x);
    let line = a.push('>') + x + seq!['<'] + b;
    assert(line =~= "        <div>Generated: <span>"@ + x + "</span></div>\n"@);
    assert(!x.contains('_')) by {
        if x.contains('_') {
            let i = choose|i: int| 0 <= i < x.len() && x[i] == '_';
            assert(!(0 < i < x.len() - 15));
        }
    }
    lemma_no_place(x, FINDINGS_JSON@);
    lemma_no_place(x, SUMMARY_JSON@);
    lemma_no_place(x, ERRORS_JSON@);
    lemma_around(a, '>', x, '<', b, FINDINGS_JSON@);
    lemma_around(a, '>', x, '<', b, SUMMARY_JSON@);
    lemma_around(a, '>', x, '<', b, ERRORS_JSON@);
    unused_place_is_kept(line, FINDINGS_JSON@, v.findings_json);
    unused_place_is_kept(line, SUMMARY_JSON@, v.summary_json);
    unused_place_is_kept(line, ERRORS_JSON@, v.errors_json);
}

// ---------------------------------------------------------------------------
// Values that name places
// ---------------------------------------------------------------------------

/// A text that is cut by a character that the place does not hold is filled on both
/// sides of the cut.
proof fn lemma_fill_cut(a: Seq<char>, c: char, b: Seq<char>, pat: Seq<char>, to: Seq<char>)
    requires
        pat.len() > 0,
        !pat.contains(c),
    ensures
        replace_all(a.push(c) + b, pat, to) == replace_all(a, pat, to).push(c) + replace_all(
            b,
            pat,
            to,
        ),
    decreases a.len(),
{
    let s = a.push(c) + b;
    let n = pat.len() as int;
    let rest = replace_all(b, pat, to);
    assert(s[a.len() as int] == c);
    if s.len() < n {
        assert(s =~= a.push(c) + b);
    } else if a.len() == 0 {
        if s.take(n) == pat {
            assert(s.take(n)[0] == c);
            assert(pat.contains(pat[0]));
        }
        assert(s.skip(1) =~= b);
        assert(seq![s[0]] + rest =~= a.push(c) + rest);
        assert(replace_all(a, pat, to) =~= a);
    } else if s.take(n) == pat {
        if n > a.len() {
            assert(s.take(n)[a.len() as int] == c);
            assert(pat.contains(pat[a.len() as int]));
        }
        assert(a.take(n) =~= s.take(n));
        let a1 = a.skip(n);
        assert(s.skip(n) =~= a1.push(c) + b);
        lemma_fill_cut(a1, c, b, pat, to);
        let inner = replace_all(a1, pat, to);
        assert(to + (inner.push(c) + rest) =~= (to + inner).push(c) + rest);
    } else {
        let a1 = a.skip(1);
        assert(s.skip(1) =~= a1.push(c) + b);
        lemma_fill_cut(a1, c, b, pat, to);
        let inner = replace_all(a1, pat, to);
        if a.len() >= n {
            assert(a.take(n) =~= s.take(n));
        } else {
            assert(inner == a1);
            assert(a =~= seq![a[0]] + a1);
        }
        assert(replace_all(a, pat, to) =~= seq![a[0]] + inner);
        assert(seq![s[0]] + (inner.push(c) + rest) =~= (seq![a[0]] + inner).push(c) + rest);
    }
}

proof fn lemma_fill_inside(
    a: Seq<char>,
    c: char,
    x: Seq<char>,
    d: char,
    b: Seq<char>,
    pat: Seq<char>,
    to: Seq<char>,
)
    requires
        is_place(pat),
        !pat.contains(c),
        !pat.contains(d),
        !a.contains('_'),
        !b.contains('_'),
    ensures
        replace_all(a.push(c) + x + seq![d] + b, pat, to) == a.push(c) + replace_all(x, pat, to)
            + seq![d] + b,
{
    let inner = replace_all(x, pat, to);
    lemma_no_place(a, pat);
    lemma_no_place(b, pat);
    unused_place_is_kept(a, pat, to);
    unused_place_is_kept(b, pat, to);
    lemma_fill_cut(x, d, b, pat, to);
    lemma_fill_cut(a, c, x.push(d) + b, pat, to);
    assert(a.push(c) + x + seq![d] + b =~= a.push(c) + (x.push(d) + b));
    assert(a.push(c) + (inner.push(d) + b) =~= a.push(c) + inner + seq![d] + b);
}

/// What stands around a place is kept, whatever the values are.
proof fn lemma_values_inside(a: Seq<char>, c: char, x: Seq<char>, d: char, b: Seq<char>, v: ReportView)
    requires
        c == ' ' || c == '>',
        d == '<' || d == ',' || d == '\n',
        !a.contains('_'),
        !b.contains('_'),
    ensures
        with_values(a.push(c) + x + seq![d] + b, v) == a.push(c) + with_values(x, v) + seq![d] + b,
{
    lemma_are_places();
    let x1 = replace_all(x, SCAN_ROOT@, html_escaped(v.scan_root));
    let x2 = replace_all(x1, SCAN_TIME@, v.scan_time);
    let x3 = replace_all(x2, FINDINGS_JSON@, v.findings_json);
    let x4 = replace_all(x3, SUMMARY_JSON@, v.summary_json);
    lemma_fill_inside(a, c, x, d, b, SCAN_ROOT@, html_escaped(v.scan_root));
    lemma_fill_inside(a, c, x1, d, b, SCAN_TIME@, v.scan_time);
    lemma_fill_inside(a, c, x2, d, b, FINDINGS_JSON@, v.findings_json);
    lemma_fill_inside(a, c, x3, d, b, SUMMARY_JSON@, v.summary_json);
    lemma_fill_inside(a, c, x4, d, b, ERRORS_JSON@, v.errors_json);
}

proof fn lemma_place_is_filled(pat: Seq<char>, to: Seq<char>)
    requires
        is_place(pat),
    ensures
        replace_all(pat, pat, to) == to,
{
    let none = Seq::<char>::empty();
    lemma_no_place(none, pat);
    one_place_is_replaced(none, pat, none, to);
    assert(none + pat + none =~= pat);
    assert(none + to + none =~= to);
}

/// A place is filled with its value, in which the places that come later in the order of
/// root, time, findings, summary and errors are filled in turn.
pub proof fn places_are_filled_in_order(v: ReportView)
    ensures
        with_values(ERRORS_JSON@, v) == v.errors_json,
        with_values(SUMMARY_JSON@, v) == replace_all(
            v.summary_json,
            "__ERRORS_JSON__"@,
            v.errors_json,
        ),
        with_values(FINDINGS_JSON@, v) == replace_all(
            replace_all(v.findings_json, "__SUMMARY_JSON__"@, v.summary_json),
            "__ERRORS_JSON__"@,
            v.errors_json,
        ),
        with_values(SCAN_TIME@, v) == replace_all(
            replace_all(
                replace_all(v.scan_time, "__FINDINGS_JSON__"@, v.findings_json),
                "__SUMMARY_JSON__"@,
                v.summary_json,
            ),
            "__ERRORS_JSON__"@,
            v.errors_json,
        ),
        with_values(SCAN_ROOT@, v) == replace_all(
            replace_all(
                replace_all(
                    replace_all(html_escaped(v.scan_root), "__SCAN_TIME__"@, v.scan_time),
                    "__FINDINGS_JSON__"@,
                    v.findings_json,
                ),
                "__SUMMARY_JSON__"@,
                v.summary_json,
            ),
            "__ERRORS_JSON__"@,
            v.errors_json,
        ),
{
    lemma_are_places();
    lemma_places_differ();
    lemma_place_is_filled(SCAN_ROOT@, html_escaped(v.scan_root));
    lemma_place_is_filled(SCAN_TIME@, v.scan_time);
    lemma_place_is_filled(FINDINGS_JSON@, v.findings_json);
    lemma_place_is_filled(SUMMARY_JSON@, v.summary_json);
    lemma_place_is_filled(ERRORS_JSON@, v.errors_json);
    unused_place_is_kept(SCAN_TIME@, SCAN_ROOT@, html_escaped(v.scan_root));
    unused_place_is_kept(FINDINGS_JSON@, SCAN_ROOT@, html_escaped(v.scan_root));
    unused_place_is_kept(FINDINGS_JSON@, SCAN_TIME@, v.scan_time);
    unused_place_is_kept(SUMMARY_JSON@, SCAN_ROOT@, html_escaped(v.scan_root));
    unused_place_is_kept(SUMMARY_JSON@, SCAN_TIME@, v.scan_time);
    unused_place_is_kept(SUMMARY_JSON@, FINDINGS_JSON@, v.findings_json);
    unused_place_is_kept(ERRORS_JSON@, SCAN_ROOT@, html_escaped(v.scan_root));
    unused_place_is_kept(ERRORS_JSON@, SCAN_TIME@, v.scan_time);
    unused_place_is_kept(ERRORS_JSON@, FINDINGS_JSON@, v.findings_json);
    unused_place_is_kept(ERRORS_JSON@, SUMMARY_JSON@, v.summary_json);
}

/// Each line of the page that takes a value holds it between the texts of the line,
/// whatever the values are.
pub proof fn lines_hold_their_values(v: ReportView)
    ensures
        with_values(TITLE_LINE@, v) == "  <title>FolSec NTFS Audit Report — "@ + with_values(
            SCAN_ROOT@,
            v,
        ) + "</title>\n"@,
        with_values(ROOT_LINE@, v) == "        <div>Scan root: <span>"@ + with_values(SCAN_ROOT@, v)
            + "</span></div>\n"@,
        with_values(TIME_LINE@, v) == "        <div>Generated: <span>"@ + with_values(SCAN_TIME@, v)
            + "</span></div>\n"@,
        with_values(FINDINGS_LINE@, v) == "      findings: "@ + with_values(FINDINGS_JSON@, v)
            + ",\n"@,
        with_values(SUMMARY_LINE@, v) == "      summary:  "@ + with_values(SUMMARY_JSON@, v)
            + ",\n"@,
        with_values(ERRORS_LINE@, v) == "      errors:   "@ + with_values(ERRORS_JSON@, v)
            + "\n"@,
{
    assert(with_values(TITLE_LINE@, v) == "  <title>FolSec NTFS Audit Report — "@ + with_values(
        SCAN_ROOT@,
        v,
    ) + "</title>\n"@) by {
        reveal_strlit("  <title>FolSec NTFS Audit Report — __SCAN_ROOT__</title>\n");
        reveal_strlit("  <title>FolSec NTFS Audit Report — ");
        reveal_strlit("__SCAN_ROOT__");
        reveal_strlit("</title>\n");
        lemma_line(
            TITLE_LINE@,
            "  <title>FolSec NTFS Audit Report — "@,
            SCAN_ROOT@,
            "</title>\n"@,
            v,
        );
    }
    assert(with_values(ROOT_LINE@, v) == "        <div>Scan root: <span>"@ + with_values(
        SCAN_ROOT@,
        v,
    ) + "</span></div>\n"@) by {
        reveal_strlit("        <div>Scan root: <span>__SCAN_ROOT__</span></div>\n");
        reveal_strlit("        <div>Scan root: <span>");
        reveal_strlit("__SCAN_ROOT__");
        reveal_strlit("</span></div>\n");
        lemma_line(
            ROOT_LINE@,
            "        <div>Scan root: <span>"@,
            SCAN_ROOT@,
            "</span></div>\n"@,
            v,
        );
    }
    assert(with_values(TIME_LINE@, v) == "        <div>Generated: <span>"@ + with_values(
        SCAN_TIME@,
        v,
    ) + "</span></div>\n"@) by {
        reveal_strlit("        <div>Generated: <span>__SCAN_TIME__</span></div>\n");
        reveal_strlit("        <div>Generated: <span>");
        reveal_strlit("__SCAN_TIME__");
        reveal_strlit("</span></div>\n");
        lemma_line(
            TIME_LINE@,
            "        <div>Generated: <span>"@,
            SCAN_TIME@,
            "</span></div>\n"@,
            v,
        );
    }
    assert(with_values(FINDINGS_LINE@, v) == "      findings: "@ + with_values(FINDINGS_JSON@, v)
        + ",\n"@) by {
        reveal_strlit("      findings: __FINDINGS_JSON__,\n");
        reveal_strlit("      findings: ");
        reveal_strlit("__FINDINGS_JSON__");
        reveal_strlit(",\n");
        lemma_line(FINDINGS_LINE@, "      findings: "@, FINDINGS_JSON@, ",\n"@, v);
    }
    assert(with_values(SUMMARY_LINE@, v) == "      summary:  "@ + with_values(SUMMARY_JSON@, v)
        + ",\n"@) by {
        reveal_strlit("      summary:  __SUMMARY_JSON__,\n");
        reveal_strlit("      summary:  ");
        reveal_strlit("__SUMMARY_JSON__");
        reveal_strlit(",\n");
        lemma_line(SUMMARY_LINE@, "      summary:  "@, SUMMARY_JSON@, ",\n"@, v);
    }
    assert(with_values(ERRORS_LINE@, v) == "      errors:   "@ + with_values(ERRORS_JSON@, v)
        + "\n"@) by {
        reveal_strlit("      errors:   __ERRORS_JSON__\n");
        reveal_strlit("      errors:   ");
        reveal_strlit("__ERRORS_JSON__");
        reveal_strlit("\n");
        lemma_line(ERRORS_LINE@, "      errors:   "@, ERRORS_JSON@, "\n"@, v);
    }
}

proof fn lemma_line(
    line: Seq<char>,
    before: Seq<char>,
    place: Seq<char>,
    after: Seq<char>,
    v: ReportView,
)
    requires
        line =~= before + place + after,
        before.len() > 0,
        after.len() > 0,
        before.last() == ' ' || before.last() == '>',
        after[0] == '<' || after[0] == ',' || after[0] == '\n',
        !before.contains('_'),
        !after.contains('_'),
    ensures
        with_values(line, v) == before + with_values(place, v) + after,
{
    let a = before.drop_last();
    let b = after.skip(1);
    assert(!a.contains('_')) by {
        if a.contains('_') {
            let i = choose|i: int| 0 <= i < a.len() && a[i] == '_';
            assert(before[i] == '_');
        }
    }
    assert(!b.contains('_')) by {
        if b.contains('_') {
            let i = choose|i: int| 0 <= i < b.len() && b[i] == '_';
            assert(after[i + 1] == '_');
        }
    }
    lemma_values_inside(a, before.last(), place, after[0], b, v);
    assert(line =~= a.push(before.last()) + place + seq![after[0]] + b);
    assert(a.push(before.last()) + with_values(place, v) + seq![after[0]] + b =~= before
        + with_values(place, v) + after);
}

} // verus!
