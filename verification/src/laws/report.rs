//! The HTML report.

use crate::reporter::page::{
    ERRORS_LINE, FINDINGS_LINE, PAGE_BODY, PAGE_SCRIPT, PAGE_STYLE, PAGE_TOP, ROOT_LINE,
    SUMMARY_LINE, TIME_LINE, TITLE_LINE,
};
use crate::reporter::{
    html_char, html_escaped, report_text, with_values, ReportValues, ReportView,
};
use crate::text::starts_with;
use vstd::prelude::*;

verus! {

/// What a browser shows of a text: the five entities stand for their characters, and
/// every other character for itself.
pub open spec fn html_shown(s: Seq<char>) -> Seq<char>
    decreases s.len(),
{
    if s.len() == 0 {
        Seq::empty()
    } else if s.len() >= 5 && s.take(5) == seq!['&', 'a', 'm', 'p', ';'] {
        seq!['&'] + html_shown(s.skip(5))
    } else if s.len() >= 4 && s.take(4) == seq!['&', 'l', 't', ';'] {
        seq!['<'] + html_shown(s.skip(4))
    } else if s.len() >= 4 && s.take(4) == seq!['&', 'g', 't', ';'] {
        seq!['>'] + html_shown(s.skip(4))
    } else if s.len() >= 6 && s.take(6) == seq!['&', 'q', 'u', 'o', 't', ';'] {
        seq!['"'] + html_shown(s.skip(6))
    } else if s.len() >= 5 && s.take(5) == seq!['&', '#', '3', '9', ';'] {
        seq!['\''] + html_shown(s.skip(5))
    } else {
        seq![s[0]] + html_shown(s.skip(1))
    }
}

proof fn lemma_first_is_escaped(s: Seq<char>)
    requires
        s.len() > 0,
    ensures
        html_escaped(s) == html_char(s[0]) + html_escaped(s.skip(1)),
    decreases s.len(),
{
    let rest = s.skip(1);
    if s.len() == 1 {
        assert(s.drop_last() =~= Seq::<char>::empty());
        assert(rest =~= Seq::<char>::empty());
        assert(html_escaped(rest) =~= Seq::<char>::empty());
        assert(html_escaped(s.drop_last()) =~= Seq::<char>::empty());
        assert(html_escaped(s) =~= html_char(s[0]) + html_escaped(rest));
    } else {
        lemma_first_is_escaped(s.drop_last());
        assert(s.drop_last().skip(1) =~= rest.drop_last());
        assert(s.drop_last()[0] == s[0]);
        assert(rest.last() == s.last());
        assert(html_escaped(s) =~= html_char(s[0]) + html_escaped(rest));
    }
}

proof fn lemma_first_is_shown(c: char, rest: Seq<char>)
    ensures
        html_shown(html_char(c) + rest) == seq![c] + html_shown(rest),
{
    let s = html_char(c) + rest;
    reveal_strlit("&amp;");
    reveal_strlit("&lt;");
    reveal_strlit("&gt;");
    reveal_strlit("&quot;");
    reveal_strlit("&#39;");
    if c == '&' {
        assert(s.take(5) =~= seq!['&', 'a', 'm', 'p', ';']);
        assert(s.skip(5) =~= rest);
    } else if c == '<' {
        assert(s.take(4) =~= seq!['&', 'l', 't', ';']);
        assert(s.skip(4) =~= rest);
        assert(s.len() >= 5 ==> s.take(5)[1] == 'l');
    } else if c == '>' {
        assert(s.take(4) =~= seq!['&', 'g', 't', ';']);
        assert(s.skip(4) =~= rest);
        assert(s.len() >= 5 ==> s.take(5)[1] == 'g');
        assert(s.take(4)[1] == 'g');
    } else if c == '"' {
        assert(s.take(6) =~= seq!['&', 'q', 'u', 'o', 't', ';']);
        assert(s.skip(6) =~= rest);
        assert(s.take(5)[1] == 'q');
        assert(s.take(4)[1] == 'q');
    } else if c == '\'' {
        assert(s.take(5) =~= seq!['&', '#', '3', '9', ';']);
        assert(s.skip(5) =~= rest);
        assert(s.take(5)[1] == '#');
        assert(s.take(4)[1] == '#');
        assert(s.len() >= 6 ==> s.take(6)[1] == '#');
    } else {
        assert(s[0] == c);
        assert(s.skip(1) =~= rest);
        assert(s.len() >= 5 ==> s.take(5)[0] == c);
        assert(s.len() >= 4 ==> s.take(4)[0] == c);
        assert(s.len() >= 6 ==> s.take(6)[0] == c);
    }
}

/// A browser shows an escaped text as the text that it was, whatever it holds.
pub proof fn escaped_texts_are_shown_as_they_were(s: Seq<char>)
    ensures
        html_shown(html_escaped(s)) == s,
    decreases s.len(),
{
    if s.len() > 0 {
        let rest = s.skip(1);
        escaped_texts_are_shown_as_they_were(rest);
        lemma_first_is_escaped(s);
        lemma_first_is_shown(s[0], html_escaped(rest));
        assert(seq![s[0]] + rest =~= s);
    } else {
        assert(html_shown(html_escaped(s)) =~= s);
    }
}

/// The page is made of its fixed parts, in this order and all of them, and of the lines
/// that take a value, each in its place, whatever the values are.
pub proof fn pages_have_all_parts(v: ReportView)
    ensures
        report_text(v) == PAGE_TOP@ + with_values(TITLE_LINE@, v) + PAGE_STYLE@ + with_values(
            ROOT_LINE@,
            v,
        ) + with_values(TIME_LINE@, v) + PAGE_BODY@ + with_values(FINDINGS_LINE@, v)
            + with_values(SUMMARY_LINE@, v) + with_values(ERRORS_LINE@, v) + PAGE_SCRIPT@,
        starts_with(report_text(v), PAGE_TOP@),
        report_text(v).skip(report_text(v).len() - PAGE_SCRIPT@.len()) == PAGE_SCRIPT@,
{
    let r = report_text(v);
    assert(r.take(PAGE_TOP@.len() as int) =~= PAGE_TOP@);
    assert(r.skip(r.len() - PAGE_SCRIPT@.len()) =~= PAGE_SCRIPT@);
}

/// What the values of a report are said to hold is what they hold.
pub proof fn report_views_are_faithful(v: ReportValues)
    ensures
        v@.scan_root == v.scan_root@,
        v@.scan_time == v.scan_time@,
        v@.findings_json == v.findings_json@,
        v@.summary_json == v.summary_json@,
        v@.errors_json == v.errors_json@,
{
}

} // verus!
