//! What the script never does.
//!
//! A line of the script runs what stands behind its indentation. The laws of this
//! module say which lines write access control lists back and which set the mode,
//! for all findings, and that the lines can be told apart in the text.

use super::block::{action_lines, block_lines, note_lines, numbered, preview_lines, Part};
use super::findings::{
    actionable, actionable_findings, bool_text, dedup_key, escaped, guidance_text, has_key,
    mask_text, truncated, truncated_is_a_start, unique_findings, unique_keeps_each_key_once,
};
use super::fixed::{
    ACTIONS_TOP, ACTION_COUNT, BANNER_ACTIONABLE, BANNER_ROOT, BANNER_TOTAL, BLOCK_PATH,
    BLOCK_TITLE, BREAK_ACTION, BREAK_DONE, BREAK_DRY, BREAK_NOTE, COMMIT_BOTTOM, COMMIT_DONE,
    COMMIT_TOP, DRY_BOTTOM, DRY_TITLE, FOLDER_BAR, FOLDER_PATH, FOLDER_RANK, FOOTER_TOTAL, GATE,
    GRANT_ACTION, GRANT_DONE, GRANT_DRY, GRANT_MATCH, GRANT_NOTE, HEADER_ACTIONABLE, HEADER_ROOT,
    HEADER_TIME, HEADER_TOTAL, HEADER_VERSION, LIVE_OFF, NOTES_BOTTOM, ORPHAN_ACTION, ORPHAN_DONE,
    ORPHAN_DRY, ORPHAN_MATCH, ORPHAN_NOTE, ORPHAN_SID, PS_RULE, SAFETY, SKIPPED, TARGET_PATH,
    TRIAGE_GUIDANCE, TRIAGE_PATH, TRIAGE_RISK, TRIAGE_TITLE, UTF8_BOM, WHAT_IF,
};
use super::folders::{
    alphabetical, arranged, arranged_holds_its_items, groups_hold_each_finding_once, on_path,
    path_list, paths_of, riskier, riskier_is_total, top_folders, total_size, FolderView,
    GroupView,
};
use super::script::{
    banner_lines, bar, bar_color, folder_list_lines, footer_lines, header_lines, top_lines,
    triage_lines,
};
use super::wording::{
    is_quiet, lemma_action_templates, lemma_actions_top, lemma_banner_bottom,
    lemma_banner_templates, lemma_banner_top, lemma_block_bottom, lemma_block_templates,
    lemma_break_repair, lemma_commit_bottom, lemma_commit_top, lemma_dry_bottom, lemma_filled1,
    lemma_filled2, lemma_filled3, lemma_filled4, lemma_filled5, lemma_folder_templates,
    lemma_folders_bottom, lemma_folders_top, lemma_footer_bottom, lemma_footer_templates,
    lemma_footer_top, lemma_grant_removal, lemma_guidance, lemma_header_bottom,
    lemma_header_templates, lemma_header_top, lemma_live_off, lemma_note_templates,
    lemma_notes_bottom, lemma_orphan_removal, lemma_preview_templates, lemma_safety,
    lemma_single_lines, lemma_triage_bottom, lemma_triage_templates, lemma_what_if, runs,
};
use super::{action_total, blocks_lines, comments_lines, fixes, script_lines, script_text};
use crate::clock::{is_zoned_time, time_is_one_line};
use crate::lines::{filled1, filled2, is_one_line, lines_of, lines_read_back, render, texts};
use crate::order::text_before;
use crate::scanner::risk::{FindingView, RiskKindView, Severity};
use crate::text::{decimal, digit, hex, lower_hex_digit, padded, upper_hex_digit};
use crate::VERSION;
use vstd::prelude::*;

verus! {

// ---------------------------------------------------------------------------
// Fields on one line
// ---------------------------------------------------------------------------

proof fn lemma_push_one_line(s: Seq<char>, c: char)
    ensures
        is_one_line(s) && c != '\n' ==> is_one_line(s.push(c)),
{
    if s.push(c).contains('\n') {
        let i = choose|i: int| 0 <= i < s.push(c).len() && s.push(c)[i] == '\n';
        if i < s.len() {
            assert(s[i] == '\n');
        }
    }
}

proof fn lemma_decimal_one_line(n: nat)
    ensures
        is_one_line(decimal(n)),
    decreases n,
{
    if n < 10 {
        lemma_push_one_line(Seq::empty(), digit(n));
        assert(decimal(n) =~= Seq::<char>::empty().push(digit(n)));
    } else {
        lemma_decimal_one_line(n / 10);
        lemma_push_one_line(decimal(n / 10), digit(n % 10));
    }
}

proof fn lemma_hex_one_line(n: nat, width: nat, upper: bool)
    ensures
        is_one_line(hex(n, width, upper)),
    decreases width,
{
    if width > 0 {
        let head = hex(n / 16, (width - 1) as nat, upper);
        lemma_hex_one_line(n / 16, (width - 1) as nat, upper);
        lemma_push_one_line(head, upper_hex_digit(n % 16));
        lemma_push_one_line(head, lower_hex_digit(n % 16));
    }
}

proof fn lemma_padded_one_line(s: Seq<char>, width: nat)
    ensures
        is_one_line(s) ==> is_one_line(padded(s, width, ' ')),
{
    let p = padded(s, width, ' ');
    if p.contains('\n') && p.len() != s.len() {
        let i = choose|i: int| 0 <= i < p.len() && p[i] == '\n';
        assert(s[i - (width - s.len())] == '\n');
    }
}

proof fn lemma_escaped_one_line(s: Seq<char>)
    ensures
        is_one_line(s) ==> is_one_line(escaped(s)),
    decreases s.len(),
{
    if s.len() > 0 && is_one_line(s) {
        lemma_start_one_line(s.drop_last(), s);
        lemma_escaped_one_line(s.drop_last());
        assert(s.last() != '\n') by {
            assert(s.contains(s[s.len() - 1]));
        }
        let head = escaped(s.drop_last());
        lemma_push_one_line(head, s.last());
        lemma_push_one_line(head, '\'');
        lemma_push_one_line(head.push('\''), s.last());
        assert(escaped(s) =~= if s.last() == '\'' {
            head.push('\'').push(s.last())
        } else {
            head.push(s.last())
        });
    }
}

proof fn lemma_start_one_line(start: Seq<char>, s: Seq<char>)
    requires
        start.is_prefix_of(s),
        is_one_line(s),
    ensures
        is_one_line(start),
{
    if start.contains('\n') {
        let i = choose|i: int| 0 <= i < start.len() && start[i] == '\n';
        assert(s[i] == '\n');
    }
}

proof fn lemma_words_one_line()
    ensures
        forall|severity: Severity| is_one_line(#[trigger] severity.name_text()),
        forall|b: bool| is_one_line(#[trigger] bool_text(b)),
        forall|score: nat| is_one_line(#[trigger] bar_color(score)),
        forall|score: nat| is_one_line(#[trigger] bar(score)),
        is_one_line(VERSION@),
{
    reveal_strlit("Info");
    reveal_strlit("Low");
    reveal_strlit("Medium");
    reveal_strlit("High");
    reveal_strlit("Critical");
    reveal_strlit("true");
    reveal_strlit("false");
    reveal_strlit("Red");
    reveal_strlit("Yellow");
    reveal_strlit("DarkYellow");
    reveal_strlit("1.2.0");
}

// ---------------------------------------------------------------------------
// Lists of lines
// ---------------------------------------------------------------------------

/// Whether a line is quiet, or writes an access control list back in a way that
/// changes nothing.
pub open spec fn is_tame(line: Seq<char>) -> bool {
    is_quiet(line) || line == WHAT_IF@
}

/// Whether each of the lines is tame.
pub open spec fn are_tame(lines: Seq<Seq<char>>) -> bool {
    forall|i: int| 0 <= i < lines.len() ==> is_tame(#[trigger] lines[i])
}

/// Whether each of the lines is quiet.
pub open spec fn are_quiet(lines: Seq<Seq<char>>) -> bool {
    forall|i: int| 0 <= i < lines.len() ==> is_quiet(#[trigger] lines[i])
}

/// Whether each of the lines is one line.
pub open spec fn are_single(lines: Seq<Seq<char>>) -> bool {
    forall|i: int| 0 <= i < lines.len() ==> is_one_line(#[trigger] lines[i])
}

/// Whether what a finding says stands on one line.
pub open spec fn is_one_line_finding(f: FindingView) -> bool {
    &&& is_one_line(f.path)
    &&& is_one_line(f.description)
    &&& match f.risk {
        RiskKindView::OverPermissiveAce { trustee, access_mask: _, access_mask_human } =>
            is_one_line(trustee) && is_one_line(access_mask_human),
        RiskKindView::OrphanedSid { raw_sid } => is_one_line(raw_sid),
        _ => true,
    }
}

/// Whether what findings say stands on one line each.
pub open spec fn are_one_line_findings(s: Seq<FindingView>) -> bool {
    forall|i: int| 0 <= i < s.len() ==> is_one_line_finding(#[trigger] s[i])
}

proof fn lemma_header(s: Seq<FindingView>, scan_root: Seq<char>, time: Seq<char>)
    ensures
        are_quiet(header_lines(s, scan_root, time)),
        is_one_line(scan_root) && is_one_line(time) ==> are_single(
            header_lines(s, scan_root, time),
        ),
{
    lemma_header_top();
    lemma_header_bottom();
    lemma_header_templates();
    lemma_words_one_line();
    let total = decimal(s.len());
    let fixable = decimal(actionable_findings(s).len());
    lemma_decimal_one_line(s.len());
    lemma_decimal_one_line(actionable_findings(s).len());
    lemma_filled1(HEADER_ROOT@, scan_root);
    lemma_filled1(HEADER_TOTAL@, total);
    lemma_filled1(HEADER_ACTIONABLE@, fixable);
    lemma_filled1(HEADER_TIME@, time);
    lemma_filled1(HEADER_VERSION@, VERSION@);
}

proof fn lemma_banner(scan_root: Seq<char>, s: Seq<FindingView>)
    ensures
        are_quiet(banner_lines(scan_root, s)),
        is_one_line(scan_root) ==> are_single(banner_lines(scan_root, s)),
{
    lemma_banner_top();
    lemma_banner_bottom();
    lemma_banner_templates();
    lemma_decimal_one_line(s.len());
    lemma_decimal_one_line(actionable_findings(s).len());
    lemma_filled1(BANNER_ROOT@, scan_root);
    lemma_filled1(BANNER_TOTAL@, decimal(s.len()));
    lemma_filled1(BANNER_ACTIONABLE@, decimal(actionable_findings(s).len()));
}

proof fn lemma_footer(total_actions: nat)
    ensures
        are_quiet(footer_lines(total_actions)),
        are_single(footer_lines(total_actions)),
{
    lemma_footer_top();
    lemma_footer_bottom();
    lemma_footer_templates();
    lemma_decimal_one_line(total_actions);
    lemma_filled1(FOOTER_TOTAL@, decimal(total_actions));
}

proof fn lemma_top(s: Seq<FindingView>)
    ensures
        are_quiet(top_lines(s)),
        are_one_line_findings(s) ==> are_single(top_lines(s)),
{
    let fs = top_folders(s);
    lemma_folders_top();
    lemma_folders_bottom();
    lemma_folder_list(fs);
    if are_one_line_findings(s) {
        riskier_is_total(s);
        arranged_holds_its_items(paths_of(s), riskier(s));
        assert forall|i: int| 0 <= i < fs.len() implies is_one_line((#[trigger] fs[i]).path) by {
            let list = arranged(paths_of(s), riskier(s));
            assert(list.contains(list[i]));
            let k = choose|k: int| 0 <= k < s.len() && paths_of(s)[k] == list[i];
            assert(is_one_line_finding(s[k]));
        }
    }
}

proof fn lemma_folder_list(fs: Seq<FolderView>)
    ensures
        are_quiet(folder_list_lines(fs)),
        (forall|i: int| 0 <= i < fs.len() ==> is_one_line((#[trigger] fs[i]).path)) ==> are_single(
            folder_list_lines(fs),
        ),
    decreases fs.len(),
{
    if fs.len() > 0 {
        let n = fs.len();
        let f = fs.last();
        lemma_folder_list(fs.drop_last());
        lemma_single_lines();
        lemma_folder_templates();
        lemma_words_one_line();
        lemma_decimal_one_line(n);
        lemma_decimal_one_line(f.score);
        lemma_decimal_one_line(f.count);
        lemma_padded_one_line(decimal(f.score), 3);
        lemma_escaped_one_line(f.path);
        lemma_filled3(
            FOLDER_RANK@,
            decimal(n),
            padded(decimal(f.score), 3, ' '),
            decimal(f.count),
        );
        lemma_filled2(FOLDER_BAR@, bar(f.score), bar_color(f.score));
        lemma_filled1(FOLDER_PATH@, escaped(f.path));
        assert(fs.last() == fs[fs.len() - 1]);
        assert forall|i: int| 0 <= i < fs.drop_last().len() implies #[trigger] fs.drop_last()[i]
            == fs[i] by {}
        assert(folder_list_lines(fs.drop_last()).len() == 0 || n > 1) by {
            if n == 1 {
                assert(fs.drop_last().len() == 0);
            }
        }
    }
}

proof fn lemma_note(n: nat, f: FindingView)
    ensures
        are_quiet(note_lines(n, f)),
        is_one_line_finding(f) ==> are_single(note_lines(n, f)),
{
    lemma_note_templates();
    lemma_words_one_line();
    lemma_decimal_one_line(n);
    let severity = f.severity.name_text();
    match f.risk {
        RiskKindView::OverPermissiveAce { trustee, access_mask, access_mask_human } => {
            lemma_hex_one_line(access_mask as nat, 8, true);
            lemma_filled5(
                GRANT_NOTE@,
                decimal(n),
                severity,
                trustee,
                access_mask_human,
                mask_text(access_mask),
            );
        },
        RiskKindView::InheritanceBreak { had_protected_copy } => {
            lemma_filled3(BREAK_NOTE@, decimal(n), severity, bool_text(had_protected_copy));
        },
        RiskKindView::OrphanedSid { raw_sid } => {
            lemma_filled3(ORPHAN_NOTE@, decimal(n), severity, raw_sid);
        },
        _ => {},
    }
}

proof fn lemma_action(n: nat, f: FindingView)
    ensures
        are_quiet(action_lines(n, f)),
        is_one_line_finding(f) ==> are_single(action_lines(n, f)),
{
    lemma_single_lines();
    lemma_action_templates();
    lemma_decimal_one_line(n);
    match f.risk {
        RiskKindView::OverPermissiveAce { trustee, access_mask, access_mask_human } => {
            lemma_grant_removal();
            lemma_hex_one_line(access_mask as nat, 8, true);
            lemma_filled4(
                GRANT_ACTION@,
                decimal(n),
                trustee,
                access_mask_human,
                mask_text(access_mask),
            );
            lemma_filled1(GRANT_MATCH@, trustee);
            lemma_filled3(GRANT_DONE@, decimal(n), trustee, access_mask_human);
        },
        RiskKindView::InheritanceBreak { had_protected_copy: _ } => {
            lemma_break_repair();
            lemma_filled1(BREAK_ACTION@, decimal(n));
            lemma_filled1(BREAK_DONE@, decimal(n));
        },
        RiskKindView::OrphanedSid { raw_sid } => {
            lemma_orphan_removal();
            lemma_filled2(ORPHAN_ACTION@, decimal(n), raw_sid);
            lemma_filled2(ORPHAN_SID@, decimal(n), raw_sid);
            lemma_filled1(ORPHAN_MATCH@, decimal(n));
            lemma_filled2(ORPHAN_DONE@, decimal(n), raw_sid);
        },
        _ => {},
    }
}

proof fn lemma_preview(n: nat, f: FindingView)
    ensures
        are_quiet(preview_lines(n, f)),
        is_one_line_finding(f) ==> are_single(preview_lines(n, f)),
{
    lemma_preview_templates();
    lemma_words_one_line();
    lemma_decimal_one_line(n);
    match f.risk {
        RiskKindView::OverPermissiveAce { trustee, access_mask, access_mask_human } => {
            lemma_hex_one_line(access_mask as nat, 8, true);
            lemma_filled4(
                GRANT_DRY@,
                decimal(n),
                trustee,
                access_mask_human,
                mask_text(access_mask),
            );
        },
        RiskKindView::InheritanceBreak { had_protected_copy } => {
            lemma_filled2(BREAK_DRY@, decimal(n), bool_text(had_protected_copy));
        },
        RiskKindView::OrphanedSid { raw_sid } => {
            lemma_filled2(ORPHAN_DRY@, decimal(n), raw_sid);
        },
        _ => {},
    }
}

pub(crate) proof fn lemma_numbered(part: Part, s: Seq<FindingView>)
    ensures
        are_quiet(numbered(part, s)),
        are_one_line_findings(s) ==> are_single(numbered(part, s)),
    decreases s.len(),
{
    if s.len() > 0 {
        lemma_numbered(part, s.drop_last());
        match part {
            Part::Note => lemma_note(s.len(), s.last()),
            Part::Action => lemma_action(s.len(), s.last()),
            Part::Preview => lemma_preview(s.len(), s.last()),
        }
        assert(s.last() == s[s.len() - 1]);
        assert forall|i: int| 0 <= i < s.drop_last().len() implies #[trigger] s.drop_last()[i]
            == s[i] by {}
    }
}

proof fn lemma_unique_one_line(s: Seq<FindingView>)
    ensures
        are_one_line_findings(s) ==> are_one_line_findings(unique_findings(s)),
    decreases s.len(),
{
    if s.len() > 0 {
        lemma_unique_one_line(s.drop_last());
        assert(s.last() == s[s.len() - 1]);
        assert forall|i: int| 0 <= i < s.drop_last().len() implies #[trigger] s.drop_last()[i]
            == s[i] by {}
    }
}

proof fn lemma_block(num: nat, path: Seq<char>, findings: Seq<FindingView>)
    ensures
        are_tame(block_lines(num, path, findings)),
        is_one_line(path) && are_one_line_findings(findings) ==> are_single(
            block_lines(num, path, findings),
        ),
{
    let unique = unique_findings(findings);
    let count = decimal(unique.len());
    let place = padded(decimal(num), 3, ' ');
    lemma_unique_one_line(findings);
    lemma_numbered(Part::Note, unique);
    lemma_numbered(Part::Action, unique);
    lemma_numbered(Part::Preview, unique);
    lemma_single_lines();
    lemma_block_templates();
    lemma_notes_bottom();
    lemma_actions_top();
    lemma_commit_top();
    lemma_commit_bottom();
    lemma_dry_bottom();
    lemma_block_bottom();
    lemma_decimal_one_line(num);
    lemma_decimal_one_line(unique.len());
    lemma_padded_one_line(decimal(num), 3);
    lemma_escaped_one_line(path);
    lemma_filled2(BLOCK_TITLE@, decimal(num), count);
    lemma_filled1(BLOCK_PATH@, path);
    lemma_filled1(ACTION_COUNT@, count);
    lemma_filled1(TARGET_PATH@, escaped(path));
    lemma_filled1(COMMIT_DONE@, count);
    lemma_filled2(DRY_TITLE@, place, count);
    lemma_filled1(SKIPPED@, place);
    assert(texts(COMMIT_TOP@)[2] == WHAT_IF@);
    assert(are_tame(texts(COMMIT_TOP@)));
    let title = seq![
        PS_RULE@,
        filled2(BLOCK_TITLE@, decimal(num), count),
        filled1(BLOCK_PATH@, path),
        "#"@,
    ];
    let notes = title + numbered(Part::Note, unique) + texts(NOTES_BOTTOM@);
    assert(are_tame(notes));
    let target = notes.push(filled1(ACTION_COUNT@, count)).push(
        filled1(TARGET_PATH@, escaped(path)),
    );
    let live = target + texts(ACTIONS_TOP@) + numbered(Part::Action, unique) + texts(COMMIT_TOP@);
    assert(are_tame(live));
    let commit = live.push(filled1(COMMIT_DONE@, count)) + texts(COMMIT_BOTTOM@);
    assert(are_tame(commit));
    let dry = commit.push(filled2(DRY_TITLE@, place, count)) + numbered(Part::Preview, unique)
        + texts(DRY_BOTTOM@);
    assert(are_tame(dry));
    if is_one_line(path) && are_one_line_findings(findings) {
        assert(are_single(notes));
        assert(are_single(live));
        assert(are_single(commit));
        assert(are_single(dry));
    }
}

/// Whether what groups of findings say stands on one line each.
spec fn are_one_line_groups(g: Seq<GroupView>) -> bool {
    forall|i: int|
        0 <= i < g.len() ==> is_one_line((#[trigger] g[i]).path) && are_one_line_findings(
            g[i].findings,
        )
}

proof fn lemma_blocks(g: Seq<GroupView>)
    ensures
        are_tame(blocks_lines(g)),
        are_one_line_groups(g) ==> are_single(blocks_lines(g)),
    decreases g.len(),
{
    if g.len() > 0 {
        lemma_blocks(g.drop_last());
        lemma_block(g.len(), g.last().path, g.last().findings);
        assert(g.last() == g[g.len() - 1]);
        assert forall|i: int| 0 <= i < g.drop_last().len() implies #[trigger] g.drop_last()[i]
            == g[i] by {}
    }
}

proof fn lemma_selected_one_line(s: Seq<FindingView>, path: Seq<char>)
    ensures
        are_one_line_findings(s) ==> are_one_line_findings(on_path(s, path)),
        are_one_line_findings(s) ==> are_one_line_findings(actionable_findings(s)),
    decreases s.len(),
{
    if s.len() > 0 {
        lemma_selected_one_line(s.drop_last(), path);
        assert(s.last() == s[s.len() - 1]);
        assert forall|i: int| 0 <= i < s.drop_last().len() implies #[trigger] s.drop_last()[i]
            == s[i] by {}
    }
}

proof fn lemma_fixes_one_line(s: Seq<FindingView>)
    ensures
        are_one_line_findings(s) ==> are_one_line_groups(fixes(s)),
{
    if are_one_line_findings(s) {
        let a = actionable_findings(s);
        lemma_selected_one_line(s, Seq::empty());
        groups_hold_each_finding_once(a);
        let list = path_list(a);
        assert forall|i: int| 0 <= i < fixes(s).len() implies is_one_line(
            (#[trigger] fixes(s)[i]).path,
        ) && are_one_line_findings(fixes(s)[i].findings) by {
            assert(list.contains(list[i]));
            let k = choose|k: int| 0 <= k < a.len() && paths_of(a)[k] == list[i];
            assert(is_one_line_finding(a[k]));
            lemma_selected_one_line(a, list[i]);
        }
    }
}

proof fn lemma_triage(num: nat, f: FindingView, guidance: Seq<char>)
    ensures
        are_quiet(triage_lines(num, f, guidance)),
        is_one_line_finding(f) && is_one_line(guidance) ==> are_single(
            triage_lines(num, f, guidance),
        ),
{
    lemma_single_lines();
    lemma_triage_templates();
    lemma_triage_bottom();
    lemma_words_one_line();
    lemma_decimal_one_line(num);
    truncated_is_a_start(f.description);
    if is_one_line(f.description) {
        lemma_start_one_line(truncated(f.description), f.description);
    }
    lemma_filled2(TRIAGE_TITLE@, decimal(num), f.severity.name_text());
    lemma_filled1(TRIAGE_PATH@, f.path);
    lemma_filled1(TRIAGE_RISK@, truncated(f.description));
    lemma_filled1(TRIAGE_GUIDANCE@, guidance);
}

proof fn lemma_comments(s: Seq<FindingView>)
    ensures
        are_quiet(comments_lines(s)),
        are_one_line_findings(s) ==> are_single(comments_lines(s)),
    decreases s.len(),
{
    if s.len() > 0 {
        let f = s.last();
        lemma_comments(s.drop_last());
        assert(f == s[s.len() - 1]);
        assert forall|i: int| 0 <= i < s.drop_last().len() implies #[trigger] s.drop_last()[i]
            == s[i] by {}
        match guidance_text(f.risk) {
            Some(guidance) => {
                lemma_guidance();
                match f.risk {
                    RiskKindView::AnomalySimulated { cycles_in_ms } => {
                        lemma_decimal_one_line(cycles_in_ms as nat);
                    },
                    _ => {},
                }
                lemma_triage(s.len(), f, guidance);
            },
            None => {},
        }
    }
}

// ---------------------------------------------------------------------------
// Laws
// ---------------------------------------------------------------------------

/// Where the script turns live mode off, counted from the end of the header.
pub const LIVE_OFF_AT: usize = 24;

/// Where the script asks for confirmation, counted from the end of the header.
pub const GATE_AT: usize = 35;

/// The script is a dry run, whatever was found: it turns live mode off and never
/// on, it writes access control lists back only with `-WhatIf` and only behind the
/// confirmation, and it never runs `icacls`.
pub proof fn script_is_a_dry_run(s: Seq<FindingView>, scan_root: Seq<char>, time: Seq<char>)
    ensures
        ({
            let lines = script_lines(s, scan_root, time);
            let off = header_lines(s, scan_root, time).len() + LIVE_OFF_AT;
            let gate = header_lines(s, scan_root, time).len() + GATE_AT;
            &&& off < gate < lines.len()
            &&& lines[off] == LIVE_OFF@
            &&& lines[gate] == GATE@
            &&& forall|i: int|
                0 <= i < lines.len() && runs(#[trigger] lines[i], "$LiveMode"@) ==> i == off
            &&& forall|i: int|
                0 <= i < lines.len() && runs(#[trigger] lines[i], "Set-Acl"@) ==> i > gate
                    && lines[i] == WHAT_IF@
            &&& forall|i: int| 0 <= i < lines.len() ==> !runs(#[trigger] lines[i], "icacls"@)
        }),
{
    let header = header_lines(s, scan_root, time);
    let safety = texts(SAFETY@);
    let before = header + safety;
    let rest = banner_lines(scan_root, s) + top_lines(s) + blocks_lines(fixes(s)) + comments_lines(
        s,
    ) + footer_lines(action_total(fixes(s)));
    let lines = script_lines(s, scan_root, time);
    lemma_header(s, scan_root, time);
    lemma_safety();
    lemma_banner(scan_root, s);
    lemma_top(s);
    lemma_blocks(fixes(s));
    lemma_comments(s);
    lemma_footer(action_total(fixes(s)));
    assert(are_tame(rest));
    assert(lines =~= before + rest);
    lemma_what_if();
    lemma_live_off();
    let off = header.len() + LIVE_OFF_AT;
    let gate = header.len() + GATE_AT;
    assert(safety[LIVE_OFF_AT as int] == LIVE_OFF@);
    assert(safety[GATE_AT as int] == GATE@);
    assert forall|i: int| 0 <= i < lines.len() && i != off implies is_tame(#[trigger] lines[i]) && (
    i < before.len() ==> is_quiet(lines[i])) by {
        if i < header.len() {
            assert(lines[i] == header[i]);
        } else if i < before.len() {
            assert(lines[i] == safety[i - header.len()]);
        } else {
            assert(lines[i] == rest[i - before.len()]);
        }
    }
    assert(lines[off] == safety[LIVE_OFF_AT as int]);
    assert(lines[gate] == safety[GATE_AT as int]);
}

/// The lines of the script can be read off its text behind the byte order mark,
/// where nothing that was found holds a line break. What holds of the lines, such
/// as that they are a dry run, then holds of the text.
pub proof fn script_reads_back(s: Seq<FindingView>, scan_root: Seq<char>, time: Seq<char>)
    requires
        is_one_line(scan_root),
        is_zoned_time(time),
        are_one_line_findings(s),
    ensures
        script_text(s, scan_root, time).take(1) == UTF8_BOM@,
        lines_of(script_text(s, scan_root, time).skip(1)) == script_lines(s, scan_root, time),
{
    time_is_one_line(time);
    lemma_header(s, scan_root, time);
    lemma_safety();
    lemma_banner(scan_root, s);
    lemma_top(s);
    lemma_blocks(fixes(s));
    lemma_fixes_one_line(s);
    lemma_comments(s);
    lemma_footer(action_total(fixes(s)));
    assert(are_single(texts(SAFETY@)));
    assert(are_single(script_lines(s, scan_root, time)));
    lines_read_back(script_lines(s, scan_root, time));
    reveal_strlit("\u{FEFF}");
    let text = script_text(s, scan_root, time);
    assert(text.take(1) =~= UTF8_BOM@);
    assert(text.skip(1) =~= render(script_lines(s, scan_root, time)));
}

/// A finding that cannot be fixed brings nothing but comments: each line is empty
/// or starts with `#`.
pub proof fn triage_is_comment_only(s: Seq<FindingView>)
    ensures
        forall|i: int|
            #![trigger comments_lines(s)[i]]
            0 <= i < comments_lines(s).len() ==> comments_lines(s)[i].len() == 0
                || comments_lines(s)[i][0] == '#',
    decreases s.len(),
{
    if s.len() > 0 {
        let head = comments_lines(s.drop_last());
        triage_is_comment_only(s.drop_last());
        match guidance_text(s.last().risk) {
            Some(guidance) => {
                let last = triage_lines(s.len(), s.last(), guidance);
                lemma_triage_is_comment(s.len(), s.last(), guidance);
                assert forall|i: int|
                    #![trigger comments_lines(s)[i]]
                    0 <= i < comments_lines(s).len() implies comments_lines(s)[i].len() == 0
                    || comments_lines(s)[i][0] == '#' by {
                    if i < head.len() {
                        assert(comments_lines(s)[i] == head[i]);
                    } else {
                        assert(comments_lines(s)[i] == last[i - head.len()]);
                    }
                }
            },
            None => {
                assert(comments_lines(s) =~= head);
            },
        }
    }
}

proof fn lemma_triage_is_comment(num: nat, f: FindingView, guidance: Seq<char>)
    ensures
        forall|i: int|
            #![trigger triage_lines(num, f, guidance)[i]]
            0 <= i < triage_lines(num, f, guidance).len() ==> triage_lines(num, f, guidance)[i].len()
                == 0 || triage_lines(num, f, guidance)[i][0] == '#',
{
    reveal_strlit(
        "# ──────────────────────────────────────────────────────────────────────────────",
    );
    reveal_strlit("# INFO (Finding #");
    reveal_strlit("# Path:     ");
    reveal_strlit("# Risk:     ");
    reveal_strlit("# Guidance: ");
    reveal_strlit("#");
    reveal_strlit("# No automated fix is generated for this finding type.");
    reveal_strlit("# Please review the HTML report for full details and remediate manually.");
    reveal_strlit("");
}

/// Where nothing can be fixed, the script holds no block, and no action is counted.
pub proof fn nothing_to_fix(s: Seq<FindingView>, scan_root: Seq<char>, time: Seq<char>)
    requires
        actionable_findings(s).len() == 0,
    ensures
        blocks_lines(fixes(s)) == Seq::<Seq<char>>::empty(),
        action_total(fixes(s)) == 0,
        script_lines(s, scan_root, time) == header_lines(s, scan_root, time) + texts(SAFETY@)
            + banner_lines(scan_root, s) + top_lines(s) + comments_lines(s) + footer_lines(0),
{
    assert(paths_of(actionable_findings(s)) =~= Seq::<Seq<char>>::empty());
    assert(fixes(s).len() == 0);
    let front = header_lines(s, scan_root, time) + texts(SAFETY@) + banner_lines(scan_root, s)
        + top_lines(s);
    assert(front + Seq::<Seq<char>>::empty() =~= front);
}

/// The script has one block for each path on which something can be fixed, in the
/// order of the paths, with all that can be fixed there; each finding that can be
/// fixed stands in one block.
pub proof fn one_block_per_path(s: Seq<FindingView>)
    ensures
        fixes(s).len() == path_list(actionable_findings(s)).len(),
        forall|i: int|
            0 <= i < fixes(s).len() ==> (#[trigger] fixes(s)[i]).path == path_list(
                actionable_findings(s),
            )[i] && fixes(s)[i].findings == on_path(actionable_findings(s), fixes(s)[i].path),
        forall|i: int, j: int|
            0 <= i < j < fixes(s).len() ==> text_before(
                (#[trigger] fixes(s)[i]).path,
                (#[trigger] fixes(s)[j]).path,
            ),
        forall|k: int|
            0 <= k < actionable_findings(s).len() ==> path_list(actionable_findings(s)).contains(
                (#[trigger] actionable_findings(s)[k]).path,
            ),
        total_size(fixes(s)) == actionable_findings(s).len(),
{
    let a = actionable_findings(s);
    groups_hold_each_finding_once(a);
    assert forall|i: int, j: int| 0 <= i < j < fixes(s).len() implies text_before(
        (#[trigger] fixes(s)[i]).path,
        (#[trigger] fixes(s)[j]).path,
    ) by {
        assert(alphabetical()(path_list(a)[i], path_list(a)[j]));
    }
    assert forall|k: int| 0 <= k < a.len() implies path_list(a).contains(
        (#[trigger] a[k]).path,
    ) by {
        assert(paths_of(a)[k] == a[k].path);
    }
}

/// Each finding of a block has one line that says what would be done about it.
pub proof fn each_fix_is_previewed(s: Seq<FindingView>)
    requires
        forall|i: int| 0 <= i < s.len() ==> actionable((#[trigger] s[i]).risk),
    ensures
        numbered(Part::Preview, s).len() == s.len(),
        forall|i: int|
            0 <= i < s.len() ==> seq![#[trigger] numbered(Part::Preview, s)[i]] == preview_lines(
                (i + 1) as nat,
                s[i],
            ),
    decreases s.len(),
{
    if s.len() > 0 {
        let head = s.drop_last();
        assert forall|i: int| 0 <= i < head.len() implies actionable(
            (#[trigger] head[i]).risk,
        ) by {
            assert(head[i] == s[i]);
        }
        each_fix_is_previewed(head);
        assert(actionable(s[s.len() - 1].risk));
        assert forall|i: int| 0 <= i < s.len() implies seq![
            #[trigger] numbered(Part::Preview, s)[i],
        ] == preview_lines((i + 1) as nat, s[i]) by {
            if i < head.len() {
                assert(numbered(Part::Preview, s)[i] == numbered(Part::Preview, head)[i]);
                assert(head[i] == s[i]);
            } else {
                let last = preview_lines(s.len(), s.last());
                assert(numbered(Part::Preview, s)[i] == last[0]);
                assert(seq![last[0]] =~= last);
            }
        }
    }
}

/// Each finding stands in the script: one that can be fixed stands in the block of
/// its path, or one that reads the same does; any other has a comment of its own,
/// under its number.
pub proof fn each_finding_is_in_the_script(s: Seq<FindingView>, k: int)
    requires
        0 <= k < s.len(),
    ensures
        actionable(s[k].risk) ==> exists|i: int|
            0 <= i < fixes(s).len() && (#[trigger] fixes(s)[i]).path == s[k].path && has_key(
                unique_findings(fixes(s)[i].findings),
                dedup_key(s[k].risk),
            ),
        !actionable(s[k].risk) ==> guidance_text(s[k].risk) is Some && exists|at: int|
            0 <= at && at + triage_lines((k + 1) as nat, s[k], guidance_text(s[k].risk)->0).len()
                <= comments_lines(s).len() && #[trigger] comments_lines(s).subrange(
                at,
                at + triage_lines((k + 1) as nat, s[k], guidance_text(s[k].risk)->0).len(),
            ) == triage_lines((k + 1) as nat, s[k], guidance_text(s[k].risk)->0),
{
    if actionable(s[k].risk) {
        let a = actionable_findings(s);
        lemma_actionable_kept(s, k);
        let m = choose|m: int| 0 <= m < a.len() && #[trigger] a[m] == s[k];
        one_block_per_path(s);
        let list = path_list(a);
        assert(list.contains(a[m].path));
        let i = choose|i: int| 0 <= i < list.len() && list[i] == a[m].path;
        let on = on_path(a, s[k].path);
        lemma_on_path_kept(a, m);
        assert(fixes(s)[i].path == s[k].path);
        assert(fixes(s)[i].findings == on);
        let n = choose|n: int| 0 <= n < on.len() && #[trigger] on[n] == s[k];
        assert(dedup_key(on[n].risk) == dedup_key(s[k].risk));
        assert(has_key(on, dedup_key(s[k].risk)));
        unique_keeps_each_key_once(on);
        assert(has_key(unique_findings(on), dedup_key(s[k].risk)));
    } else {
        lemma_comment_kept(s, k);
    }
}

proof fn lemma_actionable_kept(s: Seq<FindingView>, k: int)
    requires
        0 <= k < s.len(),
        actionable(s[k].risk),
    ensures
        exists|m: int|
            0 <= m < actionable_findings(s).len() && #[trigger] actionable_findings(s)[m] == s[k],
    decreases s.len(),
{
    let a = actionable_findings(s);
    let head = actionable_findings(s.drop_last());
    if k == s.len() - 1 {
        assert(a[a.len() - 1] == s[k]);
    } else {
        lemma_actionable_kept(s.drop_last(), k);
        assert(s.drop_last()[k] == s[k]);
        let m = choose|m: int| 0 <= m < head.len() && #[trigger] head[m] == s[k];
        assert(a[m] == s[k]);
    }
}

proof fn lemma_on_path_kept(s: Seq<FindingView>, k: int)
    requires
        0 <= k < s.len(),
    ensures
        exists|m: int|
            0 <= m < on_path(s, s[k].path).len() && #[trigger] on_path(s, s[k].path)[m] == s[k],
    decreases s.len(),
{
    let p = s[k].path;
    let on = on_path(s, p);
    let head = on_path(s.drop_last(), p);
    if k == s.len() - 1 {
        assert(on[on.len() - 1] == s[k]);
    } else {
        lemma_on_path_kept(s.drop_last(), k);
        assert(s.drop_last()[k] == s[k]);
        let m = choose|m: int| 0 <= m < head.len() && #[trigger] head[m] == s[k];
        assert(on[m] == s[k]);
    }
}

proof fn lemma_comment_kept(s: Seq<FindingView>, k: int)
    requires
        0 <= k < s.len(),
        !actionable(s[k].risk),
    ensures
        exists|at: int|
            0 <= at && at + triage_lines((k + 1) as nat, s[k], guidance_text(s[k].risk)->0).len()
                <= comments_lines(s).len() && #[trigger] comments_lines(s).subrange(
                at,
                at + triage_lines((k + 1) as nat, s[k], guidance_text(s[k].risk)->0).len(),
            ) == triage_lines((k + 1) as nat, s[k], guidance_text(s[k].risk)->0),
    decreases s.len(),
{
    let block = triage_lines((k + 1) as nat, s[k], guidance_text(s[k].risk)->0);
    let all = comments_lines(s);
    let head = comments_lines(s.drop_last());
    let n = block.len() as int;
    if k == s.len() - 1 {
        assert(all == head + block);
        let at = head.len() as int;
        assert(all.subrange(at, at + n) =~= block);
    } else {
        lemma_comment_kept(s.drop_last(), k);
        assert(s.drop_last()[k] == s[k]);
        let at = choose|at: int|
            0 <= at && at + n <= head.len() && #[trigger] head.subrange(at, at + n) == block;
        assert(all.subrange(at, at + n) =~= head.subrange(at, at + n));
    }
}

} // verus!
