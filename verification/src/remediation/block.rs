//! The block that the script holds for one path.

use super::findings::{
    bool_text, bool_word, dedup_findings, escape_ps_path, escaped, mask_hex, mask_text, ref_views,
    unique_findings,
};
use super::fixed::{
    ACTIONS_TOP, ACTION_COUNT, BLOCK_BOTTOM, BLOCK_PATH, BLOCK_TITLE, BREAK_ACTION, BREAK_DONE,
    BREAK_DRY, BREAK_NOTE, BREAK_REPAIR, COMMIT_BOTTOM, COMMIT_DONE, COMMIT_TOP, DRY_BOTTOM,
    DRY_TITLE, GRANT_ACTION, GRANT_DONE, GRANT_DRY, GRANT_MATCH, GRANT_NOTE, GRANT_REMOVAL,
    GRANT_RULES, NOTES_BOTTOM, ORPHAN_ACTION, ORPHAN_DONE, ORPHAN_DRY, ORPHAN_MATCH, ORPHAN_NOTE,
    ORPHAN_REMOVAL, ORPHAN_RULES, ORPHAN_SID, PS_RULE, SKIPPED, TARGET_PATH,
};
use crate::lines::{
    fill1, fill2, fill3, fill4, fill5, filled1, filled2, filled3, filled4, filled5, render, texts,
    Lines,
};
use crate::scanner::risk::{FindingView, RiskFinding, RiskKind, RiskKindView};
use crate::text::{decimal, decimal_text, pad_text, padded};
use vstd::prelude::*;

verus! {

/// Where in a block something is said about a finding.
#[derive(Clone, Copy, PartialEq, Eq, Structural)]
pub enum Part {
    /// In the comment on top.
    Note,
    /// Where the finding is fixed, in live mode.
    Action,
    /// Where it is said what would be done.
    Preview,
}

/// What the comment says about the finding of this number.
pub open spec fn note_lines(n: nat, f: FindingView) -> Seq<Seq<char>> {
    let severity = f.severity.name_text();
    match f.risk {
        RiskKindView::OverPermissiveAce { trustee, access_mask, access_mask_human } => seq![
            filled5(
                GRANT_NOTE@,
                decimal(n),
                severity,
                trustee,
                access_mask_human,
                mask_text(access_mask),
            ),
        ],
        RiskKindView::InheritanceBreak { had_protected_copy } => seq![
            filled3(BREAK_NOTE@, decimal(n), severity, bool_text(had_protected_copy)),
        ],
        RiskKindView::OrphanedSid { raw_sid } => seq![
            filled3(ORPHAN_NOTE@, decimal(n), severity, raw_sid),
        ],
        _ => Seq::empty(),
    }
}

/// What fixes the finding of this number.
pub open spec fn action_lines(n: nat, f: FindingView) -> Seq<Seq<char>> {
    match f.risk {
        RiskKindView::OverPermissiveAce { trustee, access_mask, access_mask_human } => (seq![
            ""@,
            filled4(GRANT_ACTION@, decimal(n), trustee, access_mask_human, mask_text(access_mask)),
            GRANT_RULES@,
            filled1(GRANT_MATCH@, trustee),
        ] + texts(GRANT_REMOVAL@)).push(
            filled3(GRANT_DONE@, decimal(n), trustee, access_mask_human),
        ),
        RiskKindView::InheritanceBreak { had_protected_copy: _ } => (seq![
            ""@,
            filled1(BREAK_ACTION@, decimal(n)),
        ] + texts(BREAK_REPAIR@)).push(filled1(BREAK_DONE@, decimal(n))),
        RiskKindView::OrphanedSid { raw_sid } => (seq![
            ""@,
            filled2(ORPHAN_ACTION@, decimal(n), raw_sid),
            filled2(ORPHAN_SID@, decimal(n), raw_sid),
            ORPHAN_RULES@,
            filled1(ORPHAN_MATCH@, decimal(n)),
        ] + texts(ORPHAN_REMOVAL@)).push(filled2(ORPHAN_DONE@, decimal(n), raw_sid)),
        _ => Seq::empty(),
    }
}

/// What would be done about the finding of this number.
pub open spec fn preview_lines(n: nat, f: FindingView) -> Seq<Seq<char>> {
    match f.risk {
        RiskKindView::OverPermissiveAce { trustee, access_mask, access_mask_human } => seq![
            filled4(GRANT_DRY@, decimal(n), trustee, access_mask_human, mask_text(access_mask)),
        ],
        RiskKindView::InheritanceBreak { had_protected_copy } => seq![
            filled2(BREAK_DRY@, decimal(n), bool_text(had_protected_copy)),
        ],
        RiskKindView::OrphanedSid { raw_sid } => seq![filled2(ORPHAN_DRY@, decimal(n), raw_sid)],
        _ => Seq::empty(),
    }
}

/// What one part of a block says about the finding of this number.
pub open spec fn part_lines(part: Part, n: nat, f: FindingView) -> Seq<Seq<char>> {
    match part {
        Part::Note => note_lines(n, f),
        Part::Action => action_lines(n, f),
        Part::Preview => preview_lines(n, f),
    }
}

/// What one part of a block says about findings, which are numbered from one.
pub open spec fn numbered(part: Part, s: Seq<FindingView>) -> Seq<Seq<char>>
    decreases s.len(),
{
    if s.len() == 0 {
        Seq::empty()
    } else {
        numbered(part, s.drop_last()) + part_lines(part, s.len(), s.last())
    }
}

/// The block of this number for findings on a path of which no two read the same.
pub open spec fn unique_block_lines(num: nat, path: Seq<char>, unique: Seq<FindingView>) -> Seq<
    Seq<char>,
> {
    let count = decimal(unique.len());
    let place = padded(decimal(num), 3, ' ');
    let title = seq![
        PS_RULE@,
        filled2(BLOCK_TITLE@, decimal(num), count),
        filled1(BLOCK_PATH@, path),
        "#"@,
    ];
    let notes = title + numbered(Part::Note, unique) + texts(NOTES_BOTTOM@);
    let target = notes.push(filled1(ACTION_COUNT@, count)).push(
        filled1(TARGET_PATH@, escaped(path)),
    );
    let live = target + texts(ACTIONS_TOP@) + numbered(Part::Action, unique) + texts(COMMIT_TOP@);
    let commit = live.push(filled1(COMMIT_DONE@, count)) + texts(COMMIT_BOTTOM@);
    let dry = commit.push(filled2(DRY_TITLE@, place, count)) + numbered(Part::Preview, unique)
        + texts(DRY_BOTTOM@);
    dry.push(filled1(SKIPPED@, place)) + texts(BLOCK_BOTTOM@)
}

/// The block of this number for the findings on a path.
pub open spec fn block_lines(num: nat, path: Seq<char>, findings: Seq<FindingView>) -> Seq<
    Seq<char>,
> {
    unique_block_lines(num, path, unique_findings(findings))
}

fn push_note(out: &mut Lines, n: usize, finding: &RiskFinding)
    ensures
        final(out)@ == old(out)@ + note_lines(n as nat, finding@),
{
    let ghost before = out@;
    let number = decimal_text(n as u128);
    match &finding.risk {
        RiskKind::OverPermissiveAce { trustee, access_mask, access_mask_human } => {
            let mask = mask_hex(*access_mask);
            out.own(
                fill5(
                    GRANT_NOTE.as_slice(),
                    number.as_str(),
                    finding.severity.name(),
                    trustee.as_str(),
                    access_mask_human.as_str(),
                    mask.as_str(),
                ),
            );
        },
        RiskKind::InheritanceBreak { had_protected_copy } => {
            out.own(
                fill3(
                    BREAK_NOTE.as_slice(),
                    number.as_str(),
                    finding.severity.name(),
                    bool_word(*had_protected_copy),
                ),
            );
        },
        RiskKind::OrphanedSid { raw_sid } => {
            out.own(
                fill3(
                    ORPHAN_NOTE.as_slice(),
                    number.as_str(),
                    finding.severity.name(),
                    raw_sid.as_str(),
                ),
            );
        },
        _ => {},
    }
    assert(out@ =~= before + note_lines(n as nat, finding@));
}

fn push_action(out: &mut Lines, n: usize, finding: &RiskFinding)
    ensures
        final(out)@ == old(out)@ + action_lines(n as nat, finding@),
{
    let ghost before = out@;
    let number = decimal_text(n as u128);
    match &finding.risk {
        RiskKind::OverPermissiveAce { trustee, access_mask, access_mask_human } => {
            let mask = mask_hex(*access_mask);
            out.line("");
            out.own(
                fill4(
                    GRANT_ACTION.as_slice(),
                    number.as_str(),
                    trustee.as_str(),
                    access_mask_human.as_str(),
                    mask.as_str(),
                ),
            );
            out.line(GRANT_RULES);
            out.own(fill1(GRANT_MATCH.as_slice(), trustee.as_str()));
            out.all(GRANT_REMOVAL.as_slice());
            out.own(
                fill3(
                    GRANT_DONE.as_slice(),
                    number.as_str(),
                    trustee.as_str(),
                    access_mask_human.as_str(),
                ),
            );
        },
        RiskKind::InheritanceBreak { had_protected_copy: _ } => {
            out.line("");
            out.own(fill1(BREAK_ACTION.as_slice(), number.as_str()));
            out.all(BREAK_REPAIR.as_slice());
            out.own(fill1(BREAK_DONE.as_slice(), number.as_str()));
        },
        RiskKind::OrphanedSid { raw_sid } => {
            out.line("");
            out.own(fill2(ORPHAN_ACTION.as_slice(), number.as_str(), raw_sid.as_str()));
            out.own(fill2(ORPHAN_SID.as_slice(), number.as_str(), raw_sid.as_str()));
            out.line(ORPHAN_RULES);
            out.own(fill1(ORPHAN_MATCH.as_slice(), number.as_str()));
            out.all(ORPHAN_REMOVAL.as_slice());
            out.own(fill2(ORPHAN_DONE.as_slice(), number.as_str(), raw_sid.as_str()));
        },
        _ => {},
    }
    assert(out@ =~= before + action_lines(n as nat, finding@));
}

fn push_preview(out: &mut Lines, n: usize, finding: &RiskFinding)
    ensures
        final(out)@ == old(out)@ + preview_lines(n as nat, finding@),
{
    let ghost before = out@;
    let number = decimal_text(n as u128);
    match &finding.risk {
        RiskKind::OverPermissiveAce { trustee, access_mask, access_mask_human } => {
            let mask = mask_hex(*access_mask);
            out.own(
                fill4(
                    GRANT_DRY.as_slice(),
                    number.as_str(),
                    trustee.as_str(),
                    access_mask_human.as_str(),
                    mask.as_str(),
                ),
            );
        },
        RiskKind::InheritanceBreak { had_protected_copy } => {
            out.own(fill2(BREAK_DRY.as_slice(), number.as_str(), bool_word(*had_protected_copy)));
        },
        RiskKind::OrphanedSid { raw_sid } => {
            out.own(fill2(ORPHAN_DRY.as_slice(), number.as_str(), raw_sid.as_str()));
        },
        _ => {},
    }
    assert(out@ =~= before + preview_lines(n as nat, finding@));
}

fn push_numbered(out: &mut Lines, part: Part, findings: &Vec<&RiskFinding>)
    ensures
        final(out)@ == old(out)@ + numbered(part, ref_views(findings@)),
{
    let ghost before = out@;
    let ghost s = ref_views(findings@);
    let mut k: usize = 0;
    assert(before + numbered(part, s.take(0)) =~= before);
    while k < findings.len()
        invariant
            k <= findings@.len(),
            s == ref_views(findings@),
            out@ == before + numbered(part, s.take(k as int)),
        decreases findings@.len() - k,
    {
        let n: usize = k + 1;
        match part {
            Part::Note => push_note(out, n, findings[k]),
            Part::Action => push_action(out, n, findings[k]),
            Part::Preview => push_preview(out, n, findings[k]),
        }
        proof {
            assert(s.take(k + 1).drop_last() =~= s.take(k as int));
            assert(s.take(k + 1).last() == findings@[k as int]@);
            assert(out@ =~= before + numbered(part, s.take(k + 1)));
        }
        k = n;
    }
    assert(s.take(k as int) =~= s);
}

/// Writes the block of this number for findings on a path of which no two read the
/// same.
pub fn emit_unique_block(
    script: &mut String,
    block_num: usize,
    path: &str,
    unique: &Vec<&RiskFinding>,
)
    ensures
        final(script)@ == old(script)@ + render(
            unique_block_lines(block_num as nat, path@, ref_views(unique@)),
        ),
{
    let number = decimal_text(block_num as u128);
    let count = decimal_text(unique.len() as u128);
    let place = pad_text(decimal_text(block_num as u128), 3, ' ');
    let escaped_path = escape_ps_path(path);
    assert(unique@.len() == ref_views(unique@).len());

    let mut out = Lines::new();
    out.line(PS_RULE);
    out.own(fill2(BLOCK_TITLE.as_slice(), number.as_str(), count.as_str()));
    out.own(fill1(BLOCK_PATH.as_slice(), path));
    out.line("#");
    push_numbered(&mut out, Part::Note, unique);
    out.all(NOTES_BOTTOM.as_slice());

    out.own(fill1(ACTION_COUNT.as_slice(), count.as_str()));
    out.own(fill1(TARGET_PATH.as_slice(), escaped_path.as_str()));
    out.all(ACTIONS_TOP.as_slice());
    push_numbered(&mut out, Part::Action, unique);
    out.all(COMMIT_TOP.as_slice());
    out.own(fill1(COMMIT_DONE.as_slice(), count.as_str()));
    out.all(COMMIT_BOTTOM.as_slice());

    out.own(fill2(DRY_TITLE.as_slice(), place.as_str(), count.as_str()));
    push_numbered(&mut out, Part::Preview, unique);
    out.all(DRY_BOTTOM.as_slice());
    out.own(fill1(SKIPPED.as_slice(), place.as_str()));
    out.all(BLOCK_BOTTOM.as_slice());
    assert(out@ == unique_block_lines(block_num as nat, path@, ref_views(unique@)));
    out.write_to(script);
}

/// Writes the block of this number for the findings on a path.
pub fn emit_aggregated_path_block(
    script: &mut String,
    block_num: usize,
    path: &str,
    findings: &Vec<&RiskFinding>,
)
    ensures
        final(script)@ == old(script)@ + render(
            block_lines(block_num as nat, path@, ref_views(findings@)),
        ),
{
    let unique = dedup_findings(findings);
    emit_unique_block(script, block_num, path, &unique);
}

} // verus!
