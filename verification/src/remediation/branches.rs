//! Where in a block access control lists are touched.
//!
//! A block has two branches: one for live mode, and one that says what would be
//! done. The law of this module says that a list is read, changed and written back
//! in the first one only.

use super::block::{action_lines, block_lines, note_lines, numbered, preview_lines, Part};
use super::findings::{bool_text, escaped, mask_text, unique_findings};
use super::fixed::{
    ACTIONS_TOP, ACTION_COUNT, BLOCK_BOTTOM, BLOCK_PATH, BLOCK_TITLE, BREAK_ACTION, BREAK_DONE,
    BREAK_DRY, BREAK_NOTE, BREAK_REPAIR, COMMIT_BOTTOM, COMMIT_DONE, COMMIT_TOP, DRY_BOTTOM,
    DRY_BRANCH, DRY_TITLE, GRANT_ACTION, GRANT_DONE, GRANT_DRY, GRANT_MATCH, GRANT_NOTE,
    GRANT_REMOVAL, GRANT_RULES, LIVE_BRANCH, NOTES_BOTTOM, ORPHAN_ACTION, ORPHAN_DONE, ORPHAN_DRY,
    ORPHAN_MATCH, ORPHAN_NOTE, ORPHAN_REMOVAL, ORPHAN_RULES, ORPHAN_SID, PS_RULE, SKIPPED,
    TARGET_PATH,
};
use super::safety::{are_quiet, lemma_numbered};
use super::wording::{
    code_of, is_quiet, lemma_actions_top, lemma_block_bottom, lemma_block_templates, lemma_code,
    lemma_commit_bottom, lemma_dry_bottom, lemma_filled1, lemma_filled2, lemma_notes_bottom,
    lemma_single_lines, lemma_starts, runs,
};
use crate::lines::{filled1, filled2, filled3, filled4, filled5, texts};
use crate::scanner::risk::{FindingView, RiskKindView};
use crate::text::{decimal, padded};
use vstd::prelude::*;

verus! {

/// Whether a line does nothing to the list that a block has read.
pub open spec fn is_still(line: Seq<char>) -> bool {
    !runs(line, "$acl"@)
}

/// Whether each of the lines is still.
pub open spec fn are_still(lines: Seq<Seq<char>>) -> bool {
    forall|i: int| 0 <= i < lines.len() ==> is_still(#[trigger] lines[i])
}

/// Whether a line is too short or too far in to be the one that ends a branch.
spec fn is_inside(line: Seq<char>) -> bool {
    line.len() < 5 || line[4] != '}'
}

spec fn are_inside(lines: Seq<Seq<char>>) -> bool {
    forall|i: int| 0 <= i < lines.len() ==> is_inside(#[trigger] lines[i])
}

// ---------------------------------------------------------------------------
// Lines
// ---------------------------------------------------------------------------

/// Whether the code of a line starts at place `k`, and not with `$a`.
spec fn starts_still(start: Seq<char>, k: int) -> bool {
    &&& 0 <= k < start.len()
    &&& forall|i: int| 0 <= i < k ==> #[trigger] start[i] == ' '
    &&& start[k] != ' '
    &&& (start[k] == '$' ==> k + 1 < start.len() && start[k + 1] != 'a')
}

proof fn lemma_still(line: Seq<char>, start: Seq<char>, k: int)
    requires
        start.is_prefix_of(line),
        starts_still(start, k),
    ensures
        is_still(line),
{
    assert(line[k] == start[k]);
    assert forall|i: int| 0 <= i < k implies #[trigger] line[i] == ' ' by {
        assert(line[i] == start[i]);
    }
    lemma_code(line, k);
    let code = code_of(line);
    assert(code[0] == line[k]);
    if k + 1 < start.len() {
        assert(line[k + 1] == start[k + 1]);
        assert(code[1] == line[k + 1]);
    }
    reveal_strlit("$acl");
    lemma_starts(code, "$acl"@);
}

proof fn lemma_inside(line: Seq<char>, start: Seq<char>)
    requires
        start.is_prefix_of(line),
        start.len() >= 5,
        start[4] != '}',
    ensures
        is_inside(line),
{
    assert(line[4] == start[4]);
}

proof fn lemma_start1(p: Seq<&'static str>, a: Seq<char>)
    ensures
        p[0]@.is_prefix_of(filled1(p, a)),
{
    assert(filled1(p, a) =~= p[0]@ + (a + p[1]@));
}

proof fn lemma_start2(p: Seq<&'static str>, a: Seq<char>, b: Seq<char>)
    ensures
        p[0]@.is_prefix_of(filled2(p, a, b)),
{
    assert(filled2(p, a, b) =~= p[0]@ + (a + p[1]@ + b + p[2]@));
}

proof fn lemma_start3(p: Seq<&'static str>, a: Seq<char>, b: Seq<char>, c: Seq<char>)
    ensures
        p[0]@.is_prefix_of(filled3(p, a, b, c)),
{
    assert(filled3(p, a, b, c) =~= p[0]@ + (a + p[1]@ + b + p[2]@ + c + p[3]@));
}

proof fn lemma_start4(
    p: Seq<&'static str>,
    a: Seq<char>,
    b: Seq<char>,
    c: Seq<char>,
    d: Seq<char>,
)
    ensures
        p[0]@.is_prefix_of(filled4(p, a, b, c, d)),
{
    assert(filled4(p, a, b, c, d) =~= p[0]@ + (a + p[1]@ + b + p[2]@ + c + p[3]@ + d + p[4]@));
}

proof fn lemma_start5(
    p: Seq<&'static str>,
    a: Seq<char>,
    b: Seq<char>,
    c: Seq<char>,
    d: Seq<char>,
    e: Seq<char>,
)
    ensures
        p[0]@.is_prefix_of(filled5(p, a, b, c, d, e)),
{
    assert(filled5(p, a, b, c, d, e) =~= p[0]@ + (a + p[1]@ + b + p[2]@ + c + p[3]@ + d + p[4]@ + e
        + p[5]@));
}

proof fn lemma_empty_is_still()
    ensures
        is_still(""@),
        is_inside(""@),
{
    reveal_strlit("");
    reveal_strlit("$acl");
}

// ---------------------------------------------------------------------------
// Parts
// ---------------------------------------------------------------------------

proof fn lemma_note_is_still(n: nat, f: FindingView)
    ensures
        are_still(note_lines(n, f)),
{
    let severity = f.severity.name_text();
    reveal_strlit("#   ");
    assert(starts_still("#   "@, 0));
    match f.risk {
        RiskKindView::OverPermissiveAce { trustee, access_mask, access_mask_human } => {
            let mask = mask_text(access_mask);
            lemma_start5(GRANT_NOTE@, decimal(n), severity, trustee, access_mask_human, mask);
            lemma_still(
                filled5(GRANT_NOTE@, decimal(n), severity, trustee, access_mask_human, mask),
                GRANT_NOTE@[0]@,
                0,
            );
        },
        RiskKindView::InheritanceBreak { had_protected_copy } => {
            let copied = bool_text(had_protected_copy);
            lemma_start3(BREAK_NOTE@, decimal(n), severity, copied);
            lemma_still(
                filled3(BREAK_NOTE@, decimal(n), severity, copied),
                BREAK_NOTE@[0]@,
                0,
            );
        },
        RiskKindView::OrphanedSid { raw_sid } => {
            lemma_start3(ORPHAN_NOTE@, decimal(n), severity, raw_sid);
            lemma_still(
                filled3(ORPHAN_NOTE@, decimal(n), severity, raw_sid),
                ORPHAN_NOTE@[0]@,
                0,
            );
        },
        _ => {},
    }
}

proof fn lemma_preview_is_still(n: nat, f: FindingView)
    ensures
        are_still(preview_lines(n, f)),
{
    reveal_strlit("        Write-Host \"  {\"");
    assert(starts_still("        Write-Host \"  {\""@, 8));
    match f.risk {
        RiskKindView::OverPermissiveAce { trustee, access_mask, access_mask_human } => {
            let mask = mask_text(access_mask);
            lemma_start4(GRANT_DRY@, decimal(n), trustee, access_mask_human, mask);
            lemma_still(
                filled4(GRANT_DRY@, decimal(n), trustee, access_mask_human, mask),
                GRANT_DRY@[0]@,
                8,
            );
        },
        RiskKindView::InheritanceBreak { had_protected_copy } => {
            let copied = bool_text(had_protected_copy);
            lemma_start2(BREAK_DRY@, decimal(n), copied);
            lemma_still(filled2(BREAK_DRY@, decimal(n), copied), BREAK_DRY@[0]@, 8);
        },
        RiskKindView::OrphanedSid { raw_sid } => {
            lemma_start2(ORPHAN_DRY@, decimal(n), raw_sid);
            lemma_still(filled2(ORPHAN_DRY@, decimal(n), raw_sid), ORPHAN_DRY@[0]@, 8);
        },
        _ => {},
    }
}

proof fn lemma_action_is_inside(n: nat, f: FindingView)
    ensures
        are_inside(action_lines(n, f)),
{
    lemma_empty_is_still();
    match f.risk {
        RiskKindView::OverPermissiveAce { trustee, access_mask, access_mask_human } => {
            let mask = mask_text(access_mask);
            reveal_strlit("            # Sub-action ");
            reveal_strlit("            $rulesToRemove = $acl.Access | Where-Object {");
            reveal_strlit("                $_.IdentityReference.Value -eq '");
            reveal_strlit("            Write-Host \"    [SUB-ACTION ");
            lemma_start4(GRANT_ACTION@, decimal(n), trustee, access_mask_human, mask);
            lemma_inside(
                filled4(GRANT_ACTION@, decimal(n), trustee, access_mask_human, mask),
                GRANT_ACTION@[0]@,
            );
            assert(is_inside(GRANT_RULES@));
            lemma_start1(GRANT_MATCH@, trustee);
            lemma_inside(filled1(GRANT_MATCH@, trustee), GRANT_MATCH@[0]@);
            lemma_removal_is_inside();
            lemma_start3(GRANT_DONE@, decimal(n), trustee, access_mask_human);
            lemma_inside(
                filled3(GRANT_DONE@, decimal(n), trustee, access_mask_human),
                GRANT_DONE@[0]@,
            );
        },
        RiskKindView::InheritanceBreak { had_protected_copy: _ } => {
            reveal_strlit("            # Sub-action ");
            reveal_strlit("            Write-Host \"    [SUB-ACTION ");
            lemma_start1(BREAK_ACTION@, decimal(n));
            lemma_inside(filled1(BREAK_ACTION@, decimal(n)), BREAK_ACTION@[0]@);
            lemma_removal_is_inside();
            lemma_start1(BREAK_DONE@, decimal(n));
            lemma_inside(filled1(BREAK_DONE@, decimal(n)), BREAK_DONE@[0]@);
        },
        RiskKindView::OrphanedSid { raw_sid } => {
            reveal_strlit("            # Sub-action ");
            reveal_strlit("            $orphanSid");
            reveal_strlit("            $orphanRules = $acl.Access | Where-Object {");
            reveal_strlit("                $_.IdentityReference.Value -eq $orphanSid");
            reveal_strlit("            Write-Host \"    [SUB-ACTION ");
            lemma_start2(ORPHAN_ACTION@, decimal(n), raw_sid);
            lemma_inside(filled2(ORPHAN_ACTION@, decimal(n), raw_sid), ORPHAN_ACTION@[0]@);
            lemma_start2(ORPHAN_SID@, decimal(n), raw_sid);
            lemma_inside(filled2(ORPHAN_SID@, decimal(n), raw_sid), ORPHAN_SID@[0]@);
            assert(is_inside(ORPHAN_RULES@));
            lemma_start1(ORPHAN_MATCH@, decimal(n));
            lemma_inside(filled1(ORPHAN_MATCH@, decimal(n)), ORPHAN_MATCH@[0]@);
            lemma_removal_is_inside();
            lemma_start2(ORPHAN_DONE@, decimal(n), raw_sid);
            lemma_inside(filled2(ORPHAN_DONE@, decimal(n), raw_sid), ORPHAN_DONE@[0]@);
        },
        _ => {},
    }
}

proof fn lemma_removal_is_inside()
    ensures
        are_inside(texts(GRANT_REMOVAL@)),
        are_inside(texts(BREAK_REPAIR@)),
        are_inside(texts(ORPHAN_REMOVAL@)),
{
    reveal_strlit("            }");
    reveal_strlit("            foreach ($rule in $rulesToRemove) {");
    reveal_strlit("            foreach ($rule in $orphanRules) {");
    reveal_strlit("                $acl.RemoveAccessRule($rule) | Out-Null");
    reveal_strlit("                $modified = $true");
    reveal_strlit("            # SetAccessRuleProtection($isProtected, $preserveInheritance)");
    reveal_strlit("            #   $false = not protected = inheritance flows through");
    reveal_strlit("            #   $false = do not preserve existing explicit ACEs");
    reveal_strlit("            $acl.SetAccessRuleProtection($false, $false)");
    reveal_strlit("            $modified = $true");
    assert(is_inside(GRANT_REMOVAL@[0]@) && is_inside(GRANT_REMOVAL@[1]@));
    assert(is_inside(GRANT_REMOVAL@[2]@) && is_inside(GRANT_REMOVAL@[3]@));
    assert(is_inside(BREAK_REPAIR@[0]@) && is_inside(BREAK_REPAIR@[1]@));
    assert(is_inside(BREAK_REPAIR@[2]@) && is_inside(BREAK_REPAIR@[3]@));
    assert(is_inside(BREAK_REPAIR@[4]@));
    assert(is_inside(ORPHAN_REMOVAL@[1]@));
}

proof fn lemma_numbered_parts(s: Seq<FindingView>)
    ensures
        are_still(numbered(Part::Note, s)),
        are_still(numbered(Part::Preview, s)),
        are_inside(numbered(Part::Action, s)),
    decreases s.len(),
{
    if s.len() > 0 {
        lemma_numbered_parts(s.drop_last());
        lemma_note_is_still(s.len(), s.last());
        lemma_preview_is_still(s.len(), s.last());
        lemma_action_is_inside(s.len(), s.last());
    }
}

/// What a block says before its live branch.
spec fn before_live(num: nat, path: Seq<char>, findings: Seq<FindingView>) -> Seq<Seq<char>> {
    let unique = unique_findings(findings);
    let count = decimal(unique.len());
    let title = seq![
        PS_RULE@,
        filled2(BLOCK_TITLE@, decimal(num), count),
        filled1(BLOCK_PATH@, path),
        "#"@,
    ];
    let notes = title + numbered(Part::Note, unique) + texts(NOTES_BOTTOM@);
    notes.push(filled1(ACTION_COUNT@, count)).push(filled1(TARGET_PATH@, escaped(path)))
        + texts(ACTIONS_TOP@).take(2)
}

/// What a block says between the line that opens its live branch and the one that
/// ends it.
spec fn in_live(findings: Seq<FindingView>) -> Seq<Seq<char>> {
    let unique = unique_findings(findings);
    let count = decimal(unique.len());
    (texts(ACTIONS_TOP@).skip(3) + numbered(Part::Action, unique) + texts(COMMIT_TOP@)).push(
        filled1(COMMIT_DONE@, count),
    ) + texts(COMMIT_BOTTOM@).take(5)
}

/// What a block says behind its live branch.
spec fn after_live(num: nat, findings: Seq<FindingView>) -> Seq<Seq<char>> {
    let unique = unique_findings(findings);
    let count = decimal(unique.len());
    let place = padded(decimal(num), 3, ' ');
    (seq![COMMIT_BOTTOM@[6]@, filled2(DRY_TITLE@, place, count)] + numbered(Part::Preview, unique)
        + texts(DRY_BOTTOM@)).push(filled1(SKIPPED@, place)) + texts(BLOCK_BOTTOM@)
}

proof fn lemma_three_parts(num: nat, path: Seq<char>, findings: Seq<FindingView>)
    ensures
        block_lines(num, path, findings) == before_live(num, path, findings).push(LIVE_BRANCH@)
            + in_live(findings).push(DRY_BRANCH@) + after_live(num, findings),
{
    let a = texts(ACTIONS_TOP@);
    let b = texts(COMMIT_BOTTOM@);
    assert(a =~= a.take(2).push(LIVE_BRANCH@) + a.skip(3));
    assert(b =~= b.take(5).push(DRY_BRANCH@).push(COMMIT_BOTTOM@[6]@));
    assert(block_lines(num, path, findings) =~= before_live(num, path, findings).push(LIVE_BRANCH@)
        + in_live(findings).push(DRY_BRANCH@) + after_live(num, findings));
}

proof fn lemma_before_is_still(num: nat, path: Seq<char>, findings: Seq<FindingView>)
    ensures
        are_still(before_live(num, path, findings)),
{
    let unique = unique_findings(findings);
    let count = decimal(unique.len());
    lemma_numbered_parts(unique);
    lemma_empty_is_still();
    reveal_strlit(
        "# ══════════════════════════════════════════════════════════════════════════════",
    );
    reveal_strlit("# PATH BLOCK #");
    reveal_strlit("# Path: ");
    reveal_strlit("#");
    reveal_strlit("# Recommendation: Review all sub-actions below before enabling live mode.");
    reveal_strlit("$ActionCount += ");
    reveal_strlit("$targetPath = '");
    reveal_strlit("if (Test-Path -LiteralPath $targetPath) {");
    lemma_still(PS_RULE@, PS_RULE@, 0);
    lemma_still("#"@, "#"@, 0);
    lemma_still(NOTES_BOTTOM@[1]@, NOTES_BOTTOM@[1]@, 0);
    lemma_still(ACTIONS_TOP@[1]@, ACTIONS_TOP@[1]@, 0);
    lemma_start2(BLOCK_TITLE@, decimal(num), count);
    lemma_still(filled2(BLOCK_TITLE@, decimal(num), count), BLOCK_TITLE@[0]@, 0);
    lemma_start1(BLOCK_PATH@, path);
    lemma_still(filled1(BLOCK_PATH@, path), BLOCK_PATH@[0]@, 0);
    lemma_start1(ACTION_COUNT@, count);
    lemma_still(filled1(ACTION_COUNT@, count), ACTION_COUNT@[0]@, 0);
    lemma_start1(TARGET_PATH@, escaped(path));
    lemma_still(filled1(TARGET_PATH@, escaped(path)), TARGET_PATH@[0]@, 0);
    assert(are_still(texts(NOTES_BOTTOM@)));
    assert(are_still(texts(ACTIONS_TOP@).take(2)));
}

proof fn lemma_after_is_still(num: nat, findings: Seq<FindingView>)
    ensures
        are_still(after_live(num, findings)),
{
    let unique = unique_findings(findings);
    let count = decimal(unique.len());
    let place = padded(decimal(num), 3, ' ');
    lemma_numbered_parts(unique);
    lemma_empty_is_still();
    reveal_strlit("        # ── DRY-RUN: Describe what would happen ──");
    reveal_strlit("        Write-Host \"[DRY-RUN BLOCK #");
    reveal_strlit("    }");
    reveal_strlit("} else {");
    reveal_strlit("    $SkippedCount++");
    reveal_strlit("    Write-Host \"  [SKIPPED BLOCK #");
    reveal_strlit("}");
    lemma_still(COMMIT_BOTTOM@[6]@, COMMIT_BOTTOM@[6]@, 8);
    lemma_start2(DRY_TITLE@, place, count);
    lemma_still(filled2(DRY_TITLE@, place, count), DRY_TITLE@[0]@, 8);
    lemma_still(DRY_BOTTOM@[0]@, DRY_BOTTOM@[0]@, 4);
    lemma_still(DRY_BOTTOM@[1]@, DRY_BOTTOM@[1]@, 0);
    lemma_still(DRY_BOTTOM@[2]@, DRY_BOTTOM@[2]@, 4);
    lemma_start1(SKIPPED@, place);
    lemma_still(filled1(SKIPPED@, place), SKIPPED@[0]@, 4);
    lemma_still(BLOCK_BOTTOM@[0]@, BLOCK_BOTTOM@[0]@, 0);
    assert(are_still(texts(DRY_BOTTOM@)));
    assert(are_still(texts(BLOCK_BOTTOM@)));
}

proof fn lemma_live_is_inside(findings: Seq<FindingView>)
    ensures
        are_inside(in_live(findings)),
{
    let unique = unique_findings(findings);
    let count = decimal(unique.len());
    lemma_numbered_parts(unique);
    lemma_empty_is_still();
    reveal_strlit("        # ── LIVE: Apply all remediation actions for this path ──");
    reveal_strlit("        try {");
    reveal_strlit("            $acl = Get-Acl -LiteralPath $targetPath");
    reveal_strlit("            $modified = $false");
    reveal_strlit("            if ($modified) {");
    reveal_strlit("                Set-Acl -LiteralPath $targetPath -AclObject $acl -WhatIf");
    reveal_strlit("                # NOTE: Remove '-WhatIf' above ONLY after thorough review.");
    reveal_strlit("                # Set-Acl -LiteralPath $targetPath -AclObject $acl");
    reveal_strlit("                $SuccessCount++");
    reveal_strlit("                Write-Host \"  [APPLIED] All ");
    reveal_strlit("            }");
    reveal_strlit("        } catch {");
    reveal_strlit("            $ErrorCount++");
    reveal_strlit(
        "            Write-Host \"  [ERROR] Failed to modify ACL on: $targetPath — $_\" -ForegroundColor Red",
    );
    reveal_strlit("        }");
    lemma_start1(COMMIT_DONE@, count);
    lemma_inside(filled1(COMMIT_DONE@, count), COMMIT_DONE@[0]@);
    let a = texts(ACTIONS_TOP@).skip(3);
    let b = texts(COMMIT_BOTTOM@).take(5);
    assert(is_inside(a[0]) && is_inside(a[1]) && is_inside(a[2]) && is_inside(a[3]));
    assert(is_inside(a[4]));
    assert(are_inside(a));
    assert(is_inside(COMMIT_TOP@[1]@) && is_inside(COMMIT_TOP@[2]@) && is_inside(COMMIT_TOP@[3]@));
    assert(is_inside(COMMIT_TOP@[4]@) && is_inside(COMMIT_TOP@[5]@));
    assert(are_inside(texts(COMMIT_TOP@)));
    assert(is_inside(b[0]) && is_inside(b[1]) && is_inside(b[2]) && is_inside(b[3]));
    assert(is_inside(b[4]));
    assert(are_inside(b));
}

// ---------------------------------------------------------------------------
// Law
// ---------------------------------------------------------------------------

/// Whether the live branch of a block starts and ends at these lines, and whatever
/// starts with `$acl` or `Set-Acl` stands between them.
pub open spec fn is_live_branch(lines: Seq<Seq<char>>, from: int, to: int) -> bool {
    &&& 0 <= from < to < lines.len()
    &&& lines[from] == LIVE_BRANCH@
    &&& lines[to] == DRY_BRANCH@
    &&& forall|i: int| from < i < to ==> #[trigger] lines[i] != DRY_BRANCH@
    &&& forall|i: int|
        0 <= i < lines.len() && (runs(#[trigger] lines[i], "$acl"@) || runs(lines[i], "Set-Acl"@))
            ==> from < i < to
}

/// Where the live branch of a block starts.
pub open spec fn live_from(findings: Seq<FindingView>) -> int {
    12 + numbered(Part::Note, unique_findings(findings)).len() as int
}

/// Where the live branch of a block ends.
pub open spec fn live_to(findings: Seq<FindingView>) -> int {
    live_from(findings) + 18 + numbered(Part::Action, unique_findings(findings)).len()
}

/// A block reads, changes and writes back an access control list in its live branch
/// only.
pub proof fn lists_are_touched_in_live_mode_only(
    num: nat,
    path: Seq<char>,
    findings: Seq<FindingView>,
)
    ensures
        is_live_branch(
            block_lines(num, path, findings),
            live_from(findings),
            live_to(findings),
        ),
{
    let lines = block_lines(num, path, findings);
    let a = before_live(num, path, findings);
    let b = in_live(findings);
    let c = after_live(num, findings);
    lemma_three_parts(num, path, findings);
    lemma_before_is_still(num, path, findings);
    lemma_live_is_inside(findings);
    lemma_after_is_still(num, findings);
    lemma_quiet_outside(num, path, findings);
    lemma_branch_lines();
    let from = a.len() as int;
    let to = from + 1 + b.len();
    assert(from == live_from(findings));
    assert(to == live_to(findings));
    assert(lines[from] == LIVE_BRANCH@);
    assert(lines[to] == DRY_BRANCH@);
    assert forall|i: int| from < i < to implies #[trigger] lines[i] != DRY_BRANCH@ by {
        assert(lines[i] == b[i - from - 1]);
    }
    assert forall|i: int|
        0 <= i < lines.len() && (runs(#[trigger] lines[i], "$acl"@) || runs(
            lines[i],
            "Set-Acl"@,
        )) implies from < i < to by {
        if i < from {
            assert(lines[i] == a[i]);
        } else if i > to {
            assert(lines[i] == c[i - to - 1]);
        }
    }
    assert(is_live_branch(lines, from, to));
}

proof fn lemma_branch_lines()
    ensures
        is_still(LIVE_BRANCH@) && is_quiet(LIVE_BRANCH@),
        is_still(DRY_BRANCH@) && is_quiet(DRY_BRANCH@),
        !is_inside(DRY_BRANCH@),
{
    reveal_strlit("    if ($LiveMode) {");
    reveal_strlit("    } else {");
    lemma_still(LIVE_BRANCH@, LIVE_BRANCH@, 4);
    lemma_still(DRY_BRANCH@, DRY_BRANCH@, 4);
    lemma_actions_top();
    lemma_commit_bottom();
    assert(texts(ACTIONS_TOP@)[2] == LIVE_BRANCH@);
    assert(texts(COMMIT_BOTTOM@)[5] == DRY_BRANCH@);
}

/// Outside its live branch a block is quiet.
proof fn lemma_quiet_outside(num: nat, path: Seq<char>, findings: Seq<FindingView>)
    ensures
        are_quiet(before_live(num, path, findings)),
        are_quiet(after_live(num, findings)),
{
    let unique = unique_findings(findings);
    let count = decimal(unique.len());
    let place = padded(decimal(num), 3, ' ');
    lemma_numbered(Part::Note, unique);
    lemma_numbered(Part::Preview, unique);
    lemma_single_lines();
    lemma_block_templates();
    lemma_notes_bottom();
    lemma_actions_top();
    lemma_commit_bottom();
    lemma_dry_bottom();
    lemma_block_bottom();
    lemma_filled2(BLOCK_TITLE@, decimal(num), count);
    lemma_filled1(BLOCK_PATH@, path);
    lemma_filled1(ACTION_COUNT@, count);
    lemma_filled1(TARGET_PATH@, escaped(path));
    lemma_filled2(DRY_TITLE@, place, count);
    lemma_filled1(SKIPPED@, place);
    let a = texts(ACTIONS_TOP@);
    assert forall|i: int| 0 <= i < a.take(2).len() implies is_quiet(#[trigger] a.take(2)[i]) by {
        assert(a.take(2)[i] == a[i]);
    }
    assert(texts(COMMIT_BOTTOM@)[6] == COMMIT_BOTTOM@[6]@);
}

} // verus!
