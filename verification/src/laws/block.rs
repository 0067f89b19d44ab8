//! The blocks of the script: what each holds for each of its findings.

use crate::lines::texts;
use crate::remediation::block::{
    action_lines, block_lines, note_lines, numbered, part_lines, preview_lines,
    unique_block_lines, Part,
};
use crate::remediation::branches::{
    is_live_branch, lists_are_touched_in_live_mode_only, live_from, live_to,
};
use crate::remediation::findings::{actionable, escaped, unique_findings};
use crate::remediation::fixed::{
    ACTIONS_TOP, BLOCK_BOTTOM, COMMIT_BOTTOM, COMMIT_TOP, DRY_BOTTOM, NOTES_BOTTOM, PS_RULE,
};
use crate::scanner::risk::{FindingView, RiskKindView};
use crate::text::{decimal, hex, padded};
use vstd::prelude::*;

verus! {

// ---------------------------------------------------------------------------
// One finding
// ---------------------------------------------------------------------------

/// What removes the entries of a broad grant from the list: those that allow the trustee.
pub open spec fn grant_fix(n: nat, trustee: Seq<char>, human: Seq<char>, mask: u32) -> Seq<
    Seq<char>,
> {
    seq![
        ""@,
        "            # Sub-action "@ + decimal(n) + ": Remove over-permissive ACE for '"@ + trustee
            + "' ("@ + human + ", 0x"@ + hex(mask as nat, 8, true) + ")"@,
        "            $rulesToRemove = $acl.Access | Where-Object {"@,
        "                $_.IdentityReference.Value -eq '"@ + trustee
            + "' -and $_.AccessControlType -eq 'Allow'"@,
        "            }"@,
        "            foreach ($rule in $rulesToRemove) {"@,
        "                $acl.RemoveAccessRule($rule) | Out-Null"@,
        "                $modified = $true"@,
        "            }"@,
        "            Write-Host \"    [SUB-ACTION "@ + decimal(n) + "] Removed ACE for '"@ + trustee
            + "' ("@ + human + ")\" -ForegroundColor Green"@,
    ]
}

/// What turns inheritance back on.
pub open spec fn break_fix(n: nat) -> Seq<Seq<char>> {
    seq![
        ""@,
        "            # Sub-action "@ + decimal(n) + ": Re-enable inheritance"@,
        "            # SetAccessRuleProtection($isProtected, $preserveInheritance)"@,
        "            #   $false = not protected = inheritance flows through"@,
        "            #   $false = do not preserve existing explicit ACEs"@,
        "            $acl.SetAccessRuleProtection($false, $false)"@,
        "            $modified = $true"@,
        "            Write-Host \"    [SUB-ACTION "@ + decimal(n)
            + "] Re-enabled inheritance\" -ForegroundColor Green"@,
    ]
}

/// What removes the entries of an orphaned SID from the list.
pub open spec fn orphan_fix(n: nat, sid: Seq<char>) -> Seq<Seq<char>> {
    seq![
        ""@,
        "            # Sub-action "@ + decimal(n) + ": Remove orphaned SID '"@ + sid + "'"@,
        "            $orphanSid"@ + decimal(n)
            + " = New-Object System.Security.Principal.SecurityIdentifier('"@ + sid + "')"@,
        "            $orphanRules = $acl.Access | Where-Object {"@,
        "                $_.IdentityReference.Value -eq $orphanSid"@ + decimal(n) + ".Value"@,
        "            }"@,
        "            foreach ($rule in $orphanRules) {"@,
        "                $acl.RemoveAccessRule($rule) | Out-Null"@,
        "                $modified = $true"@,
        "            }"@,
        "            Write-Host \"    [SUB-ACTION "@ + decimal(n) + "] Removed orphaned SID '"@ + sid
            + "'\" -ForegroundColor Green"@,
    ]
}

/// What fixes a risk, under a number: it depends on the risk alone.
pub open spec fn fix_for(n: nat, risk: RiskKindView) -> Seq<Seq<char>> {
    match risk {
        RiskKindView::OverPermissiveAce { trustee, access_mask, access_mask_human } => grant_fix(
            n,
            trustee,
            access_mask_human,
            access_mask,
        ),
        RiskKindView::InheritanceBreak { .. } => break_fix(n),
        RiskKindView::OrphanedSid { raw_sid } => orphan_fix(n, raw_sid),
        _ => Seq::empty(),
    }
}

/// The lines that act on a finding fix its risk, whatever its severity, its path and its
/// texts are, and there are some for every risk that can be fixed.
pub proof fn actions_fix_the_risk(n: nat, f: FindingView)
    ensures
        action_lines(n, f) == fix_for(n, f.risk),
        actionable(f.risk) ==> action_lines(n, f).len() > 0,
        f.risk is OverPermissiveAce || f.risk is OrphanedSid ==> action_lines(n, f).contains(
            "                $acl.RemoveAccessRule($rule) | Out-Null"@,
        ),
        f.risk is InheritanceBreak ==> action_lines(n, f).contains(
            "            $acl.SetAccessRuleProtection($false, $false)"@,
        ),
        f.risk matches RiskKindView::OverPermissiveAce { trustee, .. } ==> action_lines(
            n,
            f,
        ).contains(
            "                $_.IdentityReference.Value -eq '"@ + trustee
                + "' -and $_.AccessControlType -eq 'Allow'"@,
        ),
        f.risk matches RiskKindView::OrphanedSid { raw_sid } ==> action_lines(n, f).contains(
            "            $orphanSid"@ + decimal(n)
                + " = New-Object System.Security.Principal.SecurityIdentifier('"@ + raw_sid + "')"@,
        ),
{
    let lines = action_lines(n, f);
    assert(lines =~= fix_for(n, f.risk));
    let fix = fix_for(n, f.risk);
    match f.risk {
        RiskKindView::OverPermissiveAce { .. } => {
            assert(fix.contains(fix[3]));
            assert(fix.contains(fix[6]));
        },
        RiskKindView::InheritanceBreak { .. } => {
            assert(fix.contains(fix[5]));
        },
        RiskKindView::OrphanedSid { .. } => {
            assert(fix.contains(fix[2]));
            assert(fix.contains(fix[7]));
        },
        _ => {},
    }
}

/// What is said of a finding in the comment on top of a block: its number, its severity
/// and its risk.
pub proof fn notes_tell_of_the_risk(n: nat, f: FindingView)
    ensures
        note_lines(n, f) == match f.risk {
            RiskKindView::OverPermissiveAce { trustee, access_mask, access_mask_human } => seq![
                "#   "@ + decimal(n) + ". ["@ + f.severity.name_text()
                    + "] OVER-PERMISSIVE ACE: '"@ + trustee + "' with "@ + access_mask_human
                    + " (0x"@ + hex(access_mask as nat, 8, true) + ")"@,
            ],
            RiskKindView::InheritanceBreak { had_protected_copy } => seq![
                "#   "@ + decimal(n) + ". ["@ + f.severity.name_text()
                    + "] INHERITANCE BREAK (had_protected_copy="@ + if had_protected_copy {
                    "true"@
                } else {
                    "false"@
                } + ")"@,
            ],
            RiskKindView::OrphanedSid { raw_sid } => seq![
                "#   "@ + decimal(n) + ". ["@ + f.severity.name_text() + "] ORPHANED SID: "@
                    + raw_sid + ""@,
            ],
            _ => Seq::empty(),
        },
{
}

/// What a dry run says of a finding: what would be done about its risk, whatever its
/// severity, its path and its texts are.
pub proof fn previews_tell_of_the_fix(n: nat, f: FindingView)
    ensures
        preview_lines(n, f) == match f.risk {
            RiskKindView::OverPermissiveAce { trustee, access_mask, access_mask_human } => seq![
                "        Write-Host \"  {\""@ + decimal(n)
                    + "\"}.  Would REMOVE explicit Allow ACE for '"@ + trustee + "' — "@
                    + access_mask_human + " (0x"@ + hex(access_mask as nat, 8, true)
                    + ")\" -ForegroundColor Yellow"@,
            ],
            RiskKindView::InheritanceBreak { had_protected_copy } => seq![
                "        Write-Host \"  {\""@ + decimal(n)
                    + "\"}.  Would RE-ENABLE INHERITANCE (had_protected_copy="@
                    + if had_protected_copy {
                    "true"@
                } else {
                    "false"@
                } + ")\" -ForegroundColor Magenta"@,
            ],
            RiskKindView::OrphanedSid { raw_sid } => seq![
                "        Write-Host \"  {\""@ + decimal(n) + "\"}.  Would REMOVE orphaned SID: "@
                    + raw_sid + "\" -ForegroundColor DarkYellow"@,
            ],
            _ => Seq::empty(),
        },
{
}

// ---------------------------------------------------------------------------
// All findings of a block
// ---------------------------------------------------------------------------

/// What a part of a block says of findings is what it says of each, under its number and
/// in their order.
pub proof fn findings_are_numbered(part: Part, s: Seq<FindingView>, f: FindingView)
    ensures
        numbered(part, Seq::empty()) == Seq::<Seq<char>>::empty(),
        numbered(part, s.push(f)) == numbered(part, s) + match part {
            Part::Note => note_lines(s.len() + 1, f),
            Part::Action => action_lines(s.len() + 1, f),
            Part::Preview => preview_lines(s.len() + 1, f),
        },
{
    assert(s.push(f).drop_last() =~= s);
    assert(numbered(part, Seq::empty()) =~= Seq::<Seq<char>>::empty());
}

/// Where what a part of a block says of a finding starts.
pub open spec fn starts_at(part: Part, s: Seq<FindingView>, i: int) -> int {
    numbered(part, s.take(i)).len() as int
}

/// What a part of a block says of a finding stands in it, behind what it says of the
/// findings before.
pub proof fn each_finding_has_its_lines(part: Part, s: Seq<FindingView>, i: int)
    requires
        0 <= i < s.len(),
    ensures
        ({
            let lines = part_lines(part, (i + 1) as nat, s[i]);
            let at = starts_at(part, s, i);
            &&& at + lines.len() <= numbered(part, s).len()
            &&& numbered(part, s).subrange(at, at + lines.len()) == lines
        }),
    decreases s.len(),
{
    let lines = part_lines(part, (i + 1) as nat, s[i]);
    let at = starts_at(part, s, i);
    let head = s.drop_last();
    let all = numbered(part, s);
    if i == s.len() - 1 {
        assert(s.take(i) =~= head);
        assert(all.subrange(at, at + lines.len()) =~= lines);
    } else {
        each_finding_has_its_lines(part, head, i);
        assert(head.take(i) =~= s.take(i));
        assert(head[i] == s[i]);
        assert(all.subrange(at, at + lines.len()) =~= numbered(part, head).subrange(
            at,
            at + lines.len(),
        ));
    }
}

/// A block in full: the number of its findings, its path, a note for each finding, what
/// fixes each in live mode, and what it would do about each otherwise.
pub proof fn blocks_in_full(num: nat, path: Seq<char>, unique: Seq<FindingView>)
    ensures
        ({
            let count = decimal(unique.len());
            let place = padded(decimal(num), 3, ' ');
            unique_block_lines(num, path, unique) == seq![
                PS_RULE@,
                "# PATH BLOCK #"@ + decimal(num) + " — "@ + count + " finding(s) on this path"@,
                "# Path: "@ + path + ""@,
                "#"@,
            ] + numbered(Part::Note, unique) + texts(NOTES_BOTTOM@) + seq![
                "$ActionCount += "@ + count + ""@,
                "$targetPath = '"@ + escaped(path) + "'"@,
            ] + texts(ACTIONS_TOP@) + numbered(Part::Action, unique) + texts(COMMIT_TOP@) + seq![
                "                Write-Host \"  [APPLIED] All "@ + count
                    + " sub-actions applied on: $targetPath\" -ForegroundColor Green"@,
            ] + texts(COMMIT_BOTTOM@) + seq![
                "        Write-Host \"[DRY-RUN BLOCK #"@ + place + "] Path: $targetPath ("@ + count
                    + " action(s))\" -ForegroundColor Cyan"@,
            ] + numbered(Part::Preview, unique) + texts(DRY_BOTTOM@) + seq![
                "    Write-Host \"  [SKIPPED BLOCK #"@ + place
                    + "] Path not found: $targetPath\" -ForegroundColor DarkGray"@,
            ] + texts(BLOCK_BOTTOM@)
        }),
{
    let count = decimal(unique.len());
    let place = padded(decimal(num), 3, ' ');
    let a = seq![
        PS_RULE@,
        "# PATH BLOCK #"@ + decimal(num) + " — "@ + count + " finding(s) on this path"@,
        "# Path: "@ + path + ""@,
        "#"@,
    ] + numbered(Part::Note, unique) + texts(NOTES_BOTTOM@);
    let x1 = "$ActionCount += "@ + count + ""@;
    let x2 = "$targetPath = '"@ + escaped(path) + "'"@;
    assert(a.push(x1).push(x2) =~= a + seq![x1, x2]);
    let b = a + seq![x1, x2] + texts(ACTIONS_TOP@) + numbered(Part::Action, unique) + texts(
        COMMIT_TOP@,
    );
    let x3 = "                Write-Host \"  [APPLIED] All "@ + count
        + " sub-actions applied on: $targetPath\" -ForegroundColor Green"@;
    assert(b.push(x3) =~= b + seq![x3]);
    let c = b + seq![x3] + texts(COMMIT_BOTTOM@);
    let x4 = "        Write-Host \"[DRY-RUN BLOCK #"@ + place + "] Path: $targetPath ("@ + count
        + " action(s))\" -ForegroundColor Cyan"@;
    assert(c.push(x4) =~= c + seq![x4]);
    let d = c + seq![x4] + numbered(Part::Preview, unique) + texts(DRY_BOTTOM@);
    let x5 = "    Write-Host \"  [SKIPPED BLOCK #"@ + place
        + "] Path not found: $targetPath\" -ForegroundColor DarkGray"@;
    assert(d.push(x5) =~= d + seq![x5]);
}

/// A block shows the findings of a path, of those that read the same the first.
pub proof fn blocks_show_each_finding_once(num: nat, path: Seq<char>, findings: Seq<FindingView>)
    ensures
        block_lines(num, path, findings) == unique_block_lines(
            num,
            path,
            unique_findings(findings),
        ),
{
}

/// For every finding of a block that can be fixed, whatever its severity, the live
/// branch holds the lines that fix it, one after the other.
pub proof fn every_fix_stands_in_the_live_branch(
    num: nat,
    path: Seq<char>,
    findings: Seq<FindingView>,
    i: int,
)
    requires
        0 <= i < unique_findings(findings).len(),
    ensures
        ({
            let lines = block_lines(num, path, findings);
            let fix = fix_for((i + 1) as nat, unique_findings(findings)[i].risk);
            let at = live_from(findings) + 6 + starts_at(
                Part::Action,
                unique_findings(findings),
                i,
            );
            &&& is_live_branch(lines, live_from(findings), live_to(findings))
            &&& live_from(findings) < at
            &&& at + fix.len() <= live_to(findings)
            &&& lines.subrange(at, at + fix.len()) == fix
            &&& actionable(unique_findings(findings)[i].risk) ==> fix.len() > 0
        }),
{
    let unique = unique_findings(findings);
    let lines = block_lines(num, path, findings);
    let fix = fix_for((i + 1) as nat, unique[i].risk);
    let inner = starts_at(Part::Action, unique, i);
    let start = live_from(findings) + 6;
    lists_are_touched_in_live_mode_only(num, path, findings);
    blocks_in_full(num, path, unique);
    actions_fix_the_risk((i + 1) as nat, unique[i]);
    each_finding_has_its_lines(Part::Action, unique, i);
    let acts = numbered(Part::Action, unique);
    assert(acts.subrange(inner, inner + fix.len()) == fix);
    assert(lines.subrange(start, start + acts.len()) =~= acts);
    assert(lines.subrange(start + inner, start + inner + fix.len()) =~= acts.subrange(
        inner,
        inner + fix.len(),
    )) by {
        assert forall|k: int| 0 <= k < fix.len() implies #[trigger] lines[start + inner + k]
            == acts[inner + k] by {
            assert(lines.subrange(start, start + acts.len())[inner + k] == acts[inner + k]);
        }
    }
}

} // verus!
