//! The dry-run PowerShell script.
//!
//! The script is 100% dry-run by default: it says what would be done, and changes
//! nothing unless it is edited and then confirmed. It holds one block for each
//! path with findings that can be fixed, and a comment for each finding that
//! cannot.

pub mod block;
pub mod branches;
pub mod findings;
pub mod fixed;
pub mod folders;
pub mod safety;
pub mod script;
pub mod wording;

use self::block::{block_lines, emit_aggregated_path_block};
use self::findings::{
    actionable_findings, dedup_findings, guidance_text, is_actionable, manual_guidance, ref_views,
    unique_findings, unique_keeps_each_key_once,
};
use self::fixed::{SAFETY, UTF8_BOM};
use self::folders::{
    group_by_path, group_views, groups_hold_each_finding_once, path_groups, total_size,
    GroupView, PathGroup,
};
use self::script::{
    banner_lines, emit_dry_run_banner, emit_footer, emit_header_at, emit_manual_triage_comment,
    emit_safety_boilerplate, emit_top5_riskiest_folders, footer_lines, header_lines, top_lines,
    triage_lines,
};
use crate::clock::{is_zoned_time, now, ZONED_TIME};
use crate::lines::{render, render_concatenates, texts};
use crate::scanner::risk::{finding_views, FindingView, RiskFinding};
use vstd::prelude::*;

verus! {

/// The blocks of paths, which are numbered from one.
pub open spec fn blocks_lines(groups: Seq<GroupView>) -> Seq<Seq<char>>
    decreases groups.len(),
{
    if groups.len() == 0 {
        Seq::empty()
    } else {
        blocks_lines(groups.drop_last()) + block_lines(
            groups.len(),
            groups.last().path,
            groups.last().findings,
        )
    }
}

/// How many actions the blocks hold.
pub open spec fn action_total(groups: Seq<GroupView>) -> nat
    decreases groups.len(),
{
    if groups.len() == 0 {
        0
    } else {
        action_total(groups.drop_last()) + unique_findings(groups.last().findings).len()
    }
}

/// The comments on the findings that cannot be fixed, which are numbered among
/// all findings from one.
pub open spec fn comments_lines(s: Seq<FindingView>) -> Seq<Seq<char>>
    decreases s.len(),
{
    if s.len() == 0 {
        Seq::empty()
    } else {
        comments_lines(s.drop_last()) + match guidance_text(s.last().risk) {
            Some(guidance) => triage_lines(s.len(), s.last(), guidance),
            None => Seq::empty(),
        }
    }
}

/// The findings that can be fixed, by path.
pub open spec fn fixes(s: Seq<FindingView>) -> Seq<GroupView> {
    path_groups(actionable_findings(s))
}

/// The lines of the script.
pub open spec fn script_lines(s: Seq<FindingView>, scan_root: Seq<char>, time: Seq<char>) -> Seq<
    Seq<char>,
> {
    header_lines(s, scan_root, time) + texts(SAFETY@) + banner_lines(scan_root, s) + top_lines(s)
        + blocks_lines(fixes(s)) + comments_lines(s) + footer_lines(action_total(fixes(s)))
}

/// The script.
pub open spec fn script_text(s: Seq<FindingView>, scan_root: Seq<char>, time: Seq<char>) -> Seq<
    char,
> {
    UTF8_BOM@ + render(script_lines(s, scan_root, time))
}

/// The findings of a list that can be fixed.
fn select_actionable<'a>(findings: &'a [RiskFinding]) -> (r: Vec<&'a RiskFinding>)
    ensures
        ref_views(r@) == actionable_findings(finding_views(findings@)),
{
    let ghost s = finding_views(findings@);
    let mut r: Vec<&'a RiskFinding> = Vec::new();
    let mut k: usize = 0;
    assert(ref_views(r@) =~= actionable_findings(s.take(0)));
    while k < findings.len()
        invariant
            k <= findings@.len(),
            s == finding_views(findings@),
            ref_views(r@) == actionable_findings(s.take(k as int)),
        decreases findings@.len() - k,
    {
        let ghost before = r@;
        assert(s.take(k + 1).drop_last() =~= s.take(k as int));
        if is_actionable(&findings[k].risk) {
            r.push(&findings[k]);
            assert(ref_views(r@) =~= ref_views(before).push(findings@[k as int]@));
        }
        k += 1;
    }
    assert(s.take(k as int) =~= s);
    r
}

/// Writes the block of each path, and counts the actions.
fn emit_blocks(script: &mut String, groups: &Vec<PathGroup>) -> (total: usize)
    requires
        total_size(group_views(groups@)) <= usize::MAX,
    ensures
        final(script)@ == old(script)@ + render(blocks_lines(group_views(groups@))),
        total == action_total(group_views(groups@)),
{
    let ghost before = script@;
    let ghost g = group_views(groups@);
    let mut total: usize = 0;
    let mut k: usize = 0;
    assert(before + render(blocks_lines(g.take(0))) =~= before);
    while k < groups.len()
        invariant
            k <= groups@.len(),
            g == group_views(groups@),
            total_size(g) <= usize::MAX,
            script@ == before + render(blocks_lines(g.take(k as int))),
            total == action_total(g.take(k as int)),
            total <= total_size(g.take(k as int)),
        decreases groups@.len() - k,
    {
        let group = &groups[k];
        proof {
            assert(g.take(k + 1).drop_last() =~= g.take(k as int));
            assert(g.take(k + 1).last() == group@);
            unique_keeps_each_key_once(group@.findings);
            lemma_size_grows(g, k + 1);
            render_concatenates(
                blocks_lines(g.take(k as int)),
                block_lines((k + 1) as nat, group@.path, group@.findings),
            );
        }
        let unique = dedup_findings(&group.findings);
        assert(unique@.len() == ref_views(unique@).len());
        total += unique.len();
        emit_aggregated_path_block(script, k + 1, group.path, &group.findings);
        assert(script@ =~= before + render(blocks_lines(g.take(k + 1))));
        k += 1;
    }
    assert(g.take(k as int) =~= g);
    total
}

proof fn lemma_size_grows(g: Seq<GroupView>, k: int)
    requires
        0 <= k <= g.len(),
    ensures
        total_size(g.take(k)) <= total_size(g),
    decreases g.len(),
{
    if k == g.len() {
        assert(g.take(k) =~= g);
    } else {
        lemma_size_grows(g.drop_last(), k);
        assert(g.drop_last().take(k) =~= g.take(k));
    }
}

/// Writes the comments on the findings that cannot be fixed.
fn emit_comments(script: &mut String, findings: &[RiskFinding])
    ensures
        final(script)@ == old(script)@ + render(comments_lines(finding_views(findings@))),
{
    let ghost before = script@;
    let ghost s = finding_views(findings@);
    let mut k: usize = 0;
    assert(before + render(comments_lines(s.take(0))) =~= before);
    while k < findings.len()
        invariant
            k <= findings@.len(),
            s == finding_views(findings@),
            script@ == before + render(comments_lines(s.take(k as int))),
        decreases findings@.len() - k,
    {
        let ghost so_far = comments_lines(s.take(k as int));
        proof {
            assert(s.take(k + 1).drop_last() =~= s.take(k as int));
            assert(s.take(k + 1).last() == findings@[k as int]@);
        }
        match manual_guidance(&findings[k].risk) {
            Some(guidance) => {
                emit_manual_triage_comment(script, k + 1, &findings[k], guidance.as_str());
                proof {
                    render_concatenates(
                        so_far,
                        triage_lines((k + 1) as nat, findings@[k as int]@, guidance@),
                    );
                    assert(script@ =~= before + render(comments_lines(s.take(k + 1))));
                }
            },
            None => {
                assert(so_far + Seq::<Seq<char>>::empty() =~= so_far);
            },
        }
        k += 1;
    }
    assert(s.take(k as int) =~= s);
}

/// Writes the script with a given time.
pub fn remediation_script_at(findings: &[RiskFinding], scan_root: &str, time: &str) -> (r: String)
    ensures
        r@ == script_text(finding_views(findings@), scan_root@, time@),
{
    let ghost s = finding_views(findings@);
    let mut script = UTF8_BOM.to_owned();
    emit_header_at(&mut script, findings, scan_root, time);
    emit_safety_boilerplate(&mut script);
    emit_dry_run_banner(&mut script, scan_root, findings);
    emit_top5_riskiest_folders(&mut script, findings);
    let fixable = select_actionable(findings);
    let groups = group_by_path(&fixable);
    let fixable_count: usize = fixable.len();
    proof {
        groups_hold_each_finding_once(actionable_findings(s));
        assert(ref_views(fixable@).len() == fixable_count);
        assert(group_views(groups@) == fixes(s));
        assert(total_size(group_views(groups@)) == fixable_count);
    }
    let total_actions: usize = emit_blocks(&mut script, &groups);
    emit_comments(&mut script, findings);
    emit_footer(&mut script, total_actions);
    proof {
        let a = header_lines(s, scan_root@, time@);
        let b = texts(SAFETY@);
        let c = banner_lines(scan_root@, s);
        let d = top_lines(s);
        let e = blocks_lines(fixes(s));
        let f = comments_lines(s);
        let g = footer_lines(action_total(fixes(s)));
        render_concatenates(a, b);
        render_concatenates(a + b, c);
        render_concatenates(a + b + c, d);
        render_concatenates(a + b + c + d, e);
        render_concatenates(a + b + c + d + e, f);
        render_concatenates(a + b + c + d + e + f, g);
        assert(script@ =~= script_text(s, scan_root@, time@));
    }
    script
}

/// Writes the script.
pub fn generate_remediation_script(findings: &[RiskFinding], scan_root: &str) -> (r: String)
    ensures
        exists|time: Seq<char>|
            is_zoned_time(time) && r@ == #[trigger] script_text(
                finding_views(findings@),
                scan_root@,
                time,
            ),
{
    let time = now(ZONED_TIME);
    let r = remediation_script_at(findings, scan_root, time.as_str());
    assert(is_zoned_time(time@));
    r
}

} // verus!
