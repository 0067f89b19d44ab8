//! The sections of the script.

use super::findings::{
    actionable_findings, count_actionable, escape_ps_path, escaped, ref_views, truncate_desc,
    truncated,
};
use super::fixed::{
    BANNER_ACTIONABLE, BANNER_BOTTOM, BANNER_ROOT, BANNER_TOP, BANNER_TOTAL, FOLDERS_BOTTOM,
    FOLDERS_TOP, FOLDER_BAR, FOLDER_GAP, FOLDER_PATH, FOLDER_RANK, FOOTER_BOTTOM, FOOTER_TOP,
    FOOTER_TOTAL, HEADER_ACTIONABLE, HEADER_BOTTOM, HEADER_ROOT, HEADER_TIME, HEADER_TOP,
    HEADER_TOTAL, HEADER_VERSION, PS_DIVIDER, SAFETY, TRIAGE_BOTTOM, TRIAGE_GUIDANCE, TRIAGE_PATH,
    TRIAGE_RISK, TRIAGE_TITLE,
};
use super::folders::{folder_views, rank_folders, top_folders, FolderScore, FolderView, TOP_FOLDERS};
use crate::clock::{is_zoned_time, now, ZONED_TIME};
use crate::lines::{
    fill1, fill2, fill3, filled1, filled2, filled3, render, texts, Lines,
};
use crate::scanner::risk::{finding_views, FindingView, RiskFinding};
use crate::text::{decimal, decimal_text, pad_text, padded};
use crate::VERSION;
use vstd::prelude::*;

verus! {

/// All findings of a list.
pub fn refs_of<'a>(findings: &'a [RiskFinding]) -> (r: Vec<&'a RiskFinding>)
    ensures
        ref_views(r@) == finding_views(findings@),
{
    let mut r: Vec<&'a RiskFinding> = Vec::new();
    let mut k: usize = 0;
    while k < findings.len()
        invariant
            k <= findings@.len(),
            ref_views(r@) =~= finding_views(findings@).take(k as int),
        decreases findings@.len() - k,
    {
        let ghost before = r@;
        r.push(&findings[k]);
        assert(ref_views(r@) =~= ref_views(before).push(findings@[k as int]@));
        k += 1;
    }
    r
}

// ---------------------------------------------------------------------------
// Header
// ---------------------------------------------------------------------------

/// The header.
pub open spec fn header_lines(s: Seq<FindingView>, scan_root: Seq<char>, time: Seq<char>) -> Seq<
    Seq<char>,
> {
    texts(HEADER_TOP@).push(filled1(HEADER_ROOT@, scan_root)).push(
        filled1(HEADER_TOTAL@, decimal(s.len())),
    ).push(filled1(HEADER_ACTIONABLE@, decimal(actionable_findings(s).len()))).push(
        filled1(HEADER_TIME@, time),
    ).push(filled1(HEADER_VERSION@, VERSION@)) + texts(HEADER_BOTTOM@)
}

/// Writes the header with a given time.
pub fn emit_header_at(script: &mut String, findings: &[RiskFinding], scan_root: &str, time: &str)
    ensures
        final(script)@ == old(script)@ + render(
            header_lines(finding_views(findings@), scan_root@, time@),
        ),
{
    let total = decimal_text(findings.len() as u128);
    let actionable = decimal_text(count_actionable(findings) as u128);
    let mut out = Lines::of(HEADER_TOP.as_slice());
    out.own(fill1(HEADER_ROOT.as_slice(), scan_root));
    out.own(fill1(HEADER_TOTAL.as_slice(), total.as_str()));
    out.own(fill1(HEADER_ACTIONABLE.as_slice(), actionable.as_str()));
    out.own(fill1(HEADER_TIME.as_slice(), time));
    out.own(fill1(HEADER_VERSION.as_slice(), VERSION));
    out.all(HEADER_BOTTOM.as_slice());
    assert(out@ == header_lines(finding_views(findings@), scan_root@, time@));
    out.write_to(script);
}

/// Writes the header.
pub fn emit_header(script: &mut String, findings: &[RiskFinding], scan_root: &str)
    ensures
        exists|time: Seq<char>|
            is_zoned_time(time) && final(script)@ == old(script)@ + render(
                #[trigger] header_lines(finding_views(findings@), scan_root@, time),
            ),
{
    let time = now(ZONED_TIME);
    emit_header_at(script, findings, scan_root, time.as_str());
    assert(is_zoned_time(time@));
}

// ---------------------------------------------------------------------------
// Safety
// ---------------------------------------------------------------------------

/// Writes what keeps the script from changing anything unless it is told to.
pub fn emit_safety_boilerplate(script: &mut String)
    ensures
        final(script)@ == old(script)@ + render(texts(SAFETY@)),
{
    let out = Lines::of(SAFETY.as_slice());
    out.write_to(script);
}

// ---------------------------------------------------------------------------
// Banner
// ---------------------------------------------------------------------------

/// The banner, and the counters.
pub open spec fn banner_lines(scan_root: Seq<char>, s: Seq<FindingView>) -> Seq<Seq<char>> {
    texts(BANNER_TOP@).push(filled1(BANNER_ROOT@, scan_root)).push(
        filled1(BANNER_TOTAL@, decimal(s.len())),
    ).push(filled1(BANNER_ACTIONABLE@, decimal(actionable_findings(s).len()))) + texts(
        BANNER_BOTTOM@,
    )
}

/// Writes the banner, and the counters.
pub fn emit_dry_run_banner(script: &mut String, scan_root: &str, findings: &[RiskFinding])
    ensures
        final(script)@ == old(script)@ + render(banner_lines(scan_root@, finding_views(findings@))),
{
    let total = decimal_text(findings.len() as u128);
    let actionable = decimal_text(count_actionable(findings) as u128);
    let mut out = Lines::of(BANNER_TOP.as_slice());
    out.own(fill1(BANNER_ROOT.as_slice(), scan_root));
    out.own(fill1(BANNER_TOTAL.as_slice(), total.as_str()));
    out.own(fill1(BANNER_ACTIONABLE.as_slice(), actionable.as_str()));
    out.all(BANNER_BOTTOM.as_slice());
    assert(out@ == banner_lines(scan_root@, finding_views(findings@)));
    out.write_to(script);
}

// ---------------------------------------------------------------------------
// Riskiest folders
// ---------------------------------------------------------------------------

/// The longest bar.
pub const MAX_BAR: usize = 20;

/// The length of the bar of a score.
pub open spec fn bar_length(score: nat) -> nat {
    if score / 2 < MAX_BAR {
        score / 2
    } else {
        MAX_BAR as nat
    }
}

/// The bar of a score.
pub open spec fn bar(score: nat) -> Seq<char> {
    Seq::new(bar_length(score), |i: int| '█')
}

/// The color of a score.
pub open spec fn bar_color(score: nat) -> Seq<char> {
    if score >= 20 {
        "Red"@
    } else if score >= 10 {
        "Yellow"@
    } else {
        "DarkYellow"@
    }
}

/// The lines of the folder of this rank.
pub open spec fn folder_lines(rank: nat, f: FolderView) -> Seq<Seq<char>> {
    seq![
        filled3(
            FOLDER_RANK@,
            decimal(rank),
            padded(decimal(f.score), 3, ' '),
            decimal(f.count),
        ),
        filled2(FOLDER_BAR@, bar(f.score), bar_color(f.score)),
        filled1(FOLDER_PATH@, escaped(f.path)),
    ]
}

/// The lines of folders, with a line between any two.
pub open spec fn folder_list_lines(fs: Seq<FolderView>) -> Seq<Seq<char>>
    decreases fs.len(),
{
    if fs.len() == 0 {
        Seq::empty()
    } else if fs.len() == 1 {
        folder_lines(1, fs[0])
    } else {
        folder_list_lines(fs.drop_last()).push(FOLDER_GAP@) + folder_lines(fs.len(), fs.last())
    }
}

/// The list of the riskiest folders: nothing, where there are no findings.
pub open spec fn top_lines(s: Seq<FindingView>) -> Seq<Seq<char>> {
    let fs = top_folders(s);
    if fs.len() == 0 {
        Seq::empty()
    } else {
        texts(FOLDERS_TOP@) + folder_list_lines(fs) + texts(FOLDERS_BOTTOM@)
    }
}

fn bar_text(score: u128) -> (r: String)
    ensures
        r@ == bar(score as nat),
{
    let mut r = String::new();
    let mut k: usize = 0;
    while k < MAX_BAR && (k as u128) < score / 2
        invariant
            k <= bar_length(score as nat),
            r@ =~= Seq::new(k as nat, |i: int| '█'),
        decreases MAX_BAR - k,
    {
        r.push('█');
        k += 1;
    }
    assert(k == bar_length(score as nat));
    r
}

fn bar_color_name(score: u128) -> (r: &'static str)
    ensures
        r@ == bar_color(score as nat),
{
    if score >= 20 {
        "Red"
    } else if score >= 10 {
        "Yellow"
    } else {
        "DarkYellow"
    }
}

fn push_folder(out: &mut Lines, rank: usize, folder: &FolderScore)
    ensures
        final(out)@ == old(out)@ + folder_lines(rank as nat, folder@),
{
    let ghost before = out@;
    let place = decimal_text(rank as u128);
    let score = pad_text(decimal_text(folder.score), 3, ' ');
    let count = decimal_text(folder.count as u128);
    let stripe = bar_text(folder.score);
    let path = escape_ps_path(folder.path);
    out.own(fill3(FOLDER_RANK.as_slice(), place.as_str(), score.as_str(), count.as_str()));
    out.own(fill2(FOLDER_BAR.as_slice(), stripe.as_str(), bar_color_name(folder.score)));
    out.own(fill1(FOLDER_PATH.as_slice(), path.as_str()));
    assert(out@ =~= before + folder_lines(rank as nat, folder@));
}

/// Writes the list of the riskiest folders.
pub fn emit_top5_riskiest_folders(script: &mut String, findings: &[RiskFinding])
    ensures
        final(script)@ == old(script)@ + render(top_lines(finding_views(findings@))),
{
    let ghost s = finding_views(findings@);
    let ghost fs = top_folders(s);
    let refs = refs_of(findings);
    let folders = rank_folders(&refs);
    let count: usize = if folders.len() < TOP_FOLDERS {
        folders.len()
    } else {
        TOP_FOLDERS
    };
    assert(folder_views(folders@).take(count as int) =~= fs);
    if count == 0 {
        assert(old(script)@ + render(Seq::<Seq<char>>::empty()) =~= old(script)@);
        return ;
    }
    let mut out = Lines::of(FOLDERS_TOP.as_slice());
    let mut k: usize = 0;
    assert(out@ + folder_list_lines(fs.take(0)) =~= out@);
    while k < count
        invariant
            k <= count <= folders@.len(),
            fs.len() == count,
            fs == folder_views(folders@).take(count as int),
            out@ == texts(FOLDERS_TOP@) + folder_list_lines(fs.take(k as int)),
        decreases count - k,
    {
        let ghost before = folder_list_lines(fs.take(k as int));
        if k > 0 {
            out.line(FOLDER_GAP);
        }
        push_folder(&mut out, k + 1, &folders[k]);
        proof {
            let upto = fs.take(k + 1);
            assert(upto.drop_last() =~= fs.take(k as int));
            assert(upto.last() == folders@[k as int]@);
            assert(out@ =~= texts(FOLDERS_TOP@) + folder_list_lines(upto));
        }
        k += 1;
    }
    assert(fs.take(k as int) =~= fs);
    out.all(FOLDERS_BOTTOM.as_slice());
    assert(out@ == top_lines(s));
    out.write_to(script);
}

// ---------------------------------------------------------------------------
// Manual triage
// ---------------------------------------------------------------------------

/// The comment on the finding of this number.
pub open spec fn triage_lines(num: nat, f: FindingView, guidance: Seq<char>) -> Seq<Seq<char>> {
    seq![
        PS_DIVIDER@,
        filled2(TRIAGE_TITLE@, decimal(num), f.severity.name_text()),
        filled1(TRIAGE_PATH@, f.path),
        filled1(TRIAGE_RISK@, truncated(f.description)),
        filled1(TRIAGE_GUIDANCE@, guidance),
    ] + texts(TRIAGE_BOTTOM@)
}

/// Writes the comment on the finding of this number.
pub fn emit_manual_triage_comment(
    script: &mut String,
    finding_num: usize,
    finding: &RiskFinding,
    guidance: &str,
)
    ensures
        final(script)@ == old(script)@ + render(
            triage_lines(finding_num as nat, finding@, guidance@),
        ),
{
    let number = decimal_text(finding_num as u128);
    let mut out = Lines::new();
    out.line(PS_DIVIDER);
    out.own(fill2(TRIAGE_TITLE.as_slice(), number.as_str(), finding.severity.name()));
    out.own(fill1(TRIAGE_PATH.as_slice(), finding.path.as_str()));
    out.own(fill1(TRIAGE_RISK.as_slice(), truncate_desc(finding.description.as_str())));
    out.own(fill1(TRIAGE_GUIDANCE.as_slice(), guidance));
    out.all(TRIAGE_BOTTOM.as_slice());
    assert(out@ == triage_lines(finding_num as nat, finding@, guidance@));
    out.write_to(script);
}

// ---------------------------------------------------------------------------
// Footer
// ---------------------------------------------------------------------------

/// The footer.
pub open spec fn footer_lines(total_actions: nat) -> Seq<Seq<char>> {
    texts(FOOTER_TOP@).push(filled1(FOOTER_TOTAL@, decimal(total_actions))) + texts(FOOTER_BOTTOM@)
}

/// Writes the footer.
pub fn emit_footer(script: &mut String, total_actions: usize)
    ensures
        final(script)@ == old(script)@ + render(footer_lines(total_actions as nat)),
{
    let total = decimal_text(total_actions as u128);
    let mut out = Lines::of(FOOTER_TOP.as_slice());
    out.own(fill1(FOOTER_TOTAL.as_slice(), total.as_str()));
    out.all(FOOTER_BOTTOM.as_slice());
    assert(out@ == footer_lines(total_actions as nat));
    out.write_to(script);
}

} // verus!
