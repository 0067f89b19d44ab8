//! The script as a whole: its sections, its folders and its counts.

use crate::lines::{render, texts};
use crate::order::text_before;
use crate::remediation::block::block_lines;
use crate::remediation::findings::{
    actionable, actionable_findings, escaped, guidance_text, key_views, ref_views, truncated,
    unique_findings,
};
use crate::remediation::fixed::{
    BANNER_BOTTOM, BANNER_TOP, FOLDERS_BOTTOM, FOLDERS_TOP, FOOTER_BOTTOM, FOOTER_TOP,
    HEADER_BOTTOM, HEADER_TOP, PS_DIVIDER, SAFETY, TRIAGE_BOTTOM,
};
use crate::remediation::folders::{
    alphabetical_is_total, arranged, folder_views, group_views, arranged_holds_its_items, groups_hold_each_finding_once,
    on_path, path_groups, path_list, path_score, paths_of, ranked_folders, riskier,
    riskier_is_total, top_folders, FolderScore, FolderView, GroupView, PathGroup,
};
use crate::remediation::script::{
    banner_lines, bar, folder_lines, folder_list_lines, footer_lines, header_lines, top_lines,
    triage_lines,
};
use crate::remediation::{
    action_total, blocks_lines, comments_lines, fixes, script_lines, script_text,
};
use crate::scanner::risk::{FindingView, RiskFinding, Severity};
use crate::text::{decimal, padded};
use vstd::prelude::*;

verus! {

// ---------------------------------------------------------------------------
// The findings of a path
// ---------------------------------------------------------------------------

/// Whether a finding is on a path is decided for each by itself, and they stay in order.
pub proof fn findings_are_told_apart_by_path(
    a: Seq<FindingView>,
    b: Seq<FindingView>,
    f: FindingView,
    path: Seq<char>,
)
    ensures
        on_path(a + b, path) == on_path(a, path) + on_path(b, path),
        on_path(Seq::empty(), path) == Seq::<FindingView>::empty(),
        f.path == path ==> on_path(seq![f], path) == seq![f],
        f.path != path ==> on_path(seq![f], path) == Seq::<FindingView>::empty(),
    decreases b.len(),
{
    assert(on_path(Seq::empty(), path) =~= Seq::<FindingView>::empty());
    assert(seq![f].drop_last() =~= Seq::<FindingView>::empty());
    assert(f.path == path ==> on_path(seq![f], path) =~= seq![f]);
    if b.len() == 0 {
        assert(a + b =~= a);
        assert(on_path(a, path) + on_path(b, path) =~= on_path(a, path));
    } else {
        findings_are_told_apart_by_path(a, b.drop_last(), f, path);
        assert((a + b).drop_last() =~= a + b.drop_last());
        assert(on_path(a + b, path) =~= on_path(a, path) + on_path(b, path));
    }
}

/// Findings are grouped by path: each path once, in order, with the findings on it.
pub proof fn groups_are_the_paths(s: Seq<FindingView>)
    ensures
        path_groups(s).len() == path_list(s).len(),
        forall|i: int|
            0 <= i < path_groups(s).len() ==> (#[trigger] path_groups(s)[i]).path == path_list(s)[i]
                && path_groups(s)[i].findings == on_path(s, path_list(s)[i]),
        forall|i: int, j: int|
            0 <= i < j < path_groups(s).len() ==> text_before(
                (#[trigger] path_groups(s)[i]).path,
                (#[trigger] path_groups(s)[j]).path,
            ),
        forall|k: int|
            0 <= k < s.len() ==> exists|i: int|
                0 <= i < path_groups(s).len() && (#[trigger] path_groups(s)[i]).path == (
                #[trigger] s[k]).path,
        fixes(s) == path_groups(actionable_findings(s)),
{
    groups_hold_each_finding_once(s);
    let list = path_list(s);
    assert forall|i: int, j: int| 0 <= i < j < path_groups(s).len() implies text_before(
        (#[trigger] path_groups(s)[i]).path,
        (#[trigger] path_groups(s)[j]).path,
    ) by {
        assert(crate::remediation::folders::alphabetical()(list[i], list[j]));
    }
    assert forall|k: int| 0 <= k < s.len() implies exists|i: int|
        0 <= i < path_groups(s).len() && (#[trigger] path_groups(s)[i]).path == (
        #[trigger] s[k]).path by {
        assert(paths_of(s)[k] == s[k].path);
        assert(list.contains(s[k].path));
        let i = choose|i: int| 0 <= i < list.len() && list[i] == s[k].path;
        assert(path_groups(s)[i].path == s[k].path);
    }
}

// ---------------------------------------------------------------------------
// Folders
// ---------------------------------------------------------------------------

/// What a severity adds to the score of a folder.
pub open spec fn weight(severity: Severity) -> nat {
    match severity {
        Severity::Critical => 10,
        Severity::High => 5,
        Severity::Medium => 2,
        Severity::Low => 1,
        Severity::Info => 0,
    }
}

/// Each finding adds the weight of its severity to the score of its own path, and of no
/// other.
pub proof fn findings_add_to_the_score_of_their_path(
    s: Seq<FindingView>,
    f: FindingView,
    path: Seq<char>,
)
    ensures
        path_score(Seq::empty(), path) == 0,
        path_score(s.push(f), path) == path_score(s, path) + if f.path == path {
            weight(f.severity)
        } else {
            0
        },
{
    assert(s.push(f).drop_last() =~= s);
    let on = on_path(s, path);
    if f.path == path {
        assert(on.push(f).drop_last() =~= on);
    }
}

/// The folders are listed with the higher score first, and of two with the same score the
/// one whose path is first in order; each has the score and the number of its findings.
pub proof fn folders_are_ranked(s: Seq<FindingView>)
    ensures
        ranked_folders(s).len() == path_list(s).len(),
        forall|i: int|
            #![trigger ranked_folders(s)[i]]
            0 <= i < ranked_folders(s).len() ==> {
                let f = ranked_folders(s)[i];
                f.score == path_score(s, f.path) && f.count == on_path(s, f.path).len()
                    && path_list(s).contains(f.path)
            },
        forall|i: int, j: int|
            0 <= i < j < ranked_folders(s).len() ==> (#[trigger] ranked_folders(s)[i]).score > (
            #[trigger] ranked_folders(s)[j]).score || (ranked_folders(s)[i].score
                == ranked_folders(s)[j].score && text_before(
                ranked_folders(s)[i].path,
                ranked_folders(s)[j].path,
            )),
        top_folders(s) == if ranked_folders(s).len() > 5 {
            ranked_folders(s).take(5)
        } else {
            ranked_folders(s)
        },
{
    let before = riskier(s);
    let ranked = arranged(paths_of(s), before);
    let list = path_list(s);
    let all = ranked_folders(s);
    alphabetical_is_total();
    riskier_is_total(s);
    arranged_holds_its_items(paths_of(s), before);
    groups_hold_each_finding_once(s);
    crate::remediation::folders::lemma_no_duplicates(ranked, before);
    crate::remediation::folders::lemma_no_duplicates(
        list,
        crate::remediation::folders::alphabetical(),
    );
    assert(ranked.len() == list.len()) by {
        ranked.unique_seq_to_set();
        list.unique_seq_to_set();
        assert(ranked.to_set() =~= list.to_set()) by {
            assert forall|y: Seq<char>| ranked.to_set().contains(y) <==> list.to_set().contains(
                y,
            ) by {
                assert(ranked.contains(y) <==> paths_of(s).contains(y));
                assert(list.contains(y) <==> paths_of(s).contains(y));
            }
        }
    }
    assert forall|i: int| 0 <= i < all.len() implies #[trigger] all[i] == (FolderView {
        path: ranked[i],
        score: path_score(s, ranked[i]),
        count: on_path(s, ranked[i]).len(),
    }) && list.contains(ranked[i]) by {
        assert(ranked.contains(ranked[i]));
        assert(list.contains(ranked[i]) <==> paths_of(s).contains(ranked[i]));
    }
    assert forall|i: int, j: int| 0 <= i < j < all.len() implies (#[trigger] all[i]).score > (
    #[trigger] all[j]).score || (all[i].score == all[j].score && text_before(
        all[i].path,
        all[j].path,
    )) by {
        assert(before(ranked[i], ranked[j]));
    }
}

/// A folder is shown with its rank, its score, the number of its findings, its path, and
/// a bar of one block for each two points of the score and of twenty at most, whose color
/// follows the score.
pub proof fn folders_are_shown(rank: nat, f: FolderView)
    ensures
        ({
            let color = if f.score >= 20 {
                "Red"@
            } else if f.score >= 10 {
                "Yellow"@
            } else {
                "DarkYellow"@
            };
            &&& folder_lines(rank, f) == seq![
                "Write-Host \"│  #"@ + decimal(rank) + " [Score: "@ + padded(
                    decimal(f.score),
                    3,
                    ' ',
                ) + "] ("@ + decimal(f.count) + " finding(s))\" -ForegroundColor White"@,
                "Write-Host \"│     "@ + bar(f.score) + "\" -ForegroundColor "@ + color + ""@,
                "Write-Host \"│     "@ + escaped(f.path) + "\" -ForegroundColor Gray"@,
            ]
            &&& bar(f.score).len() == if f.score >= 40 {
                20
            } else {
                f.score / 2
            }
            &&& forall|i: int| 0 <= i < bar(f.score).len() ==> #[trigger] bar(f.score)[i] == '█'
        }),
{
}

/// Folders are shown one after the other, each under its rank, with a line between two.
pub proof fn folders_are_shown_in_turn(fs: Seq<FolderView>, f: FolderView)
    ensures
        folder_list_lines(Seq::empty()) == Seq::<Seq<char>>::empty(),
        folder_list_lines(seq![f]) == folder_lines(1, f),
        fs.len() > 0 ==> folder_list_lines(fs.push(f)) == folder_list_lines(fs) + seq![
            "Write-Host \"│\" -ForegroundColor Red"@,
        ] + folder_lines(fs.len() + 1, f),
{
    assert(fs.push(f).drop_last() =~= fs);
    let gap = "Write-Host \"│\" -ForegroundColor Red"@;
    assert(folder_list_lines(fs).push(gap) =~= folder_list_lines(fs) + seq![gap]);
    assert(folder_list_lines(Seq::empty()) =~= Seq::<Seq<char>>::empty());
}

/// The list of the riskiest folders shows the first five, or is left out where there are
/// no findings.
pub proof fn top_folders_are_shown(s: Seq<FindingView>)
    ensures
        s.len() == 0 ==> top_lines(s) == Seq::<Seq<char>>::empty(),
        s.len() > 0 ==> top_lines(s) == texts(FOLDERS_TOP@) + folder_list_lines(top_folders(s))
            + texts(FOLDERS_BOTTOM@),
{
    folders_are_ranked(s);
    groups_hold_each_finding_once(s);
    if s.len() > 0 {
        assert(paths_of(s)[0] == s[0].path);
        assert(path_list(s).contains(s[0].path));
        assert(top_folders(s).len() > 0);
    } else {
        if path_list(s).len() > 0 {
            assert(path_list(s).contains(path_list(s)[0]));
            assert(paths_of(s).contains(path_list(s)[0]));
        }
        assert(top_folders(s).len() == 0);
    }
}

// ---------------------------------------------------------------------------
// Blocks, comments and counts
// ---------------------------------------------------------------------------

/// Each group has its block, under its number and in their order, and adds the number of
/// its findings that do not read the same to the number of actions.
pub proof fn each_group_has_its_block(groups: Seq<GroupView>, g: GroupView)
    ensures
        blocks_lines(Seq::empty()) == Seq::<Seq<char>>::empty(),
        blocks_lines(groups.push(g)) == blocks_lines(groups) + block_lines(
            groups.len() + 1,
            g.path,
            g.findings,
        ),
        action_total(Seq::empty()) == 0,
        action_total(groups.push(g)) == action_total(groups) + unique_findings(g.findings).len(),
{
    assert(groups.push(g).drop_last() =~= groups);
    assert(blocks_lines(Seq::empty()) =~= Seq::<Seq<char>>::empty());
}

/// The block of each group stands in the script, behind those of the groups before.
pub proof fn each_block_is_in_the_script(groups: Seq<GroupView>, i: int)
    requires
        0 <= i < groups.len(),
    ensures
        ({
            let block = block_lines((i + 1) as nat, groups[i].path, groups[i].findings);
            let at = blocks_lines(groups.take(i)).len() as int;
            &&& at + block.len() <= blocks_lines(groups).len()
            &&& blocks_lines(groups).subrange(at, at + block.len()) == block
        }),
    decreases groups.len(),
{
    let block = block_lines((i + 1) as nat, groups[i].path, groups[i].findings);
    let at = blocks_lines(groups.take(i)).len() as int;
    let head = groups.drop_last();
    let all = blocks_lines(groups);
    if i == groups.len() - 1 {
        assert(groups.take(i) =~= head);
        assert(all.subrange(at, at + block.len()) =~= block);
    } else {
        each_block_is_in_the_script(head, i);
        assert(head.take(i) =~= groups.take(i));
        assert(head[i] == groups[i]);
        assert(all.subrange(at, at + block.len()) =~= blocks_lines(head).subrange(
            at,
            at + block.len(),
        ));
    }
}

/// A comment names the number, the severity, the path and the description of a finding,
/// and what to do about it.
pub proof fn comments_tell_of_the_finding(num: nat, f: FindingView, guidance: Seq<char>)
    ensures
        triage_lines(num, f, guidance) == seq![
            PS_DIVIDER@,
            "# INFO (Finding #"@ + decimal(num) + ") — MANUAL TRIAGE REQUIRED ["@
                + f.severity.name_text() + "]"@,
            "# Path:     "@ + f.path + ""@,
            "# Risk:     "@ + truncated(f.description) + ""@,
            "# Guidance: "@ + guidance + ""@,
        ] + texts(TRIAGE_BOTTOM@),
{
}

/// One more finding adds its comment, under its number among all findings, if and only if
/// it cannot be fixed.
pub proof fn each_other_finding_has_its_comment(s: Seq<FindingView>, f: FindingView)
    ensures
        comments_lines(Seq::empty()) == Seq::<Seq<char>>::empty(),
        actionable(f.risk) ==> comments_lines(s.push(f)) == comments_lines(s),
        !actionable(f.risk) ==> guidance_text(f.risk) is Some && comments_lines(s.push(f))
            == comments_lines(s) + triage_lines(s.len() + 1, f, guidance_text(f.risk)->0),
{
    assert(s.push(f).drop_last() =~= s);
    assert(comments_lines(s) + Seq::<Seq<char>>::empty() =~= comments_lines(s));
    assert(comments_lines(Seq::empty()) =~= Seq::<Seq<char>>::empty());
}

// ---------------------------------------------------------------------------
// Sections
// ---------------------------------------------------------------------------

/// The header names the root, the number of findings and of those that can be fixed, the
/// time and the version.
pub proof fn headers_tell_of_the_scan(s: Seq<FindingView>, root: Seq<char>, time: Seq<char>)
    ensures
        header_lines(s, root, time) == texts(HEADER_TOP@) + seq![
            "#  Scan root:        "@ + root + ""@,
            "#  Total findings:   "@ + decimal(s.len()) + ""@,
            "#  Actionable fixes: "@ + decimal(actionable_findings(s).len()) + ""@,
            "#  Generated:        "@ + time + ""@,
            "#  Generator:        FolSec Auditor v"@ + crate::VERSION@ + ""@,
        ] + texts(HEADER_BOTTOM@),
{
    assert(header_lines(s, root, time) =~= texts(HEADER_TOP@) + seq![
        "#  Scan root:        "@ + root + ""@,
        "#  Total findings:   "@ + decimal(s.len()) + ""@,
        "#  Actionable fixes: "@ + decimal(actionable_findings(s).len()) + ""@,
        "#  Generated:        "@ + time + ""@,
        "#  Generator:        FolSec Auditor v"@ + crate::VERSION@ + ""@,
    ] + texts(HEADER_BOTTOM@));
}

/// The banner names the root, the number of findings and of those that can be fixed.
pub proof fn banners_tell_of_the_scan(s: Seq<FindingView>, root: Seq<char>)
    ensures
        banner_lines(root, s) == texts(BANNER_TOP@) + seq![
            "Write-Host \"  Scan Root:        "@ + root + "\" -ForegroundColor Gray"@,
            "Write-Host \"  Total Findings:   "@ + decimal(s.len()) + "\" -ForegroundColor Gray"@,
            "Write-Host \"  Actionable Fixes: "@ + decimal(actionable_findings(s).len())
                + "\" -ForegroundColor Gray"@,
        ] + texts(BANNER_BOTTOM@),
{
    assert(banner_lines(root, s) =~= texts(BANNER_TOP@) + seq![
        "Write-Host \"  Scan Root:        "@ + root + "\" -ForegroundColor Gray"@,
        "Write-Host \"  Total Findings:   "@ + decimal(s.len()) + "\" -ForegroundColor Gray"@,
        "Write-Host \"  Actionable Fixes: "@ + decimal(actionable_findings(s).len())
            + "\" -ForegroundColor Gray"@,
    ] + texts(BANNER_BOTTOM@));
}

/// The footer names the number of actions.
pub proof fn footers_tell_of_the_actions(total: nat)
    ensures
        footer_lines(total) == texts(FOOTER_TOP@) + seq![
            "Write-Host \"  Total actions:    "@ + decimal(total)
                + " (actionable findings)\" -ForegroundColor Gray"@,
        ] + texts(FOOTER_BOTTOM@),
{
    assert(footer_lines(total) =~= texts(FOOTER_TOP@) + seq![
        "Write-Host \"  Total actions:    "@ + decimal(total)
            + " (actionable findings)\" -ForegroundColor Gray"@,
    ] + texts(FOOTER_BOTTOM@));
}

/// The script is a byte order mark and these sections, in this order and all of them,
/// whatever was found.
pub proof fn scripts_have_all_sections(s: Seq<FindingView>, root: Seq<char>, time: Seq<char>)
    ensures
        script_lines(s, root, time) == header_lines(s, root, time) + texts(SAFETY@) + banner_lines(
            root,
            s,
        ) + top_lines(s) + blocks_lines(path_groups(actionable_findings(s))) + comments_lines(s)
            + footer_lines(action_total(path_groups(actionable_findings(s)))),
        script_text(s, root, time) == seq!['\u{FEFF}'] + render(script_lines(s, root, time)),
{
    reveal_strlit("\u{FEFF}");
    assert("\u{FEFF}"@ =~= seq!['\u{FEFF}']);
}

// ---------------------------------------------------------------------------
// Views
// ---------------------------------------------------------------------------

/// What lists of findings, keys, groups and folders are said to hold is what each of
/// their items holds.
pub proof fn list_views_are_faithful(
    refs: Seq<&RiskFinding>,
    keys: Seq<String>,
    groups: Seq<PathGroup>,
    folders: Seq<FolderScore>,
)
    ensures
        ref_views(refs).len() == refs.len(),
        forall|i: int| 0 <= i < refs.len() ==> #[trigger] ref_views(refs)[i] == refs[i]@,
        key_views(keys).len() == keys.len(),
        forall|i: int| 0 <= i < keys.len() ==> #[trigger] key_views(keys)[i] == keys[i]@,
        group_views(groups).len() == groups.len(),
        forall|i: int|
            0 <= i < groups.len() ==> #[trigger] group_views(groups)[i] == (GroupView {
                path: groups[i].path@,
                findings: ref_views(groups[i].findings@),
            }),
        folder_views(folders).len() == folders.len(),
        forall|i: int|
            0 <= i < folders.len() ==> #[trigger] folder_views(folders)[i] == (FolderView {
                path: folders[i].path@,
                score: folders[i].score as nat,
                count: folders[i].count as nat,
            }),
{
}

} // verus!
