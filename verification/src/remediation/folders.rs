//! Folders: the findings of each path, and the paths that are at most risk.

use super::findings::{points, ref_views, severity_points};
use crate::order::{
    in_order, is_before, is_sorted_from, same_rank, sort, text_before, text_order_total,
    text_order_transitive, Ranked,
};
use crate::scanner::risk::{FindingView, RiskFinding};
use crate::text::same_text;
use vstd::prelude::*;

verus! {

// ---------------------------------------------------------------------------
// Lists in a total order
// ---------------------------------------------------------------------------

/// An order of texts.
pub type TextOrder = spec_fn(Seq<char>, Seq<char>) -> bool;

/// Whether any two different texts stand in one order.
pub open spec fn is_total(before: TextOrder) -> bool {
    &&& forall|a: Seq<char>, b: Seq<char>| #[trigger] before(a, b) ==> !before(b, a)
    &&& forall|a: Seq<char>, b: Seq<char>| #[trigger] before(a, b) || before(b, a) || a == b
    &&& forall|a: Seq<char>, b: Seq<char>, c: Seq<char>| #[trigger]
        before(a, b) && #[trigger] before(b, c) ==> before(a, c)
}

/// Whether a list is in order and holds nothing twice.
pub open spec fn ascending(list: Seq<Seq<char>>, before: TextOrder) -> bool {
    forall|i: int, j: int|
        0 <= i < j < list.len() ==> before(#[trigger] list[i], #[trigger] list[j])
}

/// The list with `x` in its place, unless it is there already.
pub open spec fn inserted(list: Seq<Seq<char>>, x: Seq<char>, before: TextOrder) -> Seq<Seq<char>>
    decreases list.len(),
{
    if list.len() == 0 {
        seq![x]
    } else if list.last() == x {
        list
    } else if before(list.last(), x) {
        list.push(x)
    } else {
        inserted(list.drop_last(), x, before).push(list.last())
    }
}

/// The texts in order, each of them once.
pub open spec fn arranged(items: Seq<Seq<char>>, before: TextOrder) -> Seq<Seq<char>>
    decreases items.len(),
{
    if items.len() == 0 {
        Seq::empty()
    } else {
        inserted(arranged(items.drop_last(), before), items.last(), before)
    }
}

proof fn lemma_inserted(list: Seq<Seq<char>>, x: Seq<char>, before: TextOrder)
    requires
        is_total(before),
        ascending(list, before),
    ensures
        ascending(inserted(list, x, before), before),
        forall|y: Seq<char>| #[trigger]
            inserted(list, x, before).contains(y) <==> list.contains(y) || y == x,
    decreases list.len(),
{
    let r = inserted(list, x, before);
    if list.len() == 0 {
        assert(r[0] == x);
    } else if list.last() == x {
        assert(list[list.len() - 1] == x);
    } else if before(list.last(), x) {
        assert forall|i: int, j: int| 0 <= i < j < r.len() implies before(
            #[trigger] r[i],
            #[trigger] r[j],
        ) by {
            if j == list.len() && i < list.len() - 1 {
                assert(before(list[i], list[list.len() - 1]));
            }
        }
        assert forall|y: Seq<char>| #[trigger] r.contains(y) <==> list.contains(y) || y == x by {
            if list.contains(y) {
                let i = choose|i: int| 0 <= i < list.len() && list[i] == y;
                assert(r[i] == y);
            }
            assert(r[list.len() as int] == x);
        }
    } else {
        let head = list.drop_last();
        let last = list.last();
        let h = inserted(head, x, before);
        lemma_inserted(head, x, before);
        assert(before(x, last));
        assert forall|i: int, j: int| 0 <= i < j < r.len() implies before(
            #[trigger] r[i],
            #[trigger] r[j],
        ) by {
            if j == h.len() {
                assert(h.contains(h[i]));
                if h[i] != x {
                    let m = choose|m: int| 0 <= m < head.len() && head[m] == h[i];
                    assert(list[m] == h[i]);
                    assert(before(list[m], list[list.len() - 1]));
                }
            }
        }
        assert forall|y: Seq<char>| #[trigger] r.contains(y) <==> list.contains(y) || y == x by {
            assert(h.contains(y) <==> head.contains(y) || y == x);
            if list.contains(y) {
                let i = choose|i: int| 0 <= i < list.len() && list[i] == y;
                if i < head.len() {
                    assert(head[i] == y);
                    let m = choose|m: int| 0 <= m < h.len() && h[m] == y;
                    assert(r[m] == y);
                } else {
                    assert(r[h.len() as int] == y);
                }
            }
            if y == x {
                let m = choose|m: int| 0 <= m < h.len() && h[m] == y;
                assert(r[m] == y);
            }
            if r.contains(y) {
                let m = choose|m: int| 0 <= m < r.len() && r[m] == y;
                if m < h.len() {
                    assert(h[m] == y);
                    if head.contains(y) {
                        let i = choose|i: int| 0 <= i < head.len() && head[i] == y;
                        assert(list[i] == y);
                    }
                } else {
                    assert(list[list.len() - 1] == y);
                }
            }
        }
    }
}

/// The texts in order hold just these texts.
pub proof fn arranged_holds_its_items(items: Seq<Seq<char>>, before: TextOrder)
    requires
        is_total(before),
    ensures
        ascending(arranged(items, before), before),
        forall|y: Seq<char>| #[trigger] arranged(items, before).contains(y) <==> items.contains(y),
    decreases items.len(),
{
    if items.len() > 0 {
        let head = items.drop_last();
        arranged_holds_its_items(head, before);
        lemma_inserted(arranged(head, before), items.last(), before);
        assert forall|y: Seq<char>| #[trigger]
            arranged(items, before).contains(y) <==> items.contains(y) by {
            assert(arranged(head, before).contains(y) <==> head.contains(y));
            if items.contains(y) {
                let i = choose|i: int| 0 <= i < items.len() && items[i] == y;
                if i < head.len() {
                    assert(head[i] == y);
                }
            }
            if head.contains(y) {
                let i = choose|i: int| 0 <= i < head.len() && head[i] == y;
                assert(items[i] == y);
            }
            assert(items[items.len() - 1] == items.last());
        }
    }
}

/// Two lists in order that hold the same texts are equal.
pub proof fn ascending_is_unique(a: Seq<Seq<char>>, b: Seq<Seq<char>>, before: TextOrder)
    requires
        is_total(before),
        ascending(a, before),
        ascending(b, before),
        forall|y: Seq<char>| #[trigger] a.contains(y) <==> b.contains(y),
    ensures
        a == b,
    decreases a.len(),
{
    if a.len() == 0 {
        if b.len() > 0 {
            assert(b.contains(b[0]));
            assert(a.contains(b[0]));
        }
        assert(a =~= b);
    } else {
        assert(a.contains(a[a.len() - 1]));
        assert(b.contains(a.last()));
        let n = choose|n: int| 0 <= n < b.len() && b[n] == a.last();
        assert(b.contains(b[b.len() - 1]));
        assert(a.contains(b.last()));
        let m = choose|m: int| 0 <= m < a.len() && a[m] == b.last();
        if n < b.len() - 1 {
            assert(before(b[n], b[b.len() - 1]));
            if m < a.len() - 1 {
                assert(before(a[m], a[a.len() - 1]));
            }
            assert(false);
        }
        let a0 = a.drop_last();
        let b0 = b.drop_last();
        assert forall|y: Seq<char>| #[trigger] a0.contains(y) <==> b0.contains(y) by {
            assert(a.contains(y) <==> b.contains(y));
            if a0.contains(y) {
                let i = choose|i: int| 0 <= i < a0.len() && a0[i] == y;
                assert(a[i] == y);
                assert(before(a[i], a[a.len() - 1]));
                let j = choose|j: int| 0 <= j < b.len() && b[j] == y;
                assert(j < b.len() - 1);
                assert(b0[j] == y);
            }
            if b0.contains(y) {
                let j = choose|j: int| 0 <= j < b0.len() && b0[j] == y;
                assert(b[j] == y);
                assert(before(b[j], b[b.len() - 1]));
                let i = choose|i: int| 0 <= i < a.len() && a[i] == y;
                assert(i < a.len() - 1);
                assert(a0[i] == y);
            }
        }
        ascending_is_unique(a0, b0, before);
        assert(a =~= a0.push(a.last()));
        assert(b =~= b0.push(b.last()));
    }
}

// ---------------------------------------------------------------------------
// The findings of each path
// ---------------------------------------------------------------------------

/// The paths of findings.
pub open spec fn paths_of(s: Seq<FindingView>) -> Seq<Seq<char>> {
    s.map_values(|f: FindingView| f.path)
}

/// The order of code points.
pub open spec fn alphabetical() -> TextOrder {
    |a: Seq<char>, b: Seq<char>| text_before(a, b)
}

/// The paths of findings in order, each of them once.
pub open spec fn path_list(s: Seq<FindingView>) -> Seq<Seq<char>> {
    arranged(paths_of(s), alphabetical())
}

/// The findings on one path.
pub open spec fn on_path(s: Seq<FindingView>, path: Seq<char>) -> Seq<FindingView>
    decreases s.len(),
{
    if s.len() == 0 {
        Seq::empty()
    } else if s.last().path == path {
        on_path(s.drop_last(), path).push(s.last())
    } else {
        on_path(s.drop_last(), path)
    }
}

/// A path and the findings on it.
pub struct GroupView {
    pub path: Seq<char>,
    pub findings: Seq<FindingView>,
}

/// The paths of findings in order, each with the findings on it.
pub open spec fn path_groups(s: Seq<FindingView>) -> Seq<GroupView> {
    path_list(s).map_values(|p: Seq<char>| GroupView { path: p, findings: on_path(s, p) })
}

/// The order of code points is total.
pub proof fn alphabetical_is_total()
    ensures
        is_total(alphabetical()),
{
    let before = alphabetical();
    assert forall|a: Seq<char>, b: Seq<char>| #[trigger] before(a, b) implies !before(b, a) by {
        text_order_total(a, b);
    }
    assert forall|a: Seq<char>, b: Seq<char>| #[trigger]
        before(a, b) || before(b, a) || a == b by {
        text_order_total(a, b);
    }
    assert forall|a: Seq<char>, b: Seq<char>, c: Seq<char>| #[trigger]
        before(a, b) && #[trigger] before(b, c) implies before(a, c) by {
        text_order_transitive(a, b, c);
    }
}

proof fn lemma_on_path_adds(a: Seq<FindingView>, b: Seq<FindingView>, path: Seq<char>)
    ensures
        on_path(a + b, path) == on_path(a, path) + on_path(b, path),
    decreases b.len(),
{
    if b.len() == 0 {
        assert(a + b =~= a);
        assert(on_path(a, path) + on_path(b, path) =~= on_path(a, path));
    } else {
        assert((a + b).drop_last() =~= a + b.drop_last());
        lemma_on_path_adds(a, b.drop_last(), path);
        assert(on_path(a + b, path) =~= on_path(a, path) + on_path(b, path));
    }
}

proof fn lemma_on_one_path(s: Seq<FindingView>, path: Seq<char>)
    ensures
        (forall|k: int| 0 <= k < s.len() ==> (#[trigger] s[k]).path == path) ==> on_path(s, path)
            == s,
        (forall|k: int| 0 <= k < s.len() ==> (#[trigger] s[k]).path != path) ==> on_path(s, path)
            == Seq::<FindingView>::empty(),
    decreases s.len(),
{
    if s.len() > 0 {
        lemma_on_one_path(s.drop_last(), path);
        assert(s.last() == s[s.len() - 1]);
        assert forall|k: int| 0 <= k < s.drop_last().len() implies #[trigger] s.drop_last()[k]
            == s[k] by {}
        if forall|k: int| 0 <= k < s.len() ==> (#[trigger] s[k]).path == path {
            assert(on_path(s, path) =~= s);
        }
    } else {
        assert(on_path(s, path) =~= s);
    }
}

/// A finding in the order of paths.
struct ByPath<'a> {
    finding: &'a RiskFinding,
}

impl<'a> Ranked for ByPath<'a> {
    closed spec fn precedes(self, other: Self) -> bool {
        text_before(self.finding@.path, other.finding@.path)
    }

    proof fn order_laws(a: Self, b: Self, c: Self) {
        let (x, y, z) = (a.finding@.path, b.finding@.path, c.finding@.path);
        text_order_total(x, y);
        text_order_total(y, z);
        text_order_total(x, z);
        if text_before(x, y) && text_before(y, z) {
            text_order_transitive(x, y, z);
        }
        if text_before(x, z) && !text_before(x, y) && !text_before(y, z) {
            if text_before(y, x) {
                text_order_transitive(y, x, z);
            }
        }
    }

    fn comes_first(&self, other: &Self) -> (r: bool) {
        is_before(self.finding.path.as_str(), other.finding.path.as_str())
    }
}

spec fn sortable_views(s: Seq<ByPath>) -> Seq<FindingView> {
    s.map_values(|x: ByPath| x.finding@)
}

proof fn lemma_rank_is_path(s: Seq<ByPath>, x: ByPath)
    ensures
        sortable_views(s.filter(same_rank(x))) == on_path(sortable_views(s), x.finding@.path),
    decreases s.len(),
{
    reveal(Seq::filter);
    if s.len() > 0 {
        lemma_rank_is_path(s.drop_last(), x);
        text_order_total(x.finding@.path, s.last().finding@.path);
        assert(sortable_views(s).drop_last() =~= sortable_views(s.drop_last()));
    }
    assert(sortable_views(s.filter(same_rank(x))) =~= on_path(
        sortable_views(s),
        x.finding@.path,
    ));
}

/// A path and the findings on it.
pub struct PathGroup<'a> {
    pub path: &'a str,
    pub findings: Vec<&'a RiskFinding>,
}

impl<'a> View for PathGroup<'a> {
    type V = GroupView;

    open spec fn view(&self) -> GroupView {
        GroupView { path: self.path@, findings: ref_views(self.findings@) }
    }
}

/// What a list of groups holds.
pub open spec fn group_views(s: Seq<PathGroup>) -> Seq<GroupView> {
    s.map_values(|g: PathGroup| g@)
}

spec fn group_paths(s: Seq<GroupView>) -> Seq<Seq<char>> {
    s.map_values(|g: GroupView| g.path)
}

/// The groups of a list that is in the order of paths.
fn split_by_path<'a>(sorted: &Vec<ByPath<'a>>) -> (r: Vec<PathGroup<'a>>)
    requires
        in_order(sorted@),
    ensures
        group_views(r@) == path_groups(sortable_views(sorted@)),
{
    let ghost s = sortable_views(sorted@);
    let ghost before = alphabetical();
    let mut groups: Vec<PathGroup<'a>> = Vec::new();
    let mut start: usize = 0;
    while start < sorted.len()
        invariant
            in_order(sorted@),
            s == sortable_views(sorted@),
            before == alphabetical(),
            start <= sorted@.len(),
            start < sorted@.len() ==> forall|i: int|
                0 <= i < groups@.len() ==> before((#[trigger] groups@[i])@.path, s[start as int].path),
            ascending(group_paths(group_views(groups@)), before),
            forall|i: int|
                0 <= i < groups@.len() ==> (#[trigger] groups@[i])@.findings == on_path(
                    s.take(start as int),
                    groups@[i]@.path,
                ),
            forall|y: Seq<char>| #[trigger]
                group_paths(group_views(groups@)).contains(y) <==> paths_of(
                    s.take(start as int),
                ).contains(y),
        decreases sorted@.len() - start,
    {
        let path: &'a str = sorted[start].finding.path.as_str();
        let mut items: Vec<&'a RiskFinding> = Vec::new();
        let mut end: usize = start;
        while end < sorted.len() && same_text(sorted[end].finding.path.as_str(), path)
            invariant
                s == sortable_views(sorted@),
                start <= end <= sorted@.len(),
                start < sorted@.len(),
                path@ == s[start as int].path,
                ref_views(items@) =~= s.subrange(start as int, end as int),
                forall|k: int| start <= k < end ==> (#[trigger] s[k]).path == path@,
            ensures
                end < sorted@.len() ==> s[end as int].path != path@,
                end > start,
            decreases sorted@.len() - end,
        {
            let ghost old_items = items@;
            items.push(sorted[end].finding);
            assert(ref_views(items@) =~= ref_views(old_items).push(s[end as int]));
            assert(s.subrange(start as int, end + 1) =~= s.subrange(start as int, end as int).push(
                s[end as int],
            ));
            end += 1;
        }
        let ghost old_groups = groups@;
        let ghost part = s.subrange(start as int, end as int);
        groups.push(PathGroup { path, findings: items });
        proof {
            alphabetical_is_total();
            let head = s.take(start as int);
            let whole = s.take(end as int);
            let last = groups@.len() - 1;
            assert(whole =~= head + part);
            let old_paths = group_paths(group_views(old_groups));
            let paths = group_paths(group_views(groups@));
            assert(paths =~= old_paths.push(path@));
            assert forall|i: int| 0 <= i < old_groups.len() implies before(
                #[trigger] old_paths[i],
                path@,
            ) by {
                assert(old_groups[i]@.path == old_paths[i]);
            }
            assert(ascending(paths, before));
            // No finding that came before is on this path.
            assert forall|k: int| 0 <= k < head.len() implies (#[trigger] head[k]).path
                != path@ by {
                assert(paths_of(head)[k] == head[k].path);
                assert(paths_of(head).contains(head[k].path));
                assert(old_paths.contains(head[k].path));
                let i = choose|i: int| 0 <= i < old_paths.len() && old_paths[i] == head[k].path;
                assert(before(old_paths[i], path@));
            }
            lemma_on_one_path(head, path@);
            lemma_on_one_path(part, path@);
            lemma_on_path_adds(head, part, path@);
            assert(on_path(whole, path@) =~= part);
            assert forall|i: int| 0 <= i < groups@.len() implies (#[trigger] groups@[i])@.findings
                == on_path(whole, groups@[i]@.path) by {
                if i < last {
                    assert(groups@[i] == old_groups[i]);
                    let p = old_groups[i]@.path;
                    assert(before(old_paths[i], path@));
                    lemma_on_path_adds(head, part, p);
                    lemma_on_one_path(part, p);
                    assert(on_path(whole, p) =~= on_path(head, p));
                }
            }
            assert forall|y: Seq<char>| #[trigger] paths.contains(y) <==> paths_of(
                whole,
            ).contains(y) by {
                assert(old_paths.contains(y) <==> paths_of(head).contains(y));
                if paths.contains(y) {
                    let i = choose|i: int| 0 <= i < paths.len() && paths[i] == y;
                    if i < old_paths.len() {
                        assert(old_paths[i] == y);
                        let k = choose|k: int| 0 <= k < head.len() && paths_of(head)[k] == y;
                        assert(paths_of(whole)[k] == y);
                    } else {
                        assert(paths_of(whole)[start as int] == y);
                    }
                }
                if paths_of(whole).contains(y) {
                    let k = choose|k: int| 0 <= k < whole.len() && paths_of(whole)[k] == y;
                    if k < start {
                        assert(paths_of(head)[k] == y);
                        let i = choose|i: int| 0 <= i < old_paths.len() && old_paths[i] == y;
                        assert(paths[i] == y);
                    } else {
                        assert(paths[paths.len() - 1] == path@);
                        assert(s[k].path == path@);
                    }
                }
            }
            if end < sorted@.len() {
                assert(!sorted@[end as int].precedes(sorted@[start as int]));
                text_order_total(path@, s[end as int].path);
                assert forall|i: int| 0 <= i < groups@.len() implies before(
                    (#[trigger] groups@[i])@.path,
                    s[end as int].path,
                ) by {
                    if i < last {
                        assert(groups@[i] == old_groups[i]);
                        assert(before(old_paths[i], path@));
                        assert(before(path@, s[end as int].path));
                    }
                }
            }
        }
        start = end;
    }
    proof {
        alphabetical_is_total();
        assert(s.take(start as int) =~= s);
        let paths = group_paths(group_views(groups@));
        arranged_holds_its_items(paths_of(s), before);
        assert forall|y: Seq<char>| #[trigger] paths.contains(y) <==> path_list(s).contains(y) by {
            assert(paths.contains(y) <==> paths_of(s).contains(y));
        }
        ascending_is_unique(paths, path_list(s), before);
        assert forall|i: int| 0 <= i < groups@.len() implies #[trigger] group_views(groups@)[i]
            == path_groups(s)[i] by {
            assert(paths[i] == groups@[i]@.path);
        }
        assert(group_views(groups@) =~= path_groups(s));
    }
    groups
}

/// Puts the findings of each path together, in the order of paths.
pub fn group_by_path<'a>(findings: &Vec<&'a RiskFinding>) -> (r: Vec<PathGroup<'a>>)
    ensures
        group_views(r@) == path_groups(ref_views(findings@)),
{
    let mut items: Vec<ByPath<'a>> = Vec::new();
    let mut k: usize = 0;
    while k < findings.len()
        invariant
            k <= findings@.len(),
            items@.len() == k,
            forall|i: int| 0 <= i < k ==> (#[trigger] items@[i]).finding == findings@[i],
        decreases findings@.len() - k,
    {
        items.push(ByPath { finding: findings[k] });
        k += 1;
    }
    let ghost unsorted = items@;
    let sorted = sort(items);
    let r = split_by_path(&sorted);
    proof {
        let s = ref_views(findings@);
        assert(sortable_views(unsorted) =~= s);
        lemma_sorted_groups(unsorted, sorted@);
    }
    r
}

/// Sorting by path changes nothing about the findings of each path.
proof fn lemma_sorted_groups(unsorted: Seq<ByPath>, sorted: Seq<ByPath>)
    requires
        is_sorted_from(unsorted, sorted),
    ensures
        path_groups(sortable_views(sorted)) == path_groups(sortable_views(unsorted)),
{
    let a = sortable_views(unsorted);
    let b = sortable_views(sorted);
    let before = alphabetical();
    alphabetical_is_total();
    arranged_holds_its_items(paths_of(a), before);
    arranged_holds_its_items(paths_of(b), before);
    unsorted.to_multiset_ensures();
    sorted.to_multiset_ensures();
    assert forall|y: Seq<char>| #[trigger] path_list(a).contains(y) <==> path_list(b).contains(
        y,
    ) by {
        assert(path_list(a).contains(y) <==> paths_of(a).contains(y));
        assert(path_list(b).contains(y) <==> paths_of(b).contains(y));
        if paths_of(a).contains(y) {
            let i = choose|i: int| 0 <= i < a.len() && paths_of(a)[i] == y;
            assert(unsorted.contains(unsorted[i]));
            assert(sorted.to_multiset().count(unsorted[i]) > 0);
            assert(sorted.contains(unsorted[i]));
            let j = choose|j: int| 0 <= j < sorted.len() && sorted[j] == unsorted[i];
            assert(paths_of(b)[j] == y);
        }
        if paths_of(b).contains(y) {
            let j = choose|j: int| 0 <= j < b.len() && paths_of(b)[j] == y;
            assert(sorted.contains(sorted[j]));
            assert(unsorted.to_multiset().count(sorted[j]) > 0);
            assert(unsorted.contains(sorted[j]));
            let i = choose|i: int| 0 <= i < unsorted.len() && unsorted[i] == sorted[j];
            assert(paths_of(a)[i] == y);
        }
    }
    ascending_is_unique(path_list(a), path_list(b), before);
    assert forall|k: int| 0 <= k < path_list(a).len() implies #[trigger] path_groups(a)[k]
        == path_groups(b)[k] by {
        let p = path_list(a)[k];
        assert(path_list(a).contains(p));
        assert(paths_of(a).contains(p));
        let i = choose|i: int| 0 <= i < a.len() && paths_of(a)[i] == p;
        let x = unsorted[i];
        assert(sorted.filter(same_rank(x)) == unsorted.filter(same_rank(x)));
        lemma_rank_is_path(unsorted, x);
        lemma_rank_is_path(sorted, x);
        assert(x.finding@.path == p);
    }
    assert(path_groups(a) =~= path_groups(b));
}

/// How many findings the groups hold.
pub open spec fn total_size(groups: Seq<GroupView>) -> nat
    decreases groups.len(),
{
    if groups.len() == 0 {
        0
    } else {
        total_size(groups.drop_last()) + groups.last().findings.len()
    }
}

/// How many findings are on the paths of a list.
spec fn size_on(s: Seq<FindingView>, list: Seq<Seq<char>>) -> nat
    decreases list.len(),
{
    if list.len() == 0 {
        0
    } else {
        size_on(s, list.drop_last()) + on_path(s, list.last()).len()
    }
}

proof fn lemma_size_on_adds(s: Seq<FindingView>, f: FindingView, list: Seq<Seq<char>>)
    requires
        list.no_duplicates(),
    ensures
        size_on(s.push(f), list) == size_on(s, list) + if list.contains(f.path) {
            1nat
        } else {
            0
        },
    decreases list.len(),
{
    if list.len() > 0 {
        let head = list.drop_last();
        lemma_size_on_adds(s, f, head);
        assert(s.push(f).drop_last() =~= s);
        if list.last() == f.path {
            assert(list[list.len() - 1] == f.path);
            if head.contains(f.path) {
                let i = choose|i: int| 0 <= i < head.len() && head[i] == f.path;
                assert(list[i] == list[list.len() - 1]);
            }
        } else {
            if head.contains(f.path) {
                let i = choose|i: int| 0 <= i < head.len() && head[i] == f.path;
                assert(list[i] == f.path);
            }
            if list.contains(f.path) {
                let i = choose|i: int| 0 <= i < list.len() && list[i] == f.path;
                assert(head[i] == f.path);
            }
        }
    }
}

proof fn lemma_size_on(s: Seq<FindingView>, list: Seq<Seq<char>>)
    requires
        list.no_duplicates(),
        forall|k: int| 0 <= k < s.len() ==> list.contains((#[trigger] s[k]).path),
    ensures
        size_on(s, list) == s.len(),
    decreases s.len(),
{
    if s.len() > 0 {
        let head = s.drop_last();
        assert forall|k: int| 0 <= k < head.len() implies list.contains(
            (#[trigger] head[k]).path,
        ) by {
            assert(head[k] == s[k]);
        }
        lemma_size_on(head, list);
        lemma_size_on_adds(head, s.last(), list);
        assert(s[s.len() - 1] == s.last());
        assert(head.push(s.last()) =~= s);
    } else {
        lemma_size_on_nothing(s, list);
    }
}

proof fn lemma_size_on_nothing(s: Seq<FindingView>, list: Seq<Seq<char>>)
    requires
        s.len() == 0,
    ensures
        size_on(s, list) == 0,
    decreases list.len(),
{
    if list.len() > 0 {
        lemma_size_on_nothing(s, list.drop_last());
    }
}

proof fn lemma_total_size(s: Seq<FindingView>, list: Seq<Seq<char>>)
    ensures
        total_size(
            list.map_values(|p: Seq<char>| GroupView { path: p, findings: on_path(s, p) }),
        ) == size_on(s, list),
    decreases list.len(),
{
    let groups = list.map_values(
        |p: Seq<char>| GroupView { path: p, findings: on_path(s, p) },
    );
    if list.len() > 0 {
        lemma_total_size(s, list.drop_last());
        assert(groups.drop_last() =~= list.drop_last().map_values(
            |p: Seq<char>| GroupView { path: p, findings: on_path(s, p) },
        ));
    }
}

/// Each finding stands in one group, and in no other: the paths are in order,
/// none of them occurs twice, and the groups together hold as many findings as
/// there are.
pub proof fn groups_hold_each_finding_once(s: Seq<FindingView>)
    ensures
        ascending(path_list(s), alphabetical()),
        forall|p: Seq<char>| #[trigger] path_list(s).contains(p) <==> paths_of(s).contains(p),
        total_size(path_groups(s)) == s.len(),
{
    let list = path_list(s);
    alphabetical_is_total();
    arranged_holds_its_items(paths_of(s), alphabetical());
    assert(list.no_duplicates()) by {
        assert forall|i: int, j: int| 0 <= i < list.len() && 0 <= j < list.len() && i
            != j implies list[i] != list[j] by {
            if i < j {
                assert(alphabetical()(list[i], list[j]));
            } else {
                assert(alphabetical()(list[j], list[i]));
            }
        }
    }
    assert forall|k: int| 0 <= k < s.len() implies list.contains((#[trigger] s[k]).path) by {
        assert(paths_of(s)[k] == s[k].path);
    }
    lemma_size_on(s, list);
    lemma_total_size(s, list);
}

// ---------------------------------------------------------------------------
// The riskiest folders
// ---------------------------------------------------------------------------

/// How many folders the script lists.
pub const TOP_FOLDERS: usize = 5;

/// What the severities of findings weigh together.
pub open spec fn total_points(s: Seq<FindingView>) -> nat
    decreases s.len(),
{
    if s.len() == 0 {
        0
    } else {
        total_points(s.drop_last()) + points(s.last().severity)
    }
}

/// What the findings on a path weigh together.
pub open spec fn path_score(s: Seq<FindingView>, path: Seq<char>) -> nat {
    total_points(on_path(s, path))
}

/// The higher score first, and of two equal scores the path that is first in
/// order.
pub open spec fn riskier(s: Seq<FindingView>) -> TextOrder {
    |a: Seq<char>, b: Seq<char>|
        path_score(s, a) > path_score(s, b) || (path_score(s, a) == path_score(s, b)
            && text_before(a, b))
}

/// A folder, its score and the number of its findings.
pub struct FolderView {
    pub path: Seq<char>,
    pub score: nat,
    pub count: nat,
}

/// The folders with findings, the riskiest first.
pub open spec fn ranked_folders(s: Seq<FindingView>) -> Seq<FolderView> {
    arranged(paths_of(s), riskier(s)).map_values(
        |p: Seq<char>|
            FolderView { path: p, score: path_score(s, p), count: on_path(s, p).len() },
    )
}

/// The folders that the script lists.
pub open spec fn top_folders(s: Seq<FindingView>) -> Seq<FolderView> {
    let all = ranked_folders(s);
    if all.len() <= TOP_FOLDERS {
        all
    } else {
        all.take(TOP_FOLDERS as int)
    }
}

/// A folder, its score and the number of its findings.
pub struct FolderScore<'a> {
    pub path: &'a str,
    pub score: u128,
    pub count: usize,
}

impl<'a> View for FolderScore<'a> {
    type V = FolderView;

    open spec fn view(&self) -> FolderView {
        FolderView { path: self.path@, score: self.score as nat, count: self.count as nat }
    }
}

/// What a list of folders holds.
pub open spec fn folder_views(s: Seq<FolderScore>) -> Seq<FolderView> {
    s.map_values(|f: FolderScore| f@)
}

impl<'a> Ranked for FolderScore<'a> {
    open spec fn precedes(self, other: Self) -> bool {
        self.score > other.score || (self.score == other.score && text_before(
            self.path@,
            other.path@,
        ))
    }

    proof fn order_laws(a: Self, b: Self, c: Self) {
        text_order_total(a.path@, b.path@);
        text_order_total(b.path@, c.path@);
        text_order_total(a.path@, c.path@);
        if text_before(a.path@, b.path@) && text_before(b.path@, c.path@) {
            text_order_transitive(a.path@, b.path@, c.path@);
        }
        if text_before(b.path@, a.path@) && text_before(a.path@, c.path@) {
            text_order_transitive(b.path@, a.path@, c.path@);
        }
    }

    fn comes_first(&self, other: &Self) -> (r: bool) {
        self.score > other.score || (self.score == other.score && is_before(self.path, other.path))
    }
}

/// The order of risk is total.
pub proof fn riskier_is_total(s: Seq<FindingView>)
    ensures
        is_total(riskier(s)),
{
    let before = riskier(s);
    assert forall|a: Seq<char>, b: Seq<char>| #[trigger] before(a, b) implies !before(b, a) by {
        text_order_total(a, b);
    }
    assert forall|a: Seq<char>, b: Seq<char>| #[trigger]
        before(a, b) || before(b, a) || a == b by {
        text_order_total(a, b);
    }
    assert forall|a: Seq<char>, b: Seq<char>, c: Seq<char>| #[trigger]
        before(a, b) && #[trigger] before(b, c) implies before(a, c) by {
        if text_before(a, b) && text_before(b, c) {
            text_order_transitive(a, b, c);
        }
    }
}

/// What some findings weigh together.
fn score_of(findings: &Vec<&RiskFinding>) -> (r: u128)
    ensures
        r == total_points(ref_views(findings@)),
{
    let ghost s = ref_views(findings@);
    let mut total: u128 = 0;
    let mut k: usize = 0;
    while k < findings.len()
        invariant
            k <= findings@.len(),
            s == ref_views(findings@),
            total == total_points(s.take(k as int)),
            total <= 10 * k,
        decreases findings@.len() - k,
    {
        assert(s.take(k + 1).drop_last() =~= s.take(k as int));
        total += severity_points(&findings[k].severity) as u128;
        k += 1;
    }
    assert(s.take(k as int) =~= s);
    total
}

/// Lists the folders with findings, the riskiest first.
pub fn rank_folders<'a>(findings: &Vec<&'a RiskFinding>) -> (r: Vec<FolderScore<'a>>)
    ensures
        folder_views(r@) == ranked_folders(ref_views(findings@)),
{
    let ghost s = ref_views(findings@);
    let groups = group_by_path(findings);
    let mut scores: Vec<FolderScore<'a>> = Vec::new();
    let mut k: usize = 0;
    while k < groups.len()
        invariant
            k <= groups@.len(),
            group_views(groups@) == path_groups(s),
            scores@.len() == k,
            forall|i: int|
                0 <= i < k ==> {
                    let p = path_list(s)[i];
                    (#[trigger] scores@[i])@ == (FolderView {
                        path: p,
                        score: path_score(s, p),
                        count: on_path(s, p).len(),
                    })
                },
        decreases groups@.len() - k,
    {
        let group = &groups[k];
        assert(group@ == group_views(groups@)[k as int]);
        assert(group@ == path_groups(s)[k as int]);
        let score: u128 = score_of(&group.findings);
        proof {
            let p = path_list(s)[k as int];
            assert(group_views(groups@).len() == path_groups(s).len());
            assert(k < path_list(s).len());
            assert(group@.path == p);
            assert(group@.findings == on_path(s, p));
            assert(group.findings@.len() == ref_views(group.findings@).len());
        }
        scores.push(FolderScore { path: group.path, score, count: group.findings.len() });
        k += 1;
    }
    assert(path_list(s).len() == k) by {
        assert(group_views(groups@).len() == path_groups(s).len());
    }
    let ghost unsorted = scores@;
    let sorted = sort(scores);
    proof {
        lemma_ranked(s, unsorted, sorted@);
    }
    sorted
}

proof fn lemma_ranked(s: Seq<FindingView>, unsorted: Seq<FolderScore>, sorted: Seq<FolderScore>)
    requires
        is_sorted_from(unsorted, sorted),
        unsorted.len() == path_list(s).len(),
        forall|i: int|
            0 <= i < unsorted.len() ==> {
                let p = path_list(s)[i];
                (#[trigger] unsorted[i])@ == (FolderView {
                    path: p,
                    score: path_score(s, p),
                    count: on_path(s, p).len(),
                })
            },
    ensures
        folder_views(sorted) == ranked_folders(s),
{
    let before = riskier(s);
    let list = path_list(s);
    alphabetical_is_total();
    riskier_is_total(s);
    arranged_holds_its_items(paths_of(s), alphabetical());
    arranged_holds_its_items(paths_of(s), before);
    unsorted.to_multiset_ensures();
    sorted.to_multiset_ensures();
    let paths = sorted.map_values(|f: FolderScore| f.path@);
    // What is sorted is one of the scores.
    assert forall|i: int| 0 <= i < sorted.len() implies {
        let p = (#[trigger] sorted[i]).path@;
        &&& list.contains(p)
        &&& sorted[i]@ == (FolderView {
            path: p,
            score: path_score(s, p),
            count: on_path(s, p).len(),
        })
        &&& exists|m: int| 0 <= m < unsorted.len() && #[trigger] unsorted[m] == sorted[i]
    } by {
        assert(sorted.contains(sorted[i]));
        assert(unsorted.to_multiset().count(sorted[i]) > 0);
        assert(unsorted.contains(sorted[i]));
        let m = choose|m: int| 0 <= m < unsorted.len() && unsorted[m] == sorted[i];
        assert(unsorted[m]@.path == list[m]);
    }
    // No folder stands twice.
    assert(unsorted.no_duplicates()) by {
        assert forall|i: int, j: int| 0 <= i < unsorted.len() && 0 <= j < unsorted.len() && i
            != j implies unsorted[i] != unsorted[j] by {
            assert(unsorted[i]@.path == list[i]);
            assert(unsorted[j]@.path == list[j]);
            if i < j {
                assert(alphabetical()(list[i], list[j]));
            } else {
                assert(alphabetical()(list[j], list[i]));
            }
        }
    }
    unsorted.lemma_multiset_has_no_duplicates();
    sorted.lemma_multiset_has_no_duplicates_conv();
    assert forall|i: int, j: int| 0 <= i < j < paths.len() implies before(
        #[trigger] paths[i],
        #[trigger] paths[j],
    ) by {
        let x = sorted[i];
        let y = sorted[j];
        assert(!y.precedes(x));
        let m = choose|m: int| 0 <= m < unsorted.len() && #[trigger] unsorted[m] == x;
        let n = choose|n: int| 0 <= n < unsorted.len() && #[trigger] unsorted[n] == y;
        assert(x != y);
        assert(unsorted[m]@.path == list[m]);
        assert(unsorted[n]@.path == list[n]);
        if m < n {
            assert(alphabetical()(list[m], list[n]));
        } else {
            assert(alphabetical()(list[n], list[m]));
        }
        assert(x.path@ != y.path@);
        assert(before(x.path@, y.path@) || before(y.path@, x.path@));
        assert(x@.score == path_score(s, x.path@));
        assert(y@.score == path_score(s, y.path@));
    }
    let ranked = arranged(paths_of(s), before);
    assert forall|y: Seq<char>| #[trigger] paths.contains(y) <==> ranked.contains(y) by {
        assert(ranked.contains(y) <==> paths_of(s).contains(y));
        assert(list.contains(y) <==> paths_of(s).contains(y));
        if paths.contains(y) {
            let i = choose|i: int| 0 <= i < paths.len() && paths[i] == y;
            assert(sorted[i].path@ == y);
        }
        if list.contains(y) {
            let m = choose|m: int| 0 <= m < list.len() && list[m] == y;
            assert(unsorted[m]@.path == y);
            assert(unsorted.contains(unsorted[m]));
            assert(sorted.to_multiset().count(unsorted[m]) > 0);
            assert(sorted.contains(unsorted[m]));
            let i = choose|i: int| 0 <= i < sorted.len() && sorted[i] == unsorted[m];
            assert(paths[i] == y);
        }
    }
    ascending_is_unique(paths, ranked, before);
    assert forall|i: int| 0 <= i < sorted.len() implies #[trigger] folder_views(sorted)[i]
        == ranked_folders(s)[i] by {
        assert(sorted[i].path@ == paths[i]);
    }
    assert(folder_views(sorted) =~= ranked_folders(s));
}

pub(crate) proof fn lemma_no_duplicates(list: Seq<Seq<char>>, before: TextOrder)
    requires
        is_total(before),
        ascending(list, before),
    ensures
        list.no_duplicates(),
{
    assert forall|i: int, j: int| 0 <= i < list.len() && 0 <= j < list.len() && i
        != j implies list[i] != list[j] by {
        if i < j {
            assert(before(list[i], list[j]));
        } else {
            assert(before(list[j], list[i]));
        }
    }
}

/// The folders that the script lists are the riskiest: there are as many as there
/// are paths, and no more than five; each has the score and the number of its
/// findings; they are in descending order; and no folder that is left out has a
/// higher score than one that is listed.
pub proof fn top_folders_are_the_riskiest(s: Seq<FindingView>)
    ensures
        top_folders(s).len() == if path_list(s).len() <= TOP_FOLDERS {
            path_list(s).len()
        } else {
            TOP_FOLDERS as nat
        },
        forall|i: int|
            #![trigger top_folders(s)[i]]
            0 <= i < top_folders(s).len() ==> {
                let f = top_folders(s)[i];
                &&& paths_of(s).contains(f.path)
                &&& f.score == path_score(s, f.path)
                &&& f.count == on_path(s, f.path).len()
            },
        forall|i: int, j: int|
            0 <= i < j < top_folders(s).len() ==> (#[trigger] top_folders(s)[i]).score >= (
            #[trigger] top_folders(s)[j]).score,
        forall|p: Seq<char>, i: int|
            #![trigger paths_of(s).contains(p), top_folders(s)[i]]
            0 <= i < top_folders(s).len() && paths_of(s).contains(p) ==> top_folders(s)[i].score
                >= path_score(s, p) || exists|j: int|
                0 <= j < i && (#[trigger] top_folders(s)[j]).path == p,
{
    let before = riskier(s);
    let ranked = arranged(paths_of(s), before);
    let list = path_list(s);
    let top = top_folders(s);
    alphabetical_is_total();
    riskier_is_total(s);
    arranged_holds_its_items(paths_of(s), before);
    arranged_holds_its_items(paths_of(s), alphabetical());
    lemma_no_duplicates(ranked, before);
    lemma_no_duplicates(list, alphabetical());
    assert(ranked.len() == list.len()) by {
        ranked.unique_seq_to_set();
        list.unique_seq_to_set();
        assert(ranked.to_set() =~= list.to_set()) by {
            assert forall|y: Seq<char>| ranked.to_set().contains(y) <==> list.to_set().contains(
                y,
            ) by {
                assert(ranked.contains(y) <==> paths_of(s).contains(y));
                assert(list.contains(y) <==> paths_of(s).contains(y));
            }
        }
    }
    assert forall|i: int| 0 <= i < top.len() implies #[trigger] top[i] == (FolderView {
        path: ranked[i],
        score: path_score(s, ranked[i]),
        count: on_path(s, ranked[i]).len(),
    }) && paths_of(s).contains(ranked[i]) by {
        assert(ranked.contains(ranked[i]));
    }
    assert forall|i: int, j: int| 0 <= i < j < top.len() implies (#[trigger] top[i]).score >= (
    #[trigger] top[j]).score by {
        assert(before(ranked[i], ranked[j]));
    }
    assert forall|p: Seq<char>, i: int|
        #![trigger paths_of(s).contains(p), top[i]]
        0 <= i < top.len() && paths_of(s).contains(p) implies top[i].score >= path_score(s, p)
        || exists|j: int| 0 <= j < i && (#[trigger] top[j]).path == p by {
        assert(ranked.contains(p));
        let m = choose|m: int| 0 <= m < ranked.len() && ranked[m] == p;
        if m < i {
            assert(top[m].path == p);
        } else if m > i {
            assert(before(ranked[i], ranked[m]));
        }
    }
}

} // verus!
