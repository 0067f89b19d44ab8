//! The scan: what is read of each directory becomes findings.
//!
//! The caller walks the directories, on as many threads as it likes, and records
//! what came of each one. When the walk is over, the findings are put in order,
//! the most severe first, and summed up.

pub mod acl;
pub mod collect;
pub mod risk;
pub mod sid;

use crate::errors::{message_of, AuditorError, AuditorErrorView, ScanError, ScanErrorView};
use crate::order::{
    in_order, is_before, is_sorted_from, same_rank, sort, sorted_is_unique, text_before,
    text_order_total, text_order_transitive, Ranked,
};
use crate::scanner::collect::{
    collected, insert_findings, into_pairs, lists_map, new_map, no_findings,
};
use crate::scanner::risk::{finding_views, AuditSummary, RiskFinding};
use dashmap::DashMap;
use vstd::prelude::*;

verus! {

/// The Win32 error of a path that may not be read.
pub const ERROR_ACCESS_DENIED: u32 = 5;

/// What a scan is to do.
#[derive(Debug, Clone)]
pub struct ScanConfig {
    /// Where to start.
    pub root_path: String,
    /// How deep to go. There is no limit where this is 0.
    pub max_depth: usize,
    /// Whether to follow symbolic links.
    pub follow_symlinks: bool,
    /// Whether paths that may not be read are left out of the errors.
    pub skip_access_denied: bool,
}

impl ScanConfig {
    /// How deep to go, if there is a limit.
    pub open spec fn limit(self) -> Option<usize> {
        if self.max_depth == 0 {
            None
        } else {
            Some(self.max_depth)
        }
    }

    /// How deep to go, if there is a limit.
    pub fn depth_limit(&self) -> (r: Option<usize>)
        ensures
            r == self.limit(),
    {
        if self.max_depth > 0 {
            Some(self.max_depth)
        } else {
            None
        }
    }
}

/// What came of one step of the walk.
#[derive(Debug)]
pub enum ScanEvent {
    /// Walking on failed, at a path where that is known.
    WalkFailed { path: Option<String>, message: String, permission_denied: bool },
    /// A directory was examined.
    Directory { path: String, outcome: Result<Vec<RiskFinding>, AuditorError> },
}

/// The complete output of a scan.
#[derive(Debug)]
pub struct ScanResult {
    pub findings: Vec<RiskFinding>,
    pub errors: Vec<ScanError>,
    pub summary: AuditSummary,
}

/// What a list of errors holds.
pub open spec fn error_views(s: Seq<ScanError>) -> Seq<ScanErrorView> {
    s.map_values(|e: ScanError| e@)
}

// ---------------------------------------------------------------------------
// Recording
// ---------------------------------------------------------------------------

/// What a scan has come to so far.
pub struct ScanState {
    findings: DashMap<String, Vec<RiskFinding>>,
    errors: Vec<ScanError>,
    paths_scanned: u64,
}

/// What a [`ScanState`] holds.
pub struct ScanStateView {
    /// The findings of each path that has any.
    pub found: Map<Seq<char>, Seq<RiskFinding>>,
    /// The errors.
    pub errors: Seq<ScanErrorView>,
    /// How many directories were examined.
    pub paths_scanned: u64,
}

impl View for ScanState {
    type V = ScanStateView;

    closed spec fn view(&self) -> ScanStateView {
        ScanStateView {
            found: collected(self.findings),
            errors: error_views(self.errors@),
            paths_scanned: self.paths_scanned,
        }
    }
}

/// The start of a scan.
pub open spec fn fresh_state() -> ScanStateView {
    ScanStateView { found: no_findings(), errors: Seq::empty(), paths_scanned: 0 }
}

/// Whether an error says that a path may not be read.
pub open spec fn denies_access(e: AuditorErrorView) -> bool {
    e matches AuditorErrorView::SecurityDescriptorRead { path, code } && code
        == ERROR_ACCESS_DENIED
}

/// A state with one more error.
pub open spec fn with_error(state: ScanStateView, error: ScanErrorView) -> ScanStateView {
    ScanStateView { errors: state.errors.push(error), ..state }
}

/// What a scan has come to after one more step. Findings replace those of the
/// same path; a path that may not be read leaves an error only where the scan
/// is to say so.
pub open spec fn after_event(
    config: ScanConfig,
    state: ScanStateView,
    event: ScanEvent,
) -> ScanStateView {
    match event {
        ScanEvent::WalkFailed { path, message, permission_denied } => {
            if config.skip_access_denied && permission_denied {
                state
            } else {
                with_error(
                    state,
                    ScanErrorView {
                        path: match path {
                            Some(p) => p@,
                            None => "<unknown>"@,
                        },
                        message: message@,
                    },
                )
            }
        },
        ScanEvent::Directory { path, outcome } => {
            let counted = ScanStateView {
                paths_scanned: state.paths_scanned.wrapping_add(1),
                ..state
            };
            match outcome {
                Ok(findings) => if findings@.len() == 0 {
                    counted
                } else {
                    ScanStateView { found: counted.found.insert(path@, findings@), ..counted }
                },
                Err(e) => if config.skip_access_denied && denies_access(e@) {
                    counted
                } else {
                    with_error(
                        counted,
                        ScanErrorView { path: path@, message: message_of(e@) },
                    )
                },
            }
        },
    }
}

/// What a scan has come to after some steps.
pub open spec fn after_events(config: ScanConfig, events: Seq<ScanEvent>) -> ScanStateView
    decreases events.len(),
{
    if events.len() == 0 {
        fresh_state()
    } else {
        after_event(config, after_events(config, events.drop_last()), events.last())
    }
}

fn is_access_denied(e: &AuditorError) -> (r: bool)
    ensures
        r == denies_access(e@),
{
    match e {
        AuditorError::SecurityDescriptorRead { code, .. } => *code == ERROR_ACCESS_DENIED,
        _ => false,
    }
}

/// Whether the display of a scan is to be refreshed after so many directories.
pub open spec fn is_due(count: u64) -> bool {
    count % 500 == 0
}

/// Whether the display of a scan is to be refreshed after so many directories.
pub fn progress_due(count: u64) -> (r: bool)
    ensures
        r == is_due(count),
{
    count % 500 == 0
}

impl ScanState {
    /// Starts a scan.
    pub fn new() -> (r: Self)
        ensures
            r@ == fresh_state(),
    {
        let r = ScanState { findings: new_map(), errors: Vec::new(), paths_scanned: 0 };
        assert(r@.errors =~= Seq::<ScanErrorView>::empty());
        r
    }

    /// How many directories were examined.
    pub fn paths_scanned(&self) -> (r: u64)
        ensures
            r == self@.paths_scanned,
    {
        self.paths_scanned
    }

    fn push_error(&mut self, error: ScanError)
        ensures
            final(self)@ == with_error(old(self)@, error@),
    {
        let ghost before = self.errors@;
        self.errors.push(error);
        assert(error_views(self.errors@) =~= error_views(before).push(error@));
    }

    /// Records one step of the walk.
    pub fn record(&mut self, config: &ScanConfig, event: ScanEvent)
        ensures
            final(self)@ == after_event(*config, old(self)@, event),
    {
        match event {
            ScanEvent::WalkFailed { path, message, permission_denied } => {
                if !(config.skip_access_denied && permission_denied) {
                    let path = match path {
                        Some(p) => p,
                        None => "<unknown>".to_owned(),
                    };
                    self.push_error(ScanError { path, message });
                }
            },
            ScanEvent::Directory { path, outcome } => {
                self.paths_scanned = self.paths_scanned.wrapping_add(1);
                match outcome {
                    Ok(findings) => {
                        if findings.len() > 0 {
                            insert_findings(&mut self.findings, path, findings);
                        }
                    },
                    Err(e) => {
                        if !(config.skip_access_denied && is_access_denied(&e)) {
                            self.push_error(ScanError::new(path, &e));
                        }
                    },
                }
            },
        }
    }
}

// ---------------------------------------------------------------------------
// Putting in order
// ---------------------------------------------------------------------------

/// The most severe findings come first, and within a severity they are ordered
/// by path.
impl Ranked for RiskFinding {
    open spec fn precedes(self, other: Self) -> bool {
        self.severity.level() > other.severity.level() || (self.severity.level()
            == other.severity.level() && text_before(self.path@, other.path@))
    }

    proof fn order_laws(a: Self, b: Self, c: Self) {
        text_order_total(a.path@, b.path@);
        text_order_total(b.path@, c.path@);
        text_order_total(a.path@, c.path@);
        if text_before(a.path@, b.path@) && text_before(b.path@, c.path@) {
            text_order_transitive(a.path@, b.path@, c.path@);
        }
        if text_before(c.path@, b.path@) && text_before(b.path@, a.path@) {
            text_order_transitive(c.path@, b.path@, a.path@);
        }
    }

    fn comes_first(&self, other: &Self) -> (r: bool) {
        let mine = self.severity.rank();
        let theirs = other.severity.rank();
        mine > theirs || (mine == theirs && is_before(self.path.as_str(), other.path.as_str()))
    }
}

/// The findings of some paths, one path after the other.
pub open spec fn flat_findings(pairs: Seq<(String, Vec<RiskFinding>)>) -> Seq<RiskFinding>
    decreases pairs.len(),
{
    if pairs.len() == 0 {
        Seq::empty()
    } else {
        flat_findings(pairs.drop_last()) + pairs.last().1@
    }
}

/// Whether `r` holds the findings of all paths, the most severe first, then by
/// path. Findings of the same path and severity keep their order.
pub open spec fn is_report_order(
    found: Map<Seq<char>, Seq<RiskFinding>>,
    r: Seq<RiskFinding>,
) -> bool {
    exists|pairs: Seq<(String, Vec<RiskFinding>)>| #[trigger]
        lists_map(pairs, found) && is_sorted_from(flat_findings(pairs), r)
}

/// Whether `r` is what a scan comes to in the end.
pub open spec fn is_result_of(state: ScanStateView, r: ScanResult) -> bool {
    &&& is_report_order(state.found, r.findings@)
    &&& error_views(r.errors@) == state.errors
    &&& r.summary.is_summary_of(
        finding_views(r.findings@),
        state.paths_scanned,
        state.errors.len() as u64,
    )
}

impl ScanState {
    /// Ends a scan: puts the findings in order and sums them up.
    pub fn finish(self) -> (r: ScanResult)
        ensures
            is_result_of(self@, r),
    {
        let pairs = into_pairs(self.findings);
        let ghost all = pairs@;
        let mut findings: Vec<RiskFinding> = Vec::new();
        assert(flat_findings(all.take(0)) =~= Seq::<RiskFinding>::empty());
        for pair in it: pairs
            invariant
                it.seq() == all,
                findings@ == flat_findings(all.take(it.index() as int)),
        {
            let ghost k = it.index() as int;
            let mut more = pair.1;
            assert(all.take(k + 1).drop_last() =~= all.take(k));
            findings.append(&mut more);
        }
        assert(all.take(all.len() as int) =~= all);
        let sorted = sort(findings);
        let errors = self.errors;
        let summary = AuditSummary::from_findings(
            sorted.as_slice(),
            self.paths_scanned,
            errors.len() as u64,
        );
        ScanResult { findings: sorted, errors, summary }
    }
}

/// Runs a scan over the steps of a walk.
pub fn run_scan(config: &ScanConfig, events: Vec<ScanEvent>) -> (r: ScanResult)
    ensures
        is_result_of(after_events(*config, events@), r),
{
    let mut state = ScanState::new();
    let ghost all = events@;
    assert(all.take(0) =~= Seq::<ScanEvent>::empty());
    for event in it: events
        invariant
            it.seq() == all,
            state@ == after_events(*config, all.take(it.index() as int)),
    {
        assert(all.take(it.index() + 1).drop_last() =~= all.take(it.index() as int));
        state.record(config, event);
    }
    assert(all.take(all.len() as int) =~= all);
    state.finish()
}

/// Findings with the one of a simulation, if there is one, in front.
pub open spec fn in_front(finding: Option<RiskFinding>, s: Seq<RiskFinding>) -> Seq<RiskFinding> {
    match finding {
        Some(f) => seq![f] + s,
        None => s,
    }
}

/// Puts the finding of a simulation, if there is one, in front of the others and
/// sums up anew.
pub fn with_simulation(result: ScanResult, finding: Option<RiskFinding>) -> (r: ScanResult)
    ensures
        r.findings@ == in_front(finding, result.findings@),
        r.errors == result.errors,
        r.summary.is_summary_of(
            finding_views(r.findings@),
            result.summary.paths_scanned,
            result.summary.paths_with_errors,
        ),
{
    let ghost before = result.findings@;
    let mut findings = result.findings;
    if let Some(f) = finding {
        findings.insert(0, f);
        assert(findings@ =~= seq![f] + before);
    }
    let summary = AuditSummary::from_findings(
        findings.as_slice(),
        result.summary.paths_scanned,
        result.summary.paths_with_errors,
    );
    ScanResult { findings, errors: result.errors, summary }
}

// ---------------------------------------------------------------------------
// Laws
// ---------------------------------------------------------------------------

/// Whether the findings that are kept under a path carry that path.
pub open spec fn is_keyed_by_path(found: Map<Seq<char>, Seq<RiskFinding>>) -> bool {
    forall|p: Seq<char>, i: int|
        #![trigger found[p][i]]
        found.contains_key(p) && 0 <= i < found[p].len() ==> found[p][i].path@ == p
}

/// Whether the findings of a directory carry its path.
pub open spec fn carries_path(event: ScanEvent) -> bool {
    event matches ScanEvent::Directory { path, outcome: Ok(findings) } ==> forall|i: int|
        0 <= i < findings@.len() ==> (#[trigger] findings@[i]).path@ == path@
}

/// A scan keeps findings under the path that they carry.
pub proof fn scan_keys_by_path(config: ScanConfig, events: Seq<ScanEvent>)
    requires
        forall|i: int| 0 <= i < events.len() ==> carries_path(#[trigger] events[i]),
    ensures
        is_keyed_by_path(after_events(config, events).found),
    decreases events.len(),
{
    if events.len() > 0 {
        scan_keys_by_path(config, events.drop_last());
        assert(carries_path(events[events.len() - 1]));
    }
}

/// A scan of which no directory could be read, as on a system without access
/// control lists, finds nothing, and still examines them all.
pub proof fn unread_directories_find_nothing(config: ScanConfig, events: Seq<ScanEvent>)
    requires
        forall|i: int|
            0 <= i < events.len() ==> ((#[trigger] events[i]) matches ScanEvent::Directory {
                path,
                outcome: Err(_),
            }),
        events.len() <= u64::MAX,
    ensures
        after_events(config, events).found == no_findings(),
        after_events(config, events).paths_scanned == events.len(),
    decreases events.len(),
{
    if events.len() > 0 {
        unread_directories_find_nothing(config, events.drop_last());
        assert(events[events.len() - 1] matches ScanEvent::Directory { path, outcome: Err(_) });
    }
}

/// The findings of one rank are those of one path.
pub(crate) proof fn lemma_rank_of_path(
    pairs: Seq<(String, Vec<RiskFinding>)>,
    found: Map<Seq<char>, Seq<RiskFinding>>,
    x: RiskFinding,
)
    requires
        is_keyed_by_path(found),
        forall|i: int|
            0 <= i < pairs.len() ==> found.contains_key((#[trigger] pairs[i]).0@)
                && found[pairs[i].0@] == pairs[i].1@,
        forall|i: int, j: int|
            0 <= i < j < pairs.len() ==> (#[trigger] pairs[i]).0@ != (#[trigger] pairs[j]).0@,
    ensures
        flat_findings(pairs).filter(same_rank(x)) == if exists|i: int|
            0 <= i < pairs.len() && (#[trigger] pairs[i]).0@ == x.path@ {
            found[x.path@].filter(same_rank(x))
        } else {
            Seq::empty()
        },
    decreases pairs.len(),
{
    let p = same_rank(x);
    if pairs.len() == 0 {
        reveal(Seq::filter);
    } else {
        let front = pairs.drop_last();
        let last = pairs.last();
        lemma_rank_of_path(front, found, x);
        Seq::filter_distributes_over_add(flat_findings(front), last.1@, p);
        assert(pairs[pairs.len() - 1] == last);
        if last.0@ == x.path@ {
            assert(!exists|i: int| 0 <= i < front.len() && (#[trigger] front[i]).0@ == x.path@)
                by {
                if exists|i: int| 0 <= i < front.len() && (#[trigger] front[i]).0@ == x.path@ {
                    let i = choose|i: int|
                        0 <= i < front.len() && (#[trigger] front[i]).0@ == x.path@;
                    assert(pairs[i].0@ != pairs[pairs.len() - 1].0@);
                }
            }
            assert(Seq::<RiskFinding>::empty() + last.1@.filter(p) =~= last.1@.filter(p));
        } else {
            assert forall|i: int| 0 <= i < last.1@.len() implies !p(#[trigger] last.1@[i]) by {
                assert(found[last.0@][i].path@ == last.0@);
                text_order_total(x.path@, last.1@[i].path@);
            }
            last.1@.lemma_all_neg_filter_empty(p);
            assert(last.1@.filter(p) =~= Seq::<RiskFinding>::empty());
            assert(flat_findings(front).filter(p) + Seq::<RiskFinding>::empty() =~= flat_findings(
                front,
            ).filter(p));
            if exists|i: int| 0 <= i < front.len() && (#[trigger] front[i]).0@ == x.path@ {
                let i = choose|i: int| 0 <= i < front.len() && (#[trigger] front[i]).0@ == x.path@;
                assert(pairs[i] == front[i]);
            } else {
                assert forall|i: int| 0 <= i < pairs.len() implies (#[trigger] pairs[i]).0@
                    != x.path@ by {
                    if i < front.len() {
                        assert(pairs[i] == front[i]);
                    }
                }
            }
        }
    }
}

/// The order of the findings does not depend on the order in which the threads
/// of a scan, or the map, hand them out: what was found determines it.
pub proof fn report_order_is_unique(
    found: Map<Seq<char>, Seq<RiskFinding>>,
    a: Seq<RiskFinding>,
    b: Seq<RiskFinding>,
)
    requires
        is_keyed_by_path(found),
        is_report_order(found, a),
        is_report_order(found, b),
    ensures
        a == b,
{
    let pa = choose|pairs: Seq<(String, Vec<RiskFinding>)>| #[trigger]
        lists_map(pairs, found) && is_sorted_from(flat_findings(pairs), a);
    let pb = choose|pairs: Seq<(String, Vec<RiskFinding>)>| #[trigger]
        lists_map(pairs, found) && is_sorted_from(flat_findings(pairs), b);
    assert forall|x: RiskFinding| #[trigger] a.filter(same_rank(x)) == b.filter(same_rank(x)) by {
        lemma_rank_of_path(pa, found, x);
        lemma_rank_of_path(pb, found, x);
        let in_a = exists|i: int| 0 <= i < pa.len() && (#[trigger] pa[i]).0@ == x.path@;
        let in_b = exists|i: int| 0 <= i < pb.len() && (#[trigger] pb[i]).0@ == x.path@;
        if found.contains_key(x.path@) {
            assert(in_a && in_b);
        } else {
            assert(!in_a && !in_b);
        }
    }
    sorted_is_unique(a, b);
}

/// The most severe findings come first, and findings of one severity are ordered
/// by path.
pub proof fn report_is_in_order(
    found: Map<Seq<char>, Seq<RiskFinding>>,
    r: Seq<RiskFinding>,
    i: int,
    j: int,
)
    requires
        is_report_order(found, r),
        0 <= i < j < r.len(),
    ensures
        r[i].severity.level() >= r[j].severity.level(),
        r[i].severity == r[j].severity ==> !text_before(r[j].path@, r[i].path@),
{
    assert(in_order(r));
    assert(!r[j].precedes(r[i]));
}

/// Directories with different paths may be recorded in either order: what was
/// found and how many were examined is the same.
pub proof fn directories_commute(
    config: ScanConfig,
    state: ScanStateView,
    path_a: String,
    outcome_a: Result<Vec<RiskFinding>, AuditorError>,
    path_b: String,
    outcome_b: Result<Vec<RiskFinding>, AuditorError>,
)
    requires
        path_a@ != path_b@,
    ensures
        ({
            let a = ScanEvent::Directory { path: path_a, outcome: outcome_a };
            let b = ScanEvent::Directory { path: path_b, outcome: outcome_b };
            let ab = after_event(config, after_event(config, state, a), b);
            let ba = after_event(config, after_event(config, state, b), a);
            ab.found == ba.found && ab.paths_scanned == ba.paths_scanned
                && ab.errors.to_multiset() == ba.errors.to_multiset()
        }),
{
    broadcast use vstd::seq_lib::group_to_multiset_ensures;

    let a = ScanEvent::Directory { path: path_a, outcome: outcome_a };
    let b = ScanEvent::Directory { path: path_b, outcome: outcome_b };
    let ab = after_event(config, after_event(config, state, a), b);
    let ba = after_event(config, after_event(config, state, b), a);
    assert(ab.found =~= ba.found);
    assert(ab.errors.to_multiset() =~= ba.errors.to_multiset());
}

/// Nothing that was found is lost and nothing is added: where the findings of
/// each path carry that path, the findings of a path in the result are those
/// that were kept for it.
pub proof fn report_keeps_findings(
    found: Map<Seq<char>, Seq<RiskFinding>>,
    r: Seq<RiskFinding>,
    f: RiskFinding,
)
    requires
        is_keyed_by_path(found),
        is_report_order(found, r),
    ensures
        r.contains(f) <==> found.contains_key(f.path@) && found[f.path@].contains(f),
{
    let pairs = choose|pairs: Seq<(String, Vec<RiskFinding>)>| #[trigger]
        lists_map(pairs, found) && is_sorted_from(flat_findings(pairs), r);
    let p = same_rank(f);
    lemma_rank_of_path(pairs, found, f);
    assert(r.filter(p) == flat_findings(pairs).filter(p));
    RiskFinding::order_laws(f, f, f);
    assert(p(f));
    if r.contains(f) {
        let i = choose|i: int| 0 <= i < r.len() && r[i] == f;
        r.lemma_filter_contains(p, i);
        assert(r.filter(p).contains(f));
        assert(exists|i: int| 0 <= i < pairs.len() && (#[trigger] pairs[i]).0@ == f.path@);
        found[f.path@].lemma_filter_contains_rev(p, f);
    }
    if found.contains_key(f.path@) && found[f.path@].contains(f) {
        let s = found[f.path@];
        let i = choose|i: int| 0 <= i < s.len() && s[i] == f;
        s.lemma_filter_contains(p, i);
        assert(s.filter(p).contains(f));
        assert(r.filter(p) == s.filter(p));
        r.lemma_filter_contains_rev(p, f);
    }
}

} // verus!
