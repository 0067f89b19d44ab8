//! Scans and their errors.

use crate::errors::{
    message_of, AuditorError, AuditorErrorView, ScanError, ScanErrorView,
};
use crate::order::{is_sorted_from, same_rank, text_order_total};
use crate::scanner::collect::{lists_map, no_findings};
use crate::scanner::risk::{finding_views, RiskFinding, RiskKind, RiskKindView};
use crate::scanner::sid::{ResolvedSid, ResolvedSidView, SidLookup, SidLookupView};
use crate::scanner::{
    after_event, after_events, error_views, flat_findings, in_front, is_due, is_keyed_by_path, is_report_order,
    is_result_of, lemma_rank_of_path, ScanConfig, ScanEvent, ScanResult, ScanStateView,
};
use crate::text::hex;
use vstd::prelude::*;

verus! {

// ---------------------------------------------------------------------------
// Recording
// ---------------------------------------------------------------------------

/// A directory that was read counts as examined; its findings are kept under its path,
/// where it has any, and nothing else changes.
pub proof fn read_directories_are_recorded(
    config: ScanConfig,
    state: ScanStateView,
    path: String,
    findings: Vec<RiskFinding>,
)
    ensures
        ({
            let next = after_event(
                config,
                state,
                ScanEvent::Directory { path, outcome: Ok(findings) },
            );
            &&& next.paths_scanned == if state.paths_scanned == u64::MAX {
                0int
            } else {
                state.paths_scanned + 1
            }
            &&& next.errors == state.errors
            &&& findings@.len() > 0 ==> next.found.contains_key(path@) && next.found[path@]
                == findings@
            &&& findings@.len() == 0 ==> next.found == state.found
            &&& forall|p: Seq<char>|
                p != path@ ==> (#[trigger] next.found.contains_key(p) <==> state.found.contains_key(
                    p,
                ))
            &&& forall|p: Seq<char>|
                p != path@ && state.found.contains_key(p) ==> #[trigger] next.found[p]
                    == state.found[p]
        }),
{
}

/// A directory that could not be read counts as examined and changes nothing that was
/// found. It leaves an error with its path and the message, unless access was denied and
/// such paths are to be skipped.
pub proof fn unread_directories_are_recorded(
    config: ScanConfig,
    state: ScanStateView,
    path: String,
    error: AuditorError,
)
    ensures
        ({
            let next = after_event(
                config,
                state,
                ScanEvent::Directory { path, outcome: Err(error) },
            );
            let denied = error@ matches AuditorErrorView::SecurityDescriptorRead { path: _, code }
                && code == 5;
            &&& next.paths_scanned == if state.paths_scanned == u64::MAX {
                0int
            } else {
                state.paths_scanned + 1
            }
            &&& next.found == state.found
            &&& config.skip_access_denied && denied ==> next.errors == state.errors
            &&& !(config.skip_access_denied && denied) ==> next.errors == state.errors.push(
                ScanErrorView { path: path@, message: message_of(error@) },
            )
        }),
{
}

/// Where the walk itself failed, nothing was examined and nothing found. It leaves an
/// error with the path, as far as that is known, and the message, unless access was
/// denied and such paths are to be skipped.
pub proof fn failed_steps_are_recorded(
    config: ScanConfig,
    state: ScanStateView,
    path: Option<String>,
    message: String,
    permission_denied: bool,
)
    ensures
        ({
            let next = after_event(
                config,
                state,
                ScanEvent::WalkFailed { path, message, permission_denied },
            );
            let place = match path {
                Some(p) => p@,
                None => "<unknown>"@,
            };
            &&& next.paths_scanned == state.paths_scanned
            &&& next.found == state.found
            &&& config.skip_access_denied && permission_denied ==> next.errors == state.errors
            &&& !(config.skip_access_denied && permission_denied) ==> next.errors
                == state.errors.push(ScanErrorView { path: place, message: message@ })
        }),
{
}

/// A scan starts with nothing and takes its steps in turn.
pub proof fn steps_are_taken_in_turn(config: ScanConfig, events: Seq<ScanEvent>, event: ScanEvent)
    ensures
        after_events(config, Seq::empty()).found == no_findings(),
        after_events(config, Seq::empty()).errors.len() == 0,
        after_events(config, Seq::empty()).paths_scanned == 0,
        after_events(config, events.push(event)) == after_event(
            config,
            after_events(config, events),
            event,
        ),
        forall|p: Seq<char>| !#[trigger] no_findings().contains_key(p),
{
    assert(events.push(event).drop_last() =~= events);
}

// ---------------------------------------------------------------------------
// Results
// ---------------------------------------------------------------------------

/// Findings on the same path and of the same severity.
pub open spec fn like(x: RiskFinding) -> spec_fn(RiskFinding) -> bool {
    |y: RiskFinding| y.path@ == x.path@ && y.severity == x.severity
}

/// The findings of one path and severity come out in the order in which the entries of
/// the path brought them, all of them and no others.
pub proof fn findings_of_a_path_keep_their_order(
    found: Map<Seq<char>, Seq<RiskFinding>>,
    r: Seq<RiskFinding>,
    x: RiskFinding,
)
    requires
        is_keyed_by_path(found),
        is_report_order(found, r),
    ensures
        r.filter(like(x)) == if found.contains_key(x.path@) {
            found[x.path@].filter(like(x))
        } else {
            Seq::empty()
        },
{
    let pairs = choose|pairs: Seq<(String, Vec<RiskFinding>)>| #[trigger]
        lists_map(pairs, found) && is_sorted_from(flat_findings(pairs), r);
    lemma_rank_of_path(pairs, found, x);
    assert(r.filter(same_rank(x)) == flat_findings(pairs).filter(same_rank(x)));
    assert forall|y: RiskFinding| #[trigger] same_rank(x)(y) == like(x)(y) by {
        text_order_total(x.path@, y.path@);
    }
    assert(same_rank(x) =~= like(x));
    let listed = exists|i: int| 0 <= i < pairs.len() && (#[trigger] pairs[i]).0@ == x.path@;
    assert(listed == found.contains_key(x.path@));
}

/// The result of a scan holds the errors in their order, and counts the findings, the
/// directories and the errors.
pub proof fn results_are_summed_up(state: ScanStateView, r: ScanResult)
    requires
        is_result_of(state, r),
    ensures
        error_views(r.errors@) == state.errors,
        r.summary.total_findings == r.findings@.len(),
        r.summary.paths_scanned == state.paths_scanned,
        r.summary.paths_with_errors == state.errors.len() as u64,
        r.summary.is_summary_of(
            finding_views(r.findings@),
            state.paths_scanned,
            state.errors.len() as u64,
        ),
        is_report_order(state.found, r.findings@),
{
}

// ---------------------------------------------------------------------------
// Messages
// ---------------------------------------------------------------------------

/// What the message of each error says: the path, the SID, the code in eight hexadecimal
/// digits and the cause, as far as the error holds them.
pub proof fn messages_name_their_cause(path: Seq<char>, code: u32, cause: Seq<char>)
    ensures
        message_of(AuditorErrorView::SecurityDescriptorRead { path, code })
            == "Failed to read security descriptor for '"@ + path + "': Win32 error 0x"@ + hex(
            code as nat,
            8,
            false,
        ),
        message_of(AuditorErrorView::NoDacl { path }) == "No DACL present on '"@ + path
            + "' (implicit allow-all — critical risk)"@,
        message_of(AuditorErrorView::SidResolution { sid_string: path, code })
            == "SID resolution failed for '"@ + path + "': Win32 error 0x"@ + hex(
            code as nat,
            8,
            false,
        ),
        message_of(AuditorErrorView::Utf16Decode { path, source: cause })
            == "Invalid UTF-16 in Win32 buffer for path '"@ + path + "': "@ + cause,
        message_of(AuditorErrorView::Traversal(cause)) == "Directory traversal error: "@ + cause,
        message_of(AuditorErrorView::Io { path, source: cause }) == "I/O error on '"@ + path
            + "': "@ + cause,
        message_of(AuditorErrorView::Serialization(cause)) == "JSON serialization error: "@ + cause,
        message_of(AuditorErrorView::SimulatorSetup(cause)) == "Anomaly simulator setup failed: "@
            + cause,
        message_of(AuditorErrorView::NonWindowsPlatform)
            == "This tool requires Windows (NTFS ACL scanning is Win32-only)"@,
{
}

// ---------------------------------------------------------------------------
// Views
// ---------------------------------------------------------------------------

/// What a finding is said to hold is what its fields hold.
pub proof fn finding_views_are_faithful(f: RiskFinding)
    ensures
        f@.path == f.path@,
        f@.severity == f.severity,
        f@.risk == f.risk@,
        f@.description == f.description@,
        f@.remediation_hint == f.remediation_hint@,
        match f.risk {
            RiskKind::OverPermissiveAce { trustee, access_mask, access_mask_human } => f.risk@ == (
            RiskKindView::OverPermissiveAce {
                trustee: trustee@,
                access_mask,
                access_mask_human: access_mask_human@,
            }),
            RiskKind::InheritanceBreak { had_protected_copy } => f.risk@ == (
            RiskKindView::InheritanceBreak { had_protected_copy }),
            RiskKind::OrphanedSid { raw_sid } => f.risk@ == (RiskKindView::OrphanedSid {
                raw_sid: raw_sid@,
            }),
            RiskKind::NullDacl => f.risk@ == RiskKindView::NullDacl,
            RiskKind::AnomalySimulated { cycles_in_ms } => f.risk@ == (
            RiskKindView::AnomalySimulated { cycles_in_ms }),
        },
{
}

/// What a list of findings is said to hold is what each of them holds.
pub proof fn finding_lists_are_faithful(s: Seq<RiskFinding>, e: Seq<ScanError>)
    ensures
        finding_views(s).len() == s.len(),
        forall|i: int| 0 <= i < s.len() ==> #[trigger] finding_views(s)[i] == s[i]@,
        error_views(e).len() == e.len(),
        forall|i: int|
            0 <= i < e.len() ==> #[trigger] error_views(e)[i] == (ScanErrorView {
                path: e[i].path@,
                message: e[i].message@,
            }),
{
}

/// What an error is said to hold is what its fields hold.
pub proof fn error_views_are_faithful(e: AuditorError)
    ensures
        match e {
            AuditorError::SecurityDescriptorRead { path, code } => e@ == (
            AuditorErrorView::SecurityDescriptorRead { path: path@, code }),
            AuditorError::NoDacl { path } => e@ == (AuditorErrorView::NoDacl { path: path@ }),
            AuditorError::SidResolution { sid_string, code } => e@ == (
            AuditorErrorView::SidResolution { sid_string: sid_string@, code }),
            AuditorError::Utf16Decode { path, source } => e@ == (AuditorErrorView::Utf16Decode {
                path: path@,
                source: source@,
            }),
            AuditorError::Traversal(cause) => e@ == AuditorErrorView::Traversal(cause@),
            AuditorError::Io { path, source } => e@ == (AuditorErrorView::Io {
                path: path@,
                source: source@,
            }),
            AuditorError::Serialization(cause) => e@ == AuditorErrorView::Serialization(cause@),
            AuditorError::SimulatorSetup(cause) => e@ == AuditorErrorView::SimulatorSetup(cause@),
            AuditorError::NonWindowsPlatform => e@ == AuditorErrorView::NonWindowsPlatform,
        },
{
}

/// What an identity and a lookup are said to hold is what their fields hold.
pub proof fn identity_views_are_faithful(identity: ResolvedSid, lookup: SidLookup)
    ensures
        match identity {
            ResolvedSid::Account { account_name, domain_name, display } => identity@ == (
            ResolvedSidView::Account {
                account_name: account_name@,
                domain_name: domain_name@,
                display: display@,
            }),
            ResolvedSid::Orphaned { raw_sid } => identity@ == (ResolvedSidView::Orphaned {
                raw_sid: raw_sid@,
            }),
        },
        match lookup {
            SidLookup::UnsupportedPlatform => lookup@ == SidLookupView::UnsupportedPlatform,
            SidLookup::Failed { code, raw_sid } => lookup@ == (SidLookupView::Failed {
                code,
                raw_sid: raw_sid@,
            }),
            SidLookup::Names { account, domain } => lookup@ == (SidLookupView::Names {
                account: account@,
                domain: domain@,
            }),
        },
{
}

// ---------------------------------------------------------------------------
// Limits and progress
// ---------------------------------------------------------------------------

/// A depth of zero is no limit, and any other is that limit.
pub proof fn depths_are_limits(config: ScanConfig)
    ensures
        config.limit() is None <==> config.max_depth == 0,
        config.limit() matches Some(limit) ==> limit == config.max_depth,
{
}

/// The display is refreshed after each five hundred directories and at no other time.
pub proof fn progress_is_shown_now_and_then(count: u64, rounds: nat, rest: nat)
    requires
        count == 500 * rounds + rest,
        rest < 500,
    ensures
        is_due(count) <==> rest == 0,
{
}

/// The finding of a simulation comes first and moves the others by one; without one
/// nothing changes.
pub proof fn simulation_finding_comes_first(f: RiskFinding, s: Seq<RiskFinding>)
    ensures
        in_front(Some(f), s).len() == s.len() + 1,
        in_front(Some(f), s)[0] == f,
        in_front(Some(f), s).skip(1) == s,
        in_front(None, s) == s,
{
    assert(in_front(Some(f), s).skip(1) =~= s);
}

} // verus!
