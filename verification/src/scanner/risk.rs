//! Risk classification: the data model of all findings.
//!
//! The severity of a finding is a function of both the trustee and the path:
//! sensitive paths (HR, finance, legal and the like) escalate it, paths that
//! are shared on purpose de-escalate it, and all others use the baseline.

use crate::text::{ascii_lower, contains, contains_text, lowercase};
use vstd::prelude::*;
use vstd::utf8::is_ascii_chars;

verus! {

// ---------------------------------------------------------------------------
// Path context
// ---------------------------------------------------------------------------

/// What in a lowercased path points at sensitive organizational data.
pub const SENSITIVE_KEYWORDS: [&'static str; 6] = [
    "hr",
    "finance",
    "legal",
    "top_secret",
    "confidential",
    "admin",
];

/// What in a lowercased path points at a folder that is shared on purpose.
pub const PUBLIC_KEYWORDS: [&'static str; 4] = ["public", "drop", "common", "temp"];

/// The contextual classification of a path, by which the same finding is more
/// or less severe.
#[derive(Debug, Clone, Copy, PartialEq, Eq, Structural)]
pub enum PathContext {
    /// The path names sensitive organizational data.
    Sensitive,
    /// The path is shared on purpose.
    Public,
    /// Neither.
    General,
}

/// Whether one of the keywords stands in `text`.
pub open spec fn mentions_any(text: Seq<char>, keywords: Seq<&'static str>) -> bool {
    exists|k: int|
        0 <= k < keywords.len() && contains_text(text, (#[trigger] keywords[k])@)
}

/// The context of a path, given in lowercase. A path that is both sensitive
/// and public is sensitive.
pub open spec fn lowered_context(path_lower: Seq<char>) -> PathContext {
    if mentions_any(path_lower, SENSITIVE_KEYWORDS@) {
        PathContext::Sensitive
    } else if mentions_any(path_lower, PUBLIC_KEYWORDS@) {
        PathContext::Public
    } else {
        PathContext::General
    }
}

/// The context of a path: keywords count in any letter case.
pub open spec fn path_context(path: Seq<char>) -> PathContext {
    lowered_context(lowercase(path))
}

/// A text of ASCII characters in lowercase.
pub open spec fn ascii_lowercase(s: Seq<char>) -> Seq<char> {
    s.map_values(|c: char| ascii_lower(c))
}

/// Whether one of the keywords stands in `text`.
pub fn mentions(text: &str, keywords: &[&'static str]) -> (r: bool)
    ensures
        r == mentions_any(text@, keywords@),
{
    let mut k: usize = 0;
    while k < keywords.len()
        invariant
            k <= keywords@.len(),
            forall|j: int| 0 <= j < k ==> !contains_text(text@, (#[trigger] keywords@[j])@),
        decreases keywords@.len() - k,
    {
        if contains(text, keywords[k]) {
            return true;
        }
        k += 1;
    }
    false
}

/// Classifies a path that is given in lowercase.
pub fn classify_lowered(path_lower: &str) -> (r: PathContext)
    ensures
        r == lowered_context(path_lower@),
{
    // A folder named "public_hr_drop" is to be treated as sensitive.
    if mentions(path_lower, SENSITIVE_KEYWORDS.as_slice()) {
        return PathContext::Sensitive;
    }
    if mentions(path_lower, PUBLIC_KEYWORDS.as_slice()) {
        return PathContext::Public;
    }
    PathContext::General
}

/// Classifies a path by the keywords that stand in it, in any letter case.
/// Sensitive takes priority where both kinds stand in it.
pub fn classify_path(path: &str) -> (r: PathContext)
    ensures
        r == path_context(path@),
        is_ascii_chars(path@) ==> r == lowered_context(ascii_lowercase(path@)),
{
    let path_lower = path.to_lowercase();
    classify_lowered(path_lower.as_str())
}

// ---------------------------------------------------------------------------
// Findings
// ---------------------------------------------------------------------------

/// Severity levels, from the least to the most severe.
#[derive(Debug, Clone, Copy, PartialEq, Eq, PartialOrd, Ord, Structural)]
pub enum Severity {
    /// Informational: not a risk, but worth noting.
    Info,
    /// A deviation from best practice, not an immediate threat.
    Low,
    /// Meaningful exposure.
    Medium,
    /// A serious over-permissive entry.
    High,
    /// An implicit allow-all, or ACL cycling that nobody noticed.
    Critical,
}

impl Severity {
    /// The place of a severity in their order.
    pub open spec fn level(self) -> int {
        match self {
            Severity::Info => 0,
            Severity::Low => 1,
            Severity::Medium => 2,
            Severity::High => 3,
            Severity::Critical => 4,
        }
    }

    /// The name of a severity.
    pub open spec fn name_text(self) -> Seq<char> {
        match self {
            Severity::Info => "Info"@,
            Severity::Low => "Low"@,
            Severity::Medium => "Medium"@,
            Severity::High => "High"@,
            Severity::Critical => "Critical"@,
        }
    }

    /// The name of a severity.
    pub fn name(&self) -> (r: &'static str)
        ensures
            r@ == self.name_text(),
    {
        match self {
            Severity::Info => "Info",
            Severity::Low => "Low",
            Severity::Medium => "Medium",
            Severity::High => "High",
            Severity::Critical => "Critical",
        }
    }

    /// The place of a severity in their order.
    pub fn rank(&self) -> (r: u8)
        ensures
            r == self.level(),
    {
        match self {
            Severity::Info => 0,
            Severity::Low => 1,
            Severity::Medium => 2,
            Severity::High => 3,
            Severity::Critical => 4,
        }
    }
}

/// The type of risk that was found on a path.
#[derive(Debug, Clone)]
pub enum RiskKind {
    /// A broad trustee with write, modify or full-control permissions.
    OverPermissiveAce { trustee: String, access_mask: u32, access_mask_human: String },
    /// The folder blocks inherited permissions from its parent.
    InheritanceBreak {
        /// Whether entries were copied from the parent at the time of the break.
        had_protected_copy: bool,
    },
    /// The SID of an entry could not be resolved to an active account.
    OrphanedSid { raw_sid: String },
    /// The folder has no DACL at all: everyone is allowed everything.
    NullDacl,
    /// Rapid ACL cycling was simulated.
    AnomalySimulated { cycles_in_ms: u64 },
}

/// What a [`RiskKind`] holds.
pub enum RiskKindView {
    OverPermissiveAce { trustee: Seq<char>, access_mask: u32, access_mask_human: Seq<char> },
    InheritanceBreak { had_protected_copy: bool },
    OrphanedSid { raw_sid: Seq<char> },
    NullDacl,
    AnomalySimulated { cycles_in_ms: u64 },
}

impl View for RiskKind {
    type V = RiskKindView;

    open spec fn view(&self) -> RiskKindView {
        match *self {
            RiskKind::OverPermissiveAce { trustee, access_mask, access_mask_human } =>
                RiskKindView::OverPermissiveAce {
                    trustee: trustee@,
                    access_mask,
                    access_mask_human: access_mask_human@,
                },
            RiskKind::InheritanceBreak { had_protected_copy } => RiskKindView::InheritanceBreak {
                had_protected_copy,
            },
            RiskKind::OrphanedSid { raw_sid } => RiskKindView::OrphanedSid { raw_sid: raw_sid@ },
            RiskKind::NullDacl => RiskKindView::NullDacl,
            RiskKind::AnomalySimulated { cycles_in_ms } => RiskKindView::AnomalySimulated {
                cycles_in_ms,
            },
        }
    }
}

/// A single finding, attached to one path.
#[derive(Debug, Clone)]
pub struct RiskFinding {
    /// The path of the affected directory.
    pub path: String,
    /// The severity of this finding.
    pub severity: Severity,
    /// What the risk is.
    pub risk: RiskKind,
    /// An explanation for the administrator who reads the report.
    pub description: String,
    /// A one-line suggestion.
    pub remediation_hint: String,
}

/// What a [`RiskFinding`] holds.
pub struct FindingView {
    pub path: Seq<char>,
    pub severity: Severity,
    pub risk: RiskKindView,
    pub description: Seq<char>,
    pub remediation_hint: Seq<char>,
}

impl View for RiskFinding {
    type V = FindingView;

    open spec fn view(&self) -> FindingView {
        FindingView {
            path: self.path@,
            severity: self.severity,
            risk: self.risk@,
            description: self.description@,
            remediation_hint: self.remediation_hint@,
        }
    }
}

/// What a list of findings holds.
pub open spec fn finding_views(s: Seq<RiskFinding>) -> Seq<FindingView> {
    s.map_values(|f: RiskFinding| f@)
}

/// Full Control.
pub const FULL_CONTROL: u32 = 0x001F01FF;

/// Modify.
pub const MODIFY: u32 = 0x000301BF;

/// Whether a mask grants Full Control or Modify.
pub open spec fn grants_modify(access_mask: u32) -> bool {
    access_mask & FULL_CONTROL == FULL_CONTROL || access_mask & MODIFY == MODIFY
}

/// The severity of a broad grant, by the trustee in lowercase:
///
/// | Trustee                               | Sensitive | General | Public |
/// |---------------------------------------|-----------|---------|--------|
/// | Everyone with Full Control or Modify  | Critical  | High    | Medium |
/// | Users with Full Control or Modify     | High      | Medium  | Medium |
/// | Everyone with less                    | High      | High    | Medium |
/// | Other broad trustees                  | Medium    | Medium  | Low    |
pub open spec fn grant_severity(
    trustee_lower: Seq<char>,
    access_mask: u32,
    context: PathContext,
) -> Severity {
    let everyone = contains_text(trustee_lower, "everyone"@);
    let users = contains_text(trustee_lower, "authenticated users"@) || contains_text(
        trustee_lower,
        "users"@,
    );
    if everyone && grants_modify(access_mask) {
        match context {
            PathContext::Sensitive => Severity::Critical,
            PathContext::General => Severity::High,
            PathContext::Public => Severity::Medium,
        }
    } else if users && grants_modify(access_mask) {
        match context {
            PathContext::Sensitive => Severity::High,
            PathContext::General => Severity::Medium,
            PathContext::Public => Severity::Medium,
        }
    } else if everyone {
        match context {
            PathContext::Sensitive => Severity::High,
            PathContext::General => Severity::High,
            PathContext::Public => Severity::Medium,
        }
    } else {
        match context {
            PathContext::Sensitive => Severity::Medium,
            PathContext::General => Severity::Medium,
            PathContext::Public => Severity::Low,
        }
    }
}

/// The finding for a broad grant, given the trustee in lowercase and the
/// context of the path.
pub open spec fn over_permissive_view(
    path: Seq<char>,
    trustee: Seq<char>,
    access_mask: u32,
    access_mask_human: Seq<char>,
    trustee_lower: Seq<char>,
    context: PathContext,
) -> FindingView {
    let label = match context {
        PathContext::Sensitive => " [SENSITIVE PATH]"@,
        PathContext::Public => " [PUBLIC PATH]"@,
        PathContext::General => ""@,
    };
    FindingView {
        path,
        severity: grant_severity(trustee_lower, access_mask, context),
        risk: RiskKindView::OverPermissiveAce { trustee, access_mask, access_mask_human },
        description: "Trustee '"@ + trustee + "' has over-permissive access ("@ + access_mask_human
            + ")."@ + label
            + " This creates a wide blast radius for ransomware or insider threats."@,
        remediation_hint: "Remove or restrict explicit ACE for '"@ + trustee
            + "' on this path. Consider replacing with a specific AD security group."@,
    }
}

/// The finding for a folder that blocks inheritance.
pub open spec fn inheritance_break_view(path: Seq<char>, had_protected_copy: bool) -> FindingView {
    FindingView {
        path,
        severity: Severity::Medium,
        risk: RiskKindView::InheritanceBreak { had_protected_copy },
        description: "Path '"@ + path
            + "' explicitly blocks permission inheritance from its parent. This creates a hidden permission island invisible to top-down audits and is a common GDPR/KVKK compliance gap."@,
        remediation_hint:
            "Re-enable inheritance or document the explicit permission deviation in your governance register."@,
    }
}

/// The finding for an entry whose SID has no account, given the context of the
/// path.
pub open spec fn orphaned_sid_view(
    path: Seq<char>,
    raw_sid: Seq<char>,
    context: PathContext,
) -> FindingView {
    let label = if context == PathContext::Sensitive {
        " This is a SENSITIVE path — stale permissions here are a compliance risk (GDPR/KVKK/SOX)."@
    } else {
        ""@
    };
    FindingView {
        path,
        severity: if context == PathContext::Sensitive {
            Severity::High
        } else {
            Severity::Low
        },
        risk: RiskKindView::OrphanedSid { raw_sid },
        description: "ACE on '"@ + path + "' references SID '"@ + raw_sid
            + "' which could not be resolved to an active AD account. This is typically a deleted user or group whose permissions were never cleaned up."@
            + label,
        remediation_hint: "Remove ACE for unresolvable SID '"@ + raw_sid
            + "'. Run 'Get-ADObject -Filter {objectSid -eq \""@ + raw_sid
            + "\"}' to confirm deletion."@,
    }
}

/// The finding for a folder without a DACL.
pub open spec fn null_dacl_view(path: Seq<char>) -> FindingView {
    FindingView {
        path,
        severity: Severity::Critical,
        risk: RiskKindView::NullDacl,
        description: "Path '"@ + path
            + "' has NO DACL. Windows interprets a missing DACL as IMPLICIT ALLOW ALL ACCESS for every user on the system. This is almost certainly a misconfiguration."@,
        remediation_hint:
            "Immediately apply a restrictive explicit DACL. A null DACL is not the same as an empty DACL (deny all) — it is allow all."@,
    }
}

/// The severity of a broad grant, by the trustee in lowercase.
pub fn rate_grant(trustee_lower: &str, access_mask: u32, context: PathContext) -> (r: Severity)
    ensures
        r == grant_severity(trustee_lower@, access_mask, context),
{
    let modify = access_mask & FULL_CONTROL == FULL_CONTROL || access_mask & MODIFY == MODIFY;
    let everyone = contains(trustee_lower, "everyone");
    let auth_users = contains(trustee_lower, "authenticated users");
    let builtin_users = contains(trustee_lower, "users");
    if everyone && modify {
        match context {
            PathContext::Sensitive => Severity::Critical,
            PathContext::General => Severity::High,
            PathContext::Public => Severity::Medium,
        }
    } else if (auth_users || builtin_users) && modify {
        match context {
            PathContext::Sensitive => Severity::High,
            PathContext::General => Severity::Medium,
            PathContext::Public => Severity::Medium,
        }
    } else if everyone {
        // Everyone with lesser write permissions.
        match context {
            PathContext::Sensitive => Severity::High,
            PathContext::General => Severity::High,
            PathContext::Public => Severity::Medium,
        }
    } else {
        // Anonymous Logon, Creator Owner and the like.
        match context {
            PathContext::Sensitive => Severity::Medium,
            PathContext::General => Severity::Medium,
            PathContext::Public => Severity::Low,
        }
    }
}

impl RiskFinding {
    /// The finding for a broad grant, given the trustee in lowercase and the
    /// context of the path.
    pub fn over_permissive_in(
        path: String,
        trustee: String,
        access_mask: u32,
        access_mask_human: String,
        trustee_lower: &str,
        context: PathContext,
    ) -> (r: Self)
        ensures
            r@ == over_permissive_view(
                path@,
                trustee@,
                access_mask,
                access_mask_human@,
                trustee_lower@,
                context,
            ),
    {
        let severity = rate_grant(trustee_lower, access_mask, context);
        let label = match context {
            PathContext::Sensitive => " [SENSITIVE PATH]",
            PathContext::Public => " [PUBLIC PATH]",
            PathContext::General => "",
        };
        let mut description = "Trustee '".to_owned();
        description.append(trustee.as_str());
        description.append("' has over-permissive access (");
        description.append(access_mask_human.as_str());
        description.append(").");
        description.append(label);
        description.append(" This creates a wide blast radius for ransomware or insider threats.");
        let mut remediation_hint = "Remove or restrict explicit ACE for '".to_owned();
        remediation_hint.append(trustee.as_str());
        remediation_hint.append(
            "' on this path. Consider replacing with a specific AD security group.",
        );
        RiskFinding {
            path,
            severity,
            risk: RiskKind::OverPermissiveAce { trustee, access_mask, access_mask_human },
            description,
            remediation_hint,
        }
    }

    /// The finding for a broad grant. Its severity follows from who is granted
    /// what, and where.
    pub fn over_permissive(
        path: String,
        trustee: String,
        access_mask: u32,
        access_mask_human: String,
    ) -> (r: Self)
        ensures
            r@ == over_permissive_view(
                path@,
                trustee@,
                access_mask,
                access_mask_human@,
                lowercase(trustee@),
                path_context(path@),
            ),
            is_ascii_chars(trustee@) ==> r@ == over_permissive_view(
                path@,
                trustee@,
                access_mask,
                access_mask_human@,
                ascii_lowercase(trustee@),
                path_context(path@),
            ),
            is_ascii_chars(path@) && is_ascii_chars(trustee@) ==> r@ == over_permissive_view(
                path@,
                trustee@,
                access_mask,
                access_mask_human@,
                ascii_lowercase(trustee@),
                lowered_context(ascii_lowercase(path@)),
            ),
    {
        let trustee_lower = trustee.as_str().to_lowercase();
        let context = classify_path(path.as_str());
        RiskFinding::over_permissive_in(
            path,
            trustee,
            access_mask,
            access_mask_human,
            trustee_lower.as_str(),
            context,
        )
    }

    /// The finding for a folder that blocks inheritance.
    pub fn inheritance_break(path: String, had_protected_copy: bool) -> (r: Self)
        ensures
            r@ == inheritance_break_view(path@, had_protected_copy),
    {
        let mut description = "Path '".to_owned();
        description.append(path.as_str());
        description.append(
            "' explicitly blocks permission inheritance from its parent. This creates a hidden permission island invisible to top-down audits and is a common GDPR/KVKK compliance gap.",
        );
        RiskFinding {
            path,
            severity: Severity::Medium,
            risk: RiskKind::InheritanceBreak { had_protected_copy },
            description,
            remediation_hint:
                "Re-enable inheritance or document the explicit permission deviation in your governance register.".to_owned(),
        }
    }

    /// The finding for an entry whose SID has no account, given the context of
    /// the path.
    pub fn orphaned_sid_in(path: String, raw_sid: String, context: PathContext) -> (r: Self)
        ensures
            r@ == orphaned_sid_view(path@, raw_sid@, context),
    {
        let severity = match context {
            PathContext::Sensitive => Severity::High,
            PathContext::General | PathContext::Public => Severity::Low,
        };
        let label = match context {
            PathContext::Sensitive =>
                " This is a SENSITIVE path — stale permissions here are a compliance risk (GDPR/KVKK/SOX).",
            PathContext::General | PathContext::Public => "",
        };
        let mut description = "ACE on '".to_owned();
        description.append(path.as_str());
        description.append("' references SID '");
        description.append(raw_sid.as_str());
        description.append(
            "' which could not be resolved to an active AD account. This is typically a deleted user or group whose permissions were never cleaned up.",
        );
        description.append(label);
        let mut remediation_hint = "Remove ACE for unresolvable SID '".to_owned();
        remediation_hint.append(raw_sid.as_str());
        remediation_hint.append("'. Run 'Get-ADObject -Filter {objectSid -eq \"");
        remediation_hint.append(raw_sid.as_str());
        remediation_hint.append("\"}' to confirm deletion.");
        RiskFinding {
            path,
            severity,
            risk: RiskKind::OrphanedSid { raw_sid },
            description,
            remediation_hint,
        }
    }

    /// The finding for an entry whose SID has no account. Stale permissions on
    /// a sensitive path are severe; elsewhere they are a matter of hygiene.
    pub fn orphaned_sid(path: String, raw_sid: String) -> (r: Self)
        ensures
            r@ == orphaned_sid_view(path@, raw_sid@, path_context(path@)),
            is_ascii_chars(path@) ==> r@ == orphaned_sid_view(
                path@,
                raw_sid@,
                lowered_context(ascii_lowercase(path@)),
            ),
    {
        let context = classify_path(path.as_str());
        RiskFinding::orphaned_sid_in(path, raw_sid, context)
    }

    /// The finding for a folder without a DACL.
    pub fn null_dacl(path: String) -> (r: Self)
        ensures
            r@ == null_dacl_view(path@),
    {
        let mut description = "Path '".to_owned();
        description.append(path.as_str());
        description.append(
            "' has NO DACL. Windows interprets a missing DACL as IMPLICIT ALLOW ALL ACCESS for every user on the system. This is almost certainly a misconfiguration.",
        );
        RiskFinding {
            path,
            severity: Severity::Critical,
            risk: RiskKind::NullDacl,
            description,
            remediation_hint:
                "Immediately apply a restrictive explicit DACL. A null DACL is not the same as an empty DACL (deny all) — it is allow all.".to_owned(),
        }
    }
}

// ---------------------------------------------------------------------------
// Summary
// ---------------------------------------------------------------------------

/// Summary statistics over all findings.
#[derive(Debug, Default)]
pub struct AuditSummary {
    pub paths_scanned: u64,
    pub paths_with_errors: u64,
    pub total_findings: u64,
    pub critical_count: u64,
    pub high_count: u64,
    pub medium_count: u64,
    pub low_count: u64,
    pub info_count: u64,
    pub inheritance_breaks: u64,
    pub orphaned_sids: u64,
    pub null_dacls: u64,
}

/// How many findings have a severity.
pub open spec fn count_severity(s: Seq<FindingView>, severity: Severity) -> nat {
    s.filter(|f: FindingView| f.severity == severity).len()
}

/// How many findings are inheritance breaks.
pub open spec fn count_inheritance_breaks(s: Seq<FindingView>) -> nat {
    s.filter(|f: FindingView| f.risk is InheritanceBreak).len()
}

/// How many findings are orphaned SIDs.
pub open spec fn count_orphaned_sids(s: Seq<FindingView>) -> nat {
    s.filter(|f: FindingView| f.risk is OrphanedSid).len()
}

/// How many findings are missing DACLs.
pub open spec fn count_null_dacls(s: Seq<FindingView>) -> nat {
    s.filter(|f: FindingView| f.risk is NullDacl).len()
}

impl AuditSummary {
    /// Whether the counts by severity and by kind are those of `s`.
    pub open spec fn counts(self, s: Seq<FindingView>) -> bool {
        &&& self.critical_count == count_severity(s, Severity::Critical)
        &&& self.high_count == count_severity(s, Severity::High)
        &&& self.medium_count == count_severity(s, Severity::Medium)
        &&& self.low_count == count_severity(s, Severity::Low)
        &&& self.info_count == count_severity(s, Severity::Info)
        &&& self.inheritance_breaks == count_inheritance_breaks(s)
        &&& self.orphaned_sids == count_orphaned_sids(s)
        &&& self.null_dacls == count_null_dacls(s)
    }

    /// Whether this is the summary of `s`.
    pub open spec fn is_summary_of(
        self,
        s: Seq<FindingView>,
        paths_scanned: u64,
        error_count: u64,
    ) -> bool {
        &&& self.paths_scanned == paths_scanned
        &&& self.paths_with_errors == error_count
        &&& self.total_findings == s.len()
        &&& self.counts(s)
    }

    /// Counts the findings by severity and by kind.
    pub fn from_findings(findings: &[RiskFinding], paths_scanned: u64, error_count: u64) -> (r: Self)
        ensures
            r.is_summary_of(finding_views(findings@), paths_scanned, error_count),
    {
        let total: usize = findings.len();
        let mut s = AuditSummary {
            paths_scanned,
            paths_with_errors: error_count,
            total_findings: total as u64,
            critical_count: 0,
            high_count: 0,
            medium_count: 0,
            low_count: 0,
            info_count: 0,
            inheritance_breaks: 0,
            orphaned_sids: 0,
            null_dacls: 0,
        };
        let ghost all = finding_views(findings@);
        proof {
            reveal(Seq::filter);
            assert(all.take(0) =~= Seq::<FindingView>::empty());
        }
        let mut i: usize = 0;
        while i < total
            invariant
                all == finding_views(findings@),
                total == findings@.len(),
                i <= total,
                s.paths_scanned == paths_scanned,
                s.paths_with_errors == error_count,
                s.total_findings == total,
                s.counts(all.take(i as int)),
            decreases total - i,
        {
            let f = &findings[i];
            proof {
                assert(f@ == all[i as int]);
                lemma_counts_step(all, i as int);
            }
            match f.severity {
                Severity::Critical => {
                    s.critical_count = s.critical_count + 1;
                },
                Severity::High => {
                    s.high_count = s.high_count + 1;
                },
                Severity::Medium => {
                    s.medium_count = s.medium_count + 1;
                },
                Severity::Low => {
                    s.low_count = s.low_count + 1;
                },
                Severity::Info => {
                    s.info_count = s.info_count + 1;
                },
            }
            match &f.risk {
                RiskKind::InheritanceBreak { .. } => {
                    s.inheritance_breaks = s.inheritance_breaks + 1;
                },
                RiskKind::OrphanedSid { .. } => {
                    s.orphaned_sids = s.orphaned_sids + 1;
                },
                RiskKind::NullDacl => {
                    s.null_dacls = s.null_dacls + 1;
                },
                _ => {},
            }
            i += 1;
        }
        assert(all.take(total as int) =~= all);
        s
    }
}

/// How one more finding changes the number of those that `p` accepts.
proof fn lemma_count_step(all: Seq<FindingView>, i: int, p: spec_fn(FindingView) -> bool)
    requires
        0 <= i < all.len(),
    ensures
        all.take(i + 1).filter(p).len() == all.take(i).filter(p).len() + if p(all[i]) {
            1int
        } else {
            0
        },
        all.take(i).filter(p).len() <= i,
{
    reveal(Seq::filter);
    assert(all.take(i + 1).drop_last() =~= all.take(i));
    all.take(i).lemma_filter_len(p);
}

proof fn lemma_counts_step(all: Seq<FindingView>, i: int)
    requires
        0 <= i < all.len(),
    ensures
        forall|v: Severity|
            #[trigger] count_severity(all.take(i + 1), v) == count_severity(all.take(i), v)
                + if all[i].severity == v {
                1int
            } else {
                0
            },
        forall|v: Severity| #[trigger] count_severity(all.take(i), v) <= i,
        count_inheritance_breaks(all.take(i + 1)) == count_inheritance_breaks(all.take(i))
            + if all[i].risk is InheritanceBreak {
            1int
        } else {
            0
        },
        count_inheritance_breaks(all.take(i)) <= i,
        count_orphaned_sids(all.take(i + 1)) == count_orphaned_sids(all.take(i))
            + if all[i].risk is OrphanedSid {
            1int
        } else {
            0
        },
        count_orphaned_sids(all.take(i)) <= i,
        count_null_dacls(all.take(i + 1)) == count_null_dacls(all.take(i))
            + if all[i].risk is NullDacl {
            1int
        } else {
            0
        },
        count_null_dacls(all.take(i)) <= i,
{
    assert forall|v: Severity|
        #[trigger] count_severity(all.take(i + 1), v) == count_severity(all.take(i), v)
            + if all[i].severity == v {
            1int
        } else {
            0
        } by {
        lemma_count_step(all, i, |f: FindingView| f.severity == v);
    }
    assert forall|v: Severity| #[trigger] count_severity(all.take(i), v) <= i by {
        lemma_count_step(all, i, |f: FindingView| f.severity == v);
    }
    lemma_count_step(all, i, |f: FindingView| f.risk is InheritanceBreak);
    lemma_count_step(all, i, |f: FindingView| f.risk is OrphanedSid);
    lemma_count_step(all, i, |f: FindingView| f.risk is NullDacl);
}

// ---------------------------------------------------------------------------
// Laws
// ---------------------------------------------------------------------------

/// Every finding has exactly one severity: the counts add up to the total.
pub proof fn severity_counts_add_up(s: Seq<FindingView>)
    ensures
        count_severity(s, Severity::Critical) + count_severity(s, Severity::High) + count_severity(
            s,
            Severity::Medium,
        ) + count_severity(s, Severity::Low) + count_severity(s, Severity::Info) == s.len(),
    decreases s.len(),
{
    if s.len() == 0 {
        reveal(Seq::filter);
    } else {
        let n = s.len() - 1;
        assert(s.take(n) =~= s.drop_last());
        assert(s.take(n + 1) =~= s);
        lemma_counts_step(s, n);
        severity_counts_add_up(s.drop_last());
    }
}

/// Two paths that differ only in letter case have the same context.
pub proof fn context_ignores_case(a: Seq<char>, b: Seq<char>)
    requires
        lowercase(a) == lowercase(b),
    ensures
        path_context(a) == path_context(b),
{
}

/// A path that is both sensitive and public counts as sensitive.
pub proof fn sensitive_takes_priority(path: Seq<char>)
    requires
        mentions_any(lowercase(path), SENSITIVE_KEYWORDS@),
    ensures
        path_context(path) == PathContext::Sensitive,
{
}

/// The same grant is at least as severe on a sensitive path as on a general
/// one, and on a general path as on a public one.
pub proof fn context_escalates(trustee_lower: Seq<char>, access_mask: u32)
    ensures
        grant_severity(trustee_lower, access_mask, PathContext::Sensitive).level()
            >= grant_severity(trustee_lower, access_mask, PathContext::General).level(),
        grant_severity(trustee_lower, access_mask, PathContext::General).level()
            >= grant_severity(trustee_lower, access_mask, PathContext::Public).level(),
{
}

/// A grant to everyone is at least as severe as the same grant to any other
/// trustee on the same path.
pub proof fn everyone_is_worst(
    everyone_lower: Seq<char>,
    other_lower: Seq<char>,
    access_mask: u32,
    context: PathContext,
)
    requires
        contains_text(everyone_lower, "everyone"@),
    ensures
        grant_severity(everyone_lower, access_mask, context).level() >= grant_severity(
            other_lower,
            access_mask,
            context,
        ).level(),
{
}

/// More rights never make the same grant less severe.
pub proof fn more_rights_are_no_less_severe(
    trustee_lower: Seq<char>,
    less: u32,
    more: u32,
    context: PathContext,
)
    requires
        less & more == less,
    ensures
        grant_severity(trustee_lower, less, context).level() <= grant_severity(
            trustee_lower,
            more,
            context,
        ).level(),
{
    assert(less & 0x001F01FF == 0x001F01FF ==> more & 0x001F01FF == 0x001F01FF) by (bit_vector)
        requires
            less & more == less,
    ;
    assert(less & 0x000301BF == 0x000301BF ==> more & 0x000301BF == 0x000301BF) by (bit_vector)
        requires
            less & more == less,
    ;
}

/// The letter case of a trustee does not matter: a grant to an ASCII trustee is as
/// severe as one to the same trustee in lowercase, and so are grants to any two
/// trustees that have the same lowercase.
pub proof fn trustee_case_does_not_matter(
    a: Seq<char>,
    b: Seq<char>,
    access_mask: u32,
    context: PathContext,
)
    ensures
        is_ascii_chars(a) ==> is_ascii_chars(ascii_lowercase(a)) && grant_severity(
            ascii_lowercase(ascii_lowercase(a)),
            access_mask,
            context,
        ) == grant_severity(ascii_lowercase(a), access_mask, context),
        lowercase(a) == lowercase(b) ==> grant_severity(lowercase(a), access_mask, context)
            == grant_severity(lowercase(b), access_mask, context),
{
    if is_ascii_chars(a) {
        let lower = ascii_lowercase(a);
        assert forall|i: int| 0 <= i < lower.len() implies (#[trigger] lower[i] as u32) < 128 by {
            assert((a[i] as u32) < 128);
        }
        assert(ascii_lowercase(lower) =~= lower);
    }
}

/// A broad grant is always a risk: at least low, and never just informational.
pub proof fn broad_grant_is_a_risk(
    trustee_lower: Seq<char>,
    access_mask: u32,
    context: PathContext,
)
    ensures
        Severity::Low.level() <= grant_severity(trustee_lower, access_mask, context).level()
            <= Severity::Critical.level(),
        grant_severity(trustee_lower, access_mask, context) != Severity::Info,
{
}

} // verus!
