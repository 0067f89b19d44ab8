//! Contexts, severities, findings and summaries.

use crate::scanner::risk::{
    count_inheritance_breaks, count_null_dacls, count_orphaned_sids, count_severity,
    grant_severity, inheritance_break_view, lowered_context, mentions_any, null_dacl_view, orphaned_sid_view,
    over_permissive_view, path_context, AuditSummary, FindingView, PathContext, RiskKindView,
    Severity, PUBLIC_KEYWORDS, SENSITIVE_KEYWORDS,
};
use crate::text::{contains_text, lowercase};
use vstd::prelude::*;

verus! {

// ---------------------------------------------------------------------------
// Contexts
// ---------------------------------------------------------------------------

/// Whether a lowercased path names sensitive data.
pub open spec fn names_sensitive_data(path_lower: Seq<char>) -> bool {
    ||| contains_text(path_lower, "hr"@)
    ||| contains_text(path_lower, "finance"@)
    ||| contains_text(path_lower, "legal"@)
    ||| contains_text(path_lower, "top_secret"@)
    ||| contains_text(path_lower, "confidential"@)
    ||| contains_text(path_lower, "admin"@)
}

/// Whether a lowercased path names a place that is shared on purpose.
pub open spec fn names_public_place(path_lower: Seq<char>) -> bool {
    ||| contains_text(path_lower, "public"@)
    ||| contains_text(path_lower, "drop"@)
    ||| contains_text(path_lower, "common"@)
    ||| contains_text(path_lower, "temp"@)
}

/// A path is sensitive if and only if it names sensitive data, and public if and only
/// if it does not and names a place that is shared on purpose, in any letter case.
pub proof fn context_follows_the_keywords(path: Seq<char>)
    ensures
        path_context(path) == PathContext::Sensitive <==> names_sensitive_data(lowercase(path)),
        path_context(path) == PathContext::Public <==> !names_sensitive_data(lowercase(path))
            && names_public_place(lowercase(path)),
        path_context(path) == PathContext::General <==> !names_sensitive_data(lowercase(path))
            && !names_public_place(lowercase(path)),
{
    lowered_context_follows_the_keywords(lowercase(path));
}

/// The same of a path that is given in lowercase.
pub proof fn lowered_context_follows_the_keywords(path_lower: Seq<char>)
    ensures
        lowered_context(path_lower) == PathContext::Sensitive <==> names_sensitive_data(path_lower),
        lowered_context(path_lower) == PathContext::Public <==> !names_sensitive_data(path_lower)
            && names_public_place(path_lower),
{
    let s = SENSITIVE_KEYWORDS@;
    let p = PUBLIC_KEYWORDS@;
    assert(s[0]@ == "hr"@ && s[1]@ == "finance"@ && s[2]@ == "legal"@);
    assert(s[3]@ == "top_secret"@ && s[4]@ == "confidential"@ && s[5]@ == "admin"@);
    assert(p[0]@ == "public"@ && p[1]@ == "drop"@ && p[2]@ == "common"@ && p[3]@ == "temp"@);
}

// ---------------------------------------------------------------------------
// Severities
// ---------------------------------------------------------------------------

/// The severities from the least to the most severe, with their names.
pub proof fn severities_are_ordered()
    ensures
        Severity::Info.level() < Severity::Low.level() < Severity::Medium.level()
            < Severity::High.level() < Severity::Critical.level(),
        Severity::Info.name_text() == "Info"@,
        Severity::Low.name_text() == "Low"@,
        Severity::Medium.name_text() == "Medium"@,
        Severity::High.name_text() == "High"@,
        Severity::Critical.name_text() == "Critical"@,
{
}

/// Whether a mask holds all bits of Full Control, or all bits of Modify.
pub open spec fn holds_modify(access_mask: u32) -> bool {
    access_mask & 0x001F01FF == 0x001F01FF || access_mask & 0x000301BF == 0x000301BF
}

/// How severe a broad grant is: the rows of the table are who is granted what, and the
/// columns are where.
pub proof fn severity_table(
    path: Seq<char>,
    trustee: Seq<char>,
    access_mask: u32,
    human: Seq<char>,
    trustee_lower: Seq<char>,
)
    ensures
        ({
            let on = |context: PathContext|
                over_permissive_view(path, trustee, access_mask, human, trustee_lower, context)
                    .severity;
            let sensitive = on(PathContext::Sensitive);
            let general = on(PathContext::General);
            let public = on(PathContext::Public);
            let everyone = contains_text(trustee_lower, "everyone"@);
            let users = contains_text(trustee_lower, "users"@) || contains_text(
                trustee_lower,
                "authenticated users"@,
            );
            &&& everyone && holds_modify(access_mask) ==> sensitive == Severity::Critical
                && general == Severity::High && public == Severity::Medium
            &&& !everyone && users && holds_modify(access_mask) ==> sensitive == Severity::High
                && general == Severity::Medium && public == Severity::Medium
            &&& everyone && !holds_modify(access_mask) ==> sensitive == Severity::High && general
                == Severity::High && public == Severity::Medium
            &&& !everyone && (!users || !holds_modify(access_mask)) ==> sensitive
                == Severity::Medium && general == Severity::Medium && public == Severity::Low
        }),
{
}

/// Beyond Modify, the rights make no difference: two masks that both hold it, or that
/// both do not, are equally severe.
pub proof fn rights_beyond_modify_do_not_matter(
    trustee_lower: Seq<char>,
    a: u32,
    b: u32,
    context: PathContext,
)
    requires
        holds_modify(a) == holds_modify(b),
    ensures
        grant_severity(trustee_lower, a, context) == grant_severity(trustee_lower, b, context),
{
}

// ---------------------------------------------------------------------------
// Findings
// ---------------------------------------------------------------------------

/// The finding for a broad grant names the path, the trustee and the rights as they
/// are, in its fields and in its texts, and says where the path is sensitive or public.
pub proof fn grant_finding_names_the_grant(
    path: Seq<char>,
    trustee: Seq<char>,
    access_mask: u32,
    human: Seq<char>,
    trustee_lower: Seq<char>,
    context: PathContext,
)
    ensures
        ({
            let f = over_permissive_view(path, trustee, access_mask, human, trustee_lower, context);
            let place = if context == PathContext::Sensitive {
                " [SENSITIVE PATH]"@
            } else if context == PathContext::Public {
                " [PUBLIC PATH]"@
            } else {
                ""@
            };
            &&& f.path == path
            &&& f.risk == (RiskKindView::OverPermissiveAce {
                trustee,
                access_mask,
                access_mask_human: human,
            })
            &&& f.severity == grant_severity(trustee_lower, access_mask, context)
            &&& f.description == "Trustee '"@ + trustee + "' has over-permissive access ("@ + human
                + ")."@ + place
                + " This creates a wide blast radius for ransomware or insider threats."@
            &&& f.remediation_hint == "Remove or restrict explicit ACE for '"@ + trustee
                + "' on this path. Consider replacing with a specific AD security group."@
        }),
{
}

/// The finding for an inheritance break is of medium severity, whatever the path, and
/// names the path.
pub proof fn break_finding_names_the_path(path: Seq<char>, had_protected_copy: bool)
    ensures
        ({
            let f = inheritance_break_view(path, had_protected_copy);
            &&& f.path == path
            &&& f.severity == Severity::Medium
            &&& f.risk == (RiskKindView::InheritanceBreak { had_protected_copy })
            &&& f.description == "Path '"@ + path
                + "' explicitly blocks permission inheritance from its parent. This creates a hidden permission island invisible to top-down audits and is a common GDPR/KVKK compliance gap."@
            &&& f.remediation_hint
                == "Re-enable inheritance or document the explicit permission deviation in your governance register."@
        }),
{
}

/// The finding for an orphaned SID names the path and the SID. It is of high severity on
/// a sensitive path, and says so, and of low severity on any other.
pub proof fn orphan_finding_names_the_sid(path: Seq<char>, sid: Seq<char>, context: PathContext)
    ensures
        ({
            let f = orphaned_sid_view(path, sid, context);
            let warning = if context == PathContext::Sensitive {
                " This is a SENSITIVE path — stale permissions here are a compliance risk (GDPR/KVKK/SOX)."@
            } else {
                ""@
            };
            &&& f.path == path
            &&& f.severity == if context == PathContext::Sensitive {
                Severity::High
            } else {
                Severity::Low
            }
            &&& f.risk == (RiskKindView::OrphanedSid { raw_sid: sid })
            &&& f.description == "ACE on '"@ + path + "' references SID '"@ + sid
                + "' which could not be resolved to an active AD account. This is typically a deleted user or group whose permissions were never cleaned up."@
                + warning
            &&& f.remediation_hint == "Remove ACE for unresolvable SID '"@ + sid
                + "'. Run 'Get-ADObject -Filter {objectSid -eq \""@ + sid
                + "\"}' to confirm deletion."@
        }),
{
}

/// The finding for a missing DACL is critical, whatever the path, and names the path.
pub proof fn null_dacl_finding_names_the_path(path: Seq<char>)
    ensures
        ({
            let f = null_dacl_view(path);
            &&& f.path == path
            &&& f.severity == Severity::Critical
            &&& f.risk == RiskKindView::NullDacl
            &&& f.description == "Path '"@ + path
                + "' has NO DACL. Windows interprets a missing DACL as IMPLICIT ALLOW ALL ACCESS for every user on the system. This is almost certainly a misconfiguration."@
            &&& f.remediation_hint
                == "Immediately apply a restrictive explicit DACL. A null DACL is not the same as an empty DACL (deny all) — it is allow all."@
        }),
{
}

// ---------------------------------------------------------------------------
// Summaries
// ---------------------------------------------------------------------------

/// One if something holds, and zero otherwise.
pub open spec fn one_if(b: bool) -> int {
    if b {
        1
    } else {
        0
    }
}

proof fn lemma_counts_push(s: Seq<FindingView>, f: FindingView, severity: Severity)
    ensures
        count_severity(s.push(f), severity) == count_severity(s, severity) + one_if(
            f.severity == severity,
        ),
        count_inheritance_breaks(s.push(f)) == count_inheritance_breaks(s) + one_if(
            f.risk is InheritanceBreak,
        ),
        count_orphaned_sids(s.push(f)) == count_orphaned_sids(s) + one_if(f.risk is OrphanedSid),
        count_null_dacls(s.push(f)) == count_null_dacls(s) + one_if(f.risk is NullDacl),
{
    reveal(Seq::filter);
    assert(s.push(f).drop_last() =~= s);
}

/// A summary counts each finding once, under its severity and under its kind: one more
/// finding changes these counts and the total by one and no other.
pub proof fn summary_counts_each_finding(
    a: AuditSummary,
    b: AuditSummary,
    s: Seq<FindingView>,
    f: FindingView,
    scanned: u64,
    errors: u64,
)
    requires
        a.is_summary_of(s, scanned, errors),
        b.is_summary_of(s.push(f), scanned, errors),
    ensures
        b.total_findings == a.total_findings + 1,
        b.critical_count == a.critical_count + one_if(f.severity == Severity::Critical),
        b.high_count == a.high_count + one_if(f.severity == Severity::High),
        b.medium_count == a.medium_count + one_if(f.severity == Severity::Medium),
        b.low_count == a.low_count + one_if(f.severity == Severity::Low),
        b.info_count == a.info_count + one_if(f.severity == Severity::Info),
        b.inheritance_breaks == a.inheritance_breaks + one_if(f.risk is InheritanceBreak),
        b.orphaned_sids == a.orphaned_sids + one_if(f.risk is OrphanedSid),
        b.null_dacls == a.null_dacls + one_if(f.risk is NullDacl),
        b.paths_scanned == scanned,
        b.paths_with_errors == errors,
{
    lemma_counts_push(s, f, Severity::Critical);
    lemma_counts_push(s, f, Severity::High);
    lemma_counts_push(s, f, Severity::Medium);
    lemma_counts_push(s, f, Severity::Low);
    lemma_counts_push(s, f, Severity::Info);
}

/// A summary of no findings counts none.
pub proof fn summary_of_nothing(a: AuditSummary, scanned: u64, errors: u64)
    requires
        a.is_summary_of(Seq::empty(), scanned, errors),
    ensures
        a.total_findings == 0 && a.critical_count == 0 && a.high_count == 0 && a.medium_count == 0
            && a.low_count == 0 && a.info_count == 0 && a.inheritance_breaks == 0
            && a.orphaned_sids == 0 && a.null_dacls == 0,
        a.paths_scanned == scanned,
        a.paths_with_errors == errors,
{
    reveal(Seq::filter);
}

/// A text mentions one of some keywords if and only if it holds one of them.
pub proof fn keywords_are_mentioned(text: Seq<char>, keywords: Seq<&'static str>)
    ensures
        mentions_any(text, keywords) <==> exists|k: int|
            0 <= k < keywords.len() && contains_text(text, #[trigger] keywords[k]@),
{
}

} // verus!
