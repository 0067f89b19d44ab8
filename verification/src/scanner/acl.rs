//! Access control lists: from what was read of a security descriptor to
//! findings.
//!
//! A descriptor holds a DACL, and a DACL holds entries (ACEs). Each entry allows
//! or denies some rights, given as a bit mask, to one trustee, given by its SID.

use crate::errors::{AuditorError, AuditorErrorView};
use crate::scanner::risk::{
    finding_views, inheritance_break_view, mentions, mentions_any, null_dacl_view,
    orphaned_sid_view, over_permissive_view, path_context, FindingView, RiskFinding, RiskKind,
    RiskKindView, Severity,
};
use crate::scanner::sid::{
    is_well_known, resolve_unmapped, unmapped_identity, unmapped_is_orphaned_unless_well_known,
    well_known_account, ResolvedSid, ResolvedSidView,
};
use crate::text::{hex, hex_text, lowercase};
use vstd::prelude::*;

verus! {

/// What in the lowercased name of a trustee makes it a broad one.
pub const OVERPERMISSIVE_TRUSTEES: [&'static str; 5] = [
    "everyone",
    "authenticated users",
    "users",
    "anonymous logon",
    "creator owner",
];

/// The rights that let a trustee change something: to write or append data, to
/// write attributes and extended attributes, to delete a file or what a folder
/// holds, to change the DACL and to take ownership. Modify and Full Control hold
/// them.
pub const WRITE_ACCESS_MASK: u32 = 0x000D0156;

/// The control flag of a descriptor whose DACL is protected from inheritance.
pub const SE_DACL_PROTECTED: u16 = 0x1000;

// ---------------------------------------------------------------------------
// Access masks
// ---------------------------------------------------------------------------

/// The rights that are told apart, with the bit of each.
pub const ACCESS_RIGHTS: [(u32, &'static str); 8] = [
    (0x00000001, "Read"),
    (0x00000002, "Write Data"),
    (0x00000004, "Append Data"),
    (0x00000020, "Execute"),
    (0x00010000, "Delete"),
    (0x00020000, "Read Control"),
    (0x00040000, "Write DAC"),
    (0x00080000, "Write Owner"),
];

/// The names of the rights that a mask grants, among the first `k` of them.
pub open spec fn granted_rights(mask: u32, k: int) -> Seq<Seq<char>>
    decreases k,
{
    if k <= 0 {
        Seq::empty()
    } else {
        let rest = granted_rights(mask, k - 1);
        let (bit, name) = ACCESS_RIGHTS@[k - 1];
        if mask & bit != 0 {
            rest.push(name@)
        } else {
            rest
        }
    }
}

/// Texts with a separator between them.
pub open spec fn joined(parts: Seq<Seq<char>>, separator: Seq<char>) -> Seq<char>
    decreases parts.len(),
{
    if parts.len() == 0 {
        Seq::empty()
    } else if parts.len() == 1 {
        parts[0]
    } else {
        joined(parts.drop_last(), separator) + separator + parts.last()
    }
}

/// An access mask in words: Full Control, or the rights that it grants, or its
/// number where none of them is known.
pub open spec fn access_text(mask: u32) -> Seq<char> {
    let rights = granted_rights(mask, ACCESS_RIGHTS@.len() as int);
    if mask & 0x001F01FF == 0x001F01FF {
        "Full Control"@
    } else if rights.len() == 0 {
        "0x"@ + hex(mask as nat, 8, true)
    } else {
        joined(rights, ", "@)
    }
}

/// Writes an access mask in words.
pub fn decode_access_mask(mask: u32) -> (r: String)
    ensures
        r@ == access_text(mask),
{
    // The composite mask is the most specific.
    if mask & 0x001F01FF == 0x001F01FF {
        return "Full Control".to_owned();
    }
    let mut text = String::new();
    let mut found = false;
    let mut k: usize = 0;
    while k < ACCESS_RIGHTS.len()
        invariant
            k <= ACCESS_RIGHTS@.len(),
            found == (granted_rights(mask, k as int).len() > 0),
            text@ == joined(granted_rights(mask, k as int), ", "@),
        decreases ACCESS_RIGHTS@.len() - k,
    {
        let (bit, name) = ACCESS_RIGHTS[k];
        let ghost before = granted_rights(mask, k as int);
        if mask & bit != 0 {
            assert(before.push(name@).drop_last() =~= before);
            if found {
                text.append(", ");
                text.append(name);
            } else {
                assert(text@ =~= Seq::<char>::empty());
                text = name.to_owned();
                found = true;
            }
        }
        k += 1;
    }
    if found {
        text
    } else {
        let mut number = "0x".to_owned();
        number.append(hex_text(mask, 8, true).as_str());
        number
    }
}

// ---------------------------------------------------------------------------
// What is read of a descriptor
// ---------------------------------------------------------------------------

/// The kinds of entries that are told apart.
#[derive(Debug, Clone, Copy, PartialEq, Eq, Structural)]
pub enum AceKind {
    /// Allows rights.
    Allow,
    /// Denies rights.
    Deny,
    /// Object and audit entries, which are not looked at.
    Other,
}

/// The kind of an entry, by the type in its header.
pub open spec fn kind_of(ace_type: u8) -> AceKind {
    if ace_type == 0x00 {
        AceKind::Allow
    } else if ace_type == 0x01 {
        AceKind::Deny
    } else {
        AceKind::Other
    }
}

/// The kind of an entry, by the type in its header.
pub fn ace_kind(ace_type: u8) -> (r: AceKind)
    ensures
        r == kind_of(ace_type),
{
    if ace_type == 0x00 {
        AceKind::Allow
    } else if ace_type == 0x01 {
        AceKind::Deny
    } else {
        AceKind::Other
    }
}

/// What is known of the trustee of an entry.
#[derive(Debug)]
pub enum Trustee {
    /// The SID was resolved, or is known to be orphaned.
    Resolved(ResolvedSid),
    /// Looking up the SID failed.
    Failed { raw_sid: String },
}

/// What was read of one entry.
#[derive(Debug)]
pub enum AceReading {
    /// The entry could not be read.
    Unreadable,
    /// The entry allows rights to a trustee.
    Allow { access_mask: u32, trustee: Trustee },
    /// The entry denies rights to a trustee.
    Deny { trustee: Trustee },
    /// Another kind of entry.
    Other,
}

/// What was read of a security descriptor.
#[derive(Debug)]
pub struct SecurityDescriptor {
    /// Whether the descriptor is well-formed.
    pub valid: bool,
    /// Its control flags.
    pub control: u16,
    /// Whether it says that there is a DACL.
    pub dacl_present: bool,
    /// Whether the DACL that it points at is missing all the same.
    pub dacl_is_null: bool,
    /// The entries of the DACL.
    pub aces: Vec<AceReading>,
}

/// What came of reading the security descriptor of a path.
#[derive(Debug)]
pub enum DescriptorReading {
    /// There are no security descriptors on this platform.
    UnsupportedPlatform,
    /// `GetNamedSecurityInfoW` failed with a Win32 error.
    Failed { code: u32 },
    /// The descriptor.
    Read(SecurityDescriptor),
}

// ---------------------------------------------------------------------------
// Findings
// ---------------------------------------------------------------------------

/// Whether a grant is over-permissive: a broad trustee, by its name in
/// lowercase, may change something.
pub open spec fn is_over_permissive(trustee_lower: Seq<char>, access_mask: u32) -> bool {
    mentions_any(trustee_lower, OVERPERMISSIVE_TRUSTEES@) && access_mask & WRITE_ACCESS_MASK != 0
}

/// Whether a grant is over-permissive: a broad trustee, by its name in
/// lowercase, may change something.
pub fn flags_grant(trustee_lower: &str, access_mask: u32) -> (r: bool)
    ensures
        r == is_over_permissive(trustee_lower@, access_mask),
{
    mentions(trustee_lower, OVERPERMISSIVE_TRUSTEES.as_slice()) && access_mask & WRITE_ACCESS_MASK
        != 0
}

/// Who a trustee is taken for. A SID without an account, and one that could not be
/// looked up, is orphaned, unless it is one that every Windows installation has.
pub open spec fn identity_of(trustee: Trustee) -> ResolvedSidView {
    match trustee {
        Trustee::Resolved(ResolvedSid::Account { account_name, domain_name, display }) =>
            ResolvedSidView::Account {
                account_name: account_name@,
                domain_name: domain_name@,
                display: display@,
            },
        Trustee::Resolved(ResolvedSid::Orphaned { raw_sid }) => unmapped_identity(raw_sid@),
        Trustee::Failed { raw_sid } => unmapped_identity(raw_sid@),
    }
}

/// The findings of an entry that allows rights.
pub open spec fn allow_findings(
    path: Seq<char>,
    trustee: Trustee,
    access_mask: u32,
) -> Seq<FindingView> {
    match identity_of(trustee) {
        ResolvedSidView::Orphaned { raw_sid } => seq![
            orphaned_sid_view(path, raw_sid, path_context(path)),
        ],
        ResolvedSidView::Account { account_name: _, domain_name: _, display } => {
            if is_over_permissive(lowercase(display), access_mask) {
                seq![
                    over_permissive_view(
                        path,
                        display,
                        access_mask,
                        access_text(access_mask),
                        lowercase(display),
                        path_context(path),
                    ),
                ]
            } else {
                Seq::empty()
            }
        },
    }
}

/// The findings of an entry that denies rights, which is looked at for orphaned
/// SIDs only.
pub open spec fn deny_findings(path: Seq<char>, trustee: Trustee) -> Seq<FindingView> {
    match identity_of(trustee) {
        ResolvedSidView::Orphaned { raw_sid } => seq![
            orphaned_sid_view(path, raw_sid, path_context(path)),
        ],
        ResolvedSidView::Account { .. } => Seq::empty(),
    }
}

/// The findings of an entry.
pub open spec fn ace_findings(path: Seq<char>, ace: AceReading) -> Seq<FindingView> {
    match ace {
        AceReading::Allow { access_mask, trustee } => allow_findings(path, trustee, access_mask),
        AceReading::Deny { trustee } => deny_findings(path, trustee),
        _ => Seq::empty(),
    }
}

/// The findings of entries, one after the other.
pub open spec fn aces_findings(path: Seq<char>, aces: Seq<AceReading>) -> Seq<FindingView>
    decreases aces.len(),
{
    if aces.len() == 0 {
        Seq::empty()
    } else {
        aces_findings(path, aces.drop_last()) + ace_findings(path, aces.last())
    }
}

/// The finding for a descriptor that is not well-formed.
pub open spec fn corrupt_view(path: Seq<char>) -> FindingView {
    FindingView {
        path,
        severity: Severity::Critical,
        risk: RiskKindView::NullDacl,
        description: "Security descriptor on '"@ + path + "' is invalid/corrupt."@,
        remediation_hint: "Run 'icacls \"{}\" /reset' and re-apply permissions."@,
    }
}

/// The findings of a descriptor.
pub open spec fn descriptor_findings(path: Seq<char>, sd: SecurityDescriptor) -> Seq<FindingView> {
    if !sd.valid {
        seq![corrupt_view(path)]
    } else if !sd.dacl_present {
        seq![null_dacl_view(path)]
    } else {
        let inheritance = if sd.control & SE_DACL_PROTECTED != 0 {
            seq![inheritance_break_view(path, true)]
        } else {
            Seq::empty()
        };
        if sd.dacl_is_null {
            inheritance + seq![null_dacl_view(path)]
        } else {
            inheritance + aces_findings(path, sd.aces@)
        }
    }
}

/// Finds out who a trustee is taken for.
pub fn identify(trustee: &Trustee) -> (r: ResolvedSid)
    ensures
        r@ == identity_of(*trustee),
{
    match trustee {
        Trustee::Failed { raw_sid } => resolve_unmapped(raw_sid.clone()),
        Trustee::Resolved(identity) => {
            match identity {
                ResolvedSid::Orphaned { raw_sid } => resolve_unmapped(raw_sid.clone()),
                ResolvedSid::Account { account_name, domain_name, display } => {
                    ResolvedSid::Account {
                        account_name: account_name.clone(),
                        domain_name: domain_name.clone(),
                        display: display.clone(),
                    }
                },
            }
        },
    }
}

/// Appends the findings of an entry that allows rights.
pub fn analyze_ace(
    path: &str,
    trustee: &Trustee,
    access_mask: u32,
    findings: &mut Vec<RiskFinding>,
)
    ensures
        finding_views(final(findings)@) == finding_views(old(findings)@) + allow_findings(
            path@,
            *trustee,
            access_mask,
        ),
{
    let ghost before = findings@;
    match identify(trustee) {
        ResolvedSid::Orphaned { raw_sid } => {
            findings.push(RiskFinding::orphaned_sid(path.to_owned(), raw_sid));
        },
        ResolvedSid::Account { account_name: _, domain_name: _, display } => {
            let trustee_lower = display.as_str().to_lowercase();
            if flags_grant(trustee_lower.as_str(), access_mask) {
                let access_human = decode_access_mask(access_mask);
                findings.push(
                    RiskFinding::over_permissive(
                        path.to_owned(),
                        display,
                        access_mask,
                        access_human,
                    ),
                );
            }
        },
    }
    proof {
        assert(finding_views(findings@) =~= finding_views(before) + allow_findings(
            path@,
            *trustee,
            access_mask,
        ));
    }
}

/// Appends the findings of an entry that denies rights.
fn analyze_deny(path: &str, trustee: &Trustee, findings: &mut Vec<RiskFinding>)
    ensures
        finding_views(final(findings)@) == finding_views(old(findings)@) + deny_findings(
            path@,
            *trustee,
        ),
{
    let ghost before = findings@;
    if let ResolvedSid::Orphaned { raw_sid } = identify(trustee) {
        findings.push(RiskFinding::orphaned_sid(path.to_owned(), raw_sid));
    }
    proof {
        assert(finding_views(findings@) =~= finding_views(before) + deny_findings(
            path@,
            *trustee,
        ));
    }
}

fn analyze_descriptor(path: &str, sd: &SecurityDescriptor) -> (r: Vec<RiskFinding>)
    ensures
        finding_views(r@) == descriptor_findings(path@, *sd),
{
    let mut findings: Vec<RiskFinding> = Vec::new();
    if !sd.valid {
        let mut description = "Security descriptor on '".to_owned();
        description.append(path);
        description.append("' is invalid/corrupt.");
        findings.push(
            RiskFinding {
                path: path.to_owned(),
                severity: Severity::Critical,
                risk: RiskKind::NullDacl,
                description,
                remediation_hint: "Run 'icacls \"{}\" /reset' and re-apply permissions.".to_owned(),
            },
        );
        assert(finding_views(findings@) =~= seq![corrupt_view(path@)]);
        return findings;
    }
    if !sd.dacl_present {
        findings.push(RiskFinding::null_dacl(path.to_owned()));
        assert(finding_views(findings@) =~= seq![null_dacl_view(path@)]);
        return findings;
    }
    if sd.control & SE_DACL_PROTECTED != 0 {
        findings.push(RiskFinding::inheritance_break(path.to_owned(), sd.dacl_present));
    }
    let ghost inheritance = finding_views(findings@);
    assert(inheritance =~= if sd.control & SE_DACL_PROTECTED != 0 {
        seq![inheritance_break_view(path@, true)]
    } else {
        Seq::empty()
    });
    if sd.dacl_is_null {
        findings.push(RiskFinding::null_dacl(path.to_owned()));
        assert(finding_views(findings@) =~= inheritance + seq![null_dacl_view(path@)]);
        return findings;
    }
    let mut i: usize = 0;
    assert(inheritance + aces_findings(path@, sd.aces@.take(0)) =~= inheritance);
    while i < sd.aces.len()
        invariant
            i <= sd.aces@.len(),
            finding_views(findings@) == inheritance + aces_findings(
                path@,
                sd.aces@.take(i as int),
            ),
        decreases sd.aces@.len() - i,
    {
        let ghost before = finding_views(findings@);
        let ace = &sd.aces[i];
        match ace {
            AceReading::Allow { access_mask, trustee } => {
                analyze_ace(path, trustee, *access_mask, &mut findings);
            },
            AceReading::Deny { trustee } => {
                analyze_deny(path, trustee, &mut findings);
            },
            AceReading::Unreadable => {},
            AceReading::Other => {},
        }
        proof {
            assert(sd.aces@.take(i + 1).drop_last() =~= sd.aces@.take(i as int));
            assert(finding_views(findings@) =~= before + ace_findings(path@, *ace));
            assert(finding_views(findings@) =~= inheritance + (aces_findings(
                path@,
                sd.aces@.take(i as int),
            ) + ace_findings(path@, *ace)));
        }
        i += 1;
    }
    assert(sd.aces@.take(i as int) =~= sd.aces@);
    findings
}

/// The findings of a path, from what came of reading its security descriptor.
/// There are none where the path is clean, and an error where the descriptor
/// could not be read.
pub fn extract_dacl_findings(path: &str, reading: &DescriptorReading) -> (r: Result<
    Vec<RiskFinding>,
    AuditorError,
>)
    ensures
        match *reading {
            DescriptorReading::UnsupportedPlatform => r matches Err(e) && e@
                == AuditorErrorView::NonWindowsPlatform,
            DescriptorReading::Failed { code } => r matches Err(e) && e@ == (
            AuditorErrorView::SecurityDescriptorRead { path: path@, code }),
            DescriptorReading::Read(sd) => r matches Ok(findings) && finding_views(findings@)
                == descriptor_findings(path@, sd),
        },
{
    match reading {
        DescriptorReading::UnsupportedPlatform => Err(AuditorError::NonWindowsPlatform),
        DescriptorReading::Failed { code } => Err(
            AuditorError::SecurityDescriptorRead { path: path.to_owned(), code: *code },
        ),
        DescriptorReading::Read(sd) => Ok(analyze_descriptor(path, sd)),
    }
}

// ---------------------------------------------------------------------------
// Laws
// ---------------------------------------------------------------------------

proof fn lemma_aces_on_path(path: Seq<char>, aces: Seq<AceReading>)
    ensures
        forall|i: int|
            0 <= i < aces_findings(path, aces).len() ==> (#[trigger] aces_findings(
                path,
                aces,
            )[i]).path == path,
    decreases aces.len(),
{
    if aces.len() > 0 {
        lemma_aces_on_path(path, aces.drop_last());
    }
}

/// Every finding of a path carries that path.
pub proof fn findings_carry_their_path(path: Seq<char>, sd: SecurityDescriptor)
    ensures
        forall|i: int|
            0 <= i < descriptor_findings(path, sd).len() ==> (#[trigger] descriptor_findings(
                path,
                sd,
            )[i]).path == path,
{
    lemma_aces_on_path(path, sd.aces@);
}

/// A path whose descriptor has no DACL, or is not well-formed, is critical.
pub proof fn missing_dacl_is_critical(path: Seq<char>, sd: SecurityDescriptor)
    requires
        !sd.valid || !sd.dacl_present || sd.dacl_is_null,
    ensures
        descriptor_findings(path, sd).len() > 0,
        descriptor_findings(path, sd).last().severity == Severity::Critical,
        descriptor_findings(path, sd).last().risk is NullDacl,
{
}

/// An entry that denies is never over-permissive.
pub proof fn deny_is_never_over_permissive(path: Seq<char>, trustee: Trustee)
    ensures
        forall|i: int|
            0 <= i < deny_findings(path, trustee).len() ==> (#[trigger] deny_findings(
                path,
                trustee,
            )[i]).risk is OrphanedSid,
{
}

/// A trustee that could not be looked up does not end the scan of a path: its entry
/// counts as orphaned, whether it allows or denies, unless its SID is one that every
/// Windows installation has.
pub proof fn failed_lookup_is_orphaned(path: Seq<char>, raw_sid: String, access_mask: u32)
    requires
        !is_well_known(raw_sid@),
    ensures
        ace_findings(
            path,
            AceReading::Allow { access_mask, trustee: Trustee::Failed { raw_sid } },
        ) == seq![orphaned_sid_view(path, raw_sid@, path_context(path))],
        ace_findings(path, AceReading::Deny { trustee: Trustee::Failed { raw_sid } }) == seq![
            orphaned_sid_view(path, raw_sid@, path_context(path)),
        ],
{
    unmapped_is_orphaned_unless_well_known(raw_sid@);
}

/// A SID that every Windows installation has is never flagged as orphaned, whatever
/// was read of its trustee and of the entry.
pub proof fn well_known_is_never_flagged(path: Seq<char>, ace: AceReading, i: int)
    requires
        0 <= i < ace_findings(path, ace).len(),
    ensures
        ace_findings(path, ace)[i].risk matches RiskKindView::OrphanedSid { raw_sid }
            ==> !is_well_known(raw_sid),
{
    let trustee = match ace {
        AceReading::Allow { access_mask: _, trustee } => Some(trustee),
        AceReading::Deny { trustee } => Some(trustee),
        _ => None,
    };
    match trustee {
        Some(Trustee::Failed { raw_sid }) => unmapped_is_orphaned_unless_well_known(raw_sid@),
        Some(Trustee::Resolved(ResolvedSid::Orphaned { raw_sid })) =>
            unmapped_is_orphaned_unless_well_known(raw_sid@),
        _ => {},
    }
}

/// A well-known trustee that could not be looked up is judged by its name: where it
/// is allowed rights, the entry counts as if the name had been found, and where it is
/// denied them there is nothing to find.
pub proof fn failed_lookup_of_well_known(path: Seq<char>, raw_sid: String, access_mask: u32)
    requires
        is_well_known(raw_sid@),
    ensures
        identity_of(Trustee::Failed { raw_sid }) is Account,
        well_known_account(raw_sid@) == Some(identity_of(Trustee::Failed { raw_sid })),
        deny_findings(path, Trustee::Failed { raw_sid }).len() == 0,
{
    unmapped_is_orphaned_unless_well_known(raw_sid@);
}

/// A grant that lets its trustee change nothing yields no over-permissive
/// finding, whoever the trustee is.
pub proof fn reading_is_not_over_permissive(path: Seq<char>, trustee: Trustee, access_mask: u32)
    requires
        access_mask & WRITE_ACCESS_MASK == 0,
    ensures
        forall|i: int|
            0 <= i < allow_findings(path, trustee, access_mask).len()
                ==> (#[trigger] allow_findings(path, trustee, access_mask)[i]).risk is OrphanedSid,
{
}

} // verus!
