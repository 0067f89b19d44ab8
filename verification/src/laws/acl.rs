//! Security descriptors and their entries.

use crate::scanner::acl::{
    access_text, ace_findings, aces_findings, allow_findings, corrupt_view, deny_findings,
    descriptor_findings, granted_rights, identity_of,
    is_over_permissive, joined, kind_of, AceReading, SecurityDescriptor,
    Trustee, ACCESS_RIGHTS, OVERPERMISSIVE_TRUSTEES,
};
use crate::scanner::risk::{
    inheritance_break_view, null_dacl_view, orphaned_sid_view, over_permissive_view, path_context,
    FindingView, RiskKindView, Severity,
};
use crate::scanner::sid::{unmapped_identity, ResolvedSid, ResolvedSidView};
use crate::text::{contains_text, hex, lowercase};
use vstd::prelude::*;

verus! {

// ---------------------------------------------------------------------------
// Trustees
// ---------------------------------------------------------------------------

/// A trustee that was resolved to an account is taken for that account, with its name,
/// its domain and the form in which it is shown unchanged.
pub proof fn resolved_accounts_are_kept(
    account_name: String,
    domain_name: String,
    display: String,
)
    ensures
        identity_of(
            Trustee::Resolved(ResolvedSid::Account { account_name, domain_name, display }),
        ) == (ResolvedSidView::Account {
            account_name: account_name@,
            domain_name: domain_name@,
            display: display@,
        }),
{
}

/// A trustee without an account is taken for what its SID stands for, whether the lookup
/// found none or failed.
pub proof fn unresolved_trustees_go_by_their_sid(raw_sid: String)
    ensures
        identity_of(Trustee::Failed { raw_sid }) == unmapped_identity(raw_sid@),
        identity_of(Trustee::Resolved(ResolvedSid::Orphaned { raw_sid })) == unmapped_identity(
            raw_sid@,
        ),
{
}

/// The trustee that a finding names is the one of the entry, as it is shown: with its
/// domain, where there is one.
pub proof fn findings_name_the_trustee_as_shown(path: Seq<char>, trustee: Trustee, access_mask: u32)
    ensures
        forall|i: int|
            #![trigger allow_findings(path, trustee, access_mask)[i]]
            0 <= i < allow_findings(path, trustee, access_mask).len() ==> match allow_findings(
                path,
                trustee,
                access_mask,
            )[i].risk {
                RiskKindView::OverPermissiveAce { trustee: named, access_mask: mask, .. } => named
                    == identity_of(trustee).shown() && mask == access_mask,
                RiskKindView::OrphanedSid { raw_sid } => raw_sid == identity_of(trustee).shown(),
                _ => false,
            },
{
}

/// Whether a lowercased name is that of a broad trustee.
pub open spec fn is_broad(trustee_lower: Seq<char>) -> bool {
    ||| contains_text(trustee_lower, "everyone"@)
    ||| contains_text(trustee_lower, "authenticated users"@)
    ||| contains_text(trustee_lower, "users"@)
    ||| contains_text(trustee_lower, "anonymous logon"@)
    ||| contains_text(trustee_lower, "creator owner"@)
}

/// Whether a mask lets a trustee write or append data, write extended attributes, delete
/// what a folder holds, write attributes, delete, change the DACL or take ownership.
pub open spec fn lets_write(access_mask: u32) -> bool {
    ||| access_mask & 0x00000002 != 0
    ||| access_mask & 0x00000004 != 0
    ||| access_mask & 0x00000010 != 0
    ||| access_mask & 0x00000040 != 0
    ||| access_mask & 0x00000100 != 0
    ||| access_mask & 0x00010000 != 0
    ||| access_mask & 0x00040000 != 0
    ||| access_mask & 0x00080000 != 0
}

/// An entry that allows rights to an account is flagged if and only if the account is a
/// broad trustee and one of the rights lets it write; it is flagged once, for the path,
/// the trustee and the mask of the entry, and there is no other finding.
pub proof fn broad_writers_are_flagged(
    path: Seq<char>,
    trustee: Trustee,
    access_mask: u32,
    account: Seq<char>,
    domain: Seq<char>,
    display: Seq<char>,
)
    requires
        identity_of(trustee) == (ResolvedSidView::Account {
            account_name: account,
            domain_name: domain,
            display,
        }),
    ensures
        ({
            let found = ace_findings(path, AceReading::Allow { access_mask, trustee });
            &&& is_broad(lowercase(display)) && lets_write(access_mask) ==> found.len() == 1
                && found[0].risk == (RiskKindView::OverPermissiveAce {
                trustee: display,
                access_mask,
                access_mask_human: access_text(access_mask),
            }) && found[0] == over_permissive_view(
                path,
                display,
                access_mask,
                access_text(access_mask),
                lowercase(display),
                path_context(path),
            )
            &&& !(is_broad(lowercase(display)) && lets_write(access_mask)) ==> found.len() == 0
        }),
{
    let t = OVERPERMISSIVE_TRUSTEES@;
    assert(t[0]@ == "everyone"@ && t[1]@ == "authenticated users"@ && t[2]@ == "users"@);
    assert(t[3]@ == "anonymous logon"@ && t[4]@ == "creator owner"@);
    lemma_write_bits(access_mask);
}

proof fn lemma_write_bits(access_mask: u32)
    ensures
        lets_write(access_mask) <==> access_mask & 0x000D0156 != 0,
{
    assert((access_mask & 0x00000002 != 0 || access_mask & 0x00000004 != 0 || access_mask
        & 0x00000010 != 0 || access_mask & 0x00000040 != 0 || access_mask & 0x00000100 != 0
        || access_mask & 0x00010000 != 0 || access_mask & 0x00040000 != 0 || access_mask
        & 0x00080000 != 0) <==> access_mask & 0x000D0156 != 0) by (bit_vector);
}

/// An entry of an orphaned trustee, whether it allows or denies and whatever the rights,
/// has one finding: that SID is orphaned on that path.
pub proof fn orphans_are_reported(
    path: Seq<char>,
    trustee: Trustee,
    access_mask: u32,
    raw_sid: Seq<char>,
)
    requires
        identity_of(trustee) == (ResolvedSidView::Orphaned { raw_sid }),
    ensures
        ace_findings(path, AceReading::Allow { access_mask, trustee }) == seq![
            orphaned_sid_view(path, raw_sid, path_context(path)),
        ],
        ace_findings(path, AceReading::Deny { trustee }) == seq![
            orphaned_sid_view(path, raw_sid, path_context(path)),
        ],
{
}

/// Nothing is found in an entry that denies rights to an account, in one of another kind
/// and in one that could not be read.
pub proof fn harmless_entries_have_no_findings(path: Seq<char>, trustee: Trustee)
    ensures
        identity_of(trustee) is Account ==> ace_findings(path, AceReading::Deny { trustee }).len()
            == 0,
        ace_findings(path, AceReading::Other).len() == 0,
        ace_findings(path, AceReading::Unreadable).len() == 0,
{
}

// ---------------------------------------------------------------------------
// Descriptors
// ---------------------------------------------------------------------------

/// A descriptor that is not well-formed has one finding, which is critical and says so,
/// whatever else was read of it.
pub proof fn corrupt_descriptors_are_critical(path: Seq<char>, sd: SecurityDescriptor)
    requires
        !sd.valid,
    ensures
        descriptor_findings(path, sd) == seq![corrupt_view(path)],
        corrupt_view(path).path == path,
        corrupt_view(path).severity == Severity::Critical,
        corrupt_view(path).risk == RiskKindView::NullDacl,
        corrupt_view(path).description == "Security descriptor on '"@ + path
            + "' is invalid/corrupt."@,
        corrupt_view(path).remediation_hint
            == "Run 'icacls \"{}\" /reset' and re-apply permissions."@,
{
}

/// A descriptor without a DACL has one finding, which says so, whatever else was read of
/// it.
pub proof fn missing_dacl_is_the_only_finding(path: Seq<char>, sd: SecurityDescriptor)
    requires
        sd.valid,
        !sd.dacl_present,
    ensures
        descriptor_findings(path, sd) == seq![null_dacl_view(path)],
{
}

/// An inheritance break is reported for a DACL, missing or not, if and only if the DACL
/// is protected, and it is reported first and once.
pub proof fn inheritance_breaks_are_reported(path: Seq<char>, sd: SecurityDescriptor)
    requires
        sd.valid,
        sd.dacl_present,
    ensures
        sd.control & 0x1000 != 0 ==> descriptor_findings(path, sd).len() > 0
            && descriptor_findings(path, sd)[0] == inheritance_break_view(path, true),
        forall|i: int|
            #![trigger descriptor_findings(path, sd)[i]]
            0 <= i < descriptor_findings(path, sd).len() ==> (descriptor_findings(path, sd)[i].risk
                is InheritanceBreak <==> i == 0 && sd.control & 0x1000 != 0),
{
    lemma_entries_break_nothing(path, sd.aces@);
}

proof fn lemma_entries_break_nothing(path: Seq<char>, aces: Seq<AceReading>)
    ensures
        forall|i: int|
            0 <= i < aces_findings(path, aces).len() ==> !((#[trigger] aces_findings(
                path,
                aces,
            )[i]).risk is InheritanceBreak),
    decreases aces.len(),
{
    if aces.len() > 0 {
        lemma_entries_break_nothing(path, aces.drop_last());
    }
}

/// Behind the inheritance break, if there is one, stand the missing DACL, or else the
/// findings of the entries.
pub proof fn descriptor_findings_are_complete(path: Seq<char>, sd: SecurityDescriptor)
    requires
        sd.valid,
        sd.dacl_present,
    ensures
        ({
            let skipped: int = if sd.control & 0x1000 != 0 {
                1
            } else {
                0
            };
            let rest = descriptor_findings(path, sd).skip(skipped);
            &&& descriptor_findings(path, sd).len() >= skipped
            &&& sd.dacl_is_null ==> rest == seq![null_dacl_view(path)]
            &&& !sd.dacl_is_null ==> rest == aces_findings(path, sd.aces@)
        }),
{
    let all = descriptor_findings(path, sd);
    if sd.control & 0x1000 != 0 {
        if sd.dacl_is_null {
            assert(all.skip(1) =~= seq![null_dacl_view(path)]);
        } else {
            assert(all.skip(1) =~= aces_findings(path, sd.aces@));
        }
    } else {
        assert(all.skip(0) =~= all);
        if sd.dacl_is_null {
            assert(all =~= seq![null_dacl_view(path)]);
        } else {
            assert(all =~= aces_findings(path, sd.aces@));
        }
    }
}

/// Each entry is looked at, by itself and in turn: the findings of two lists of entries
/// are those of the one and then those of the other, and those of one entry are its own.
pub proof fn entries_are_looked_at_in_turn(
    path: Seq<char>,
    a: Seq<AceReading>,
    b: Seq<AceReading>,
    ace: AceReading,
)
    ensures
        aces_findings(path, a + b) == aces_findings(path, a) + aces_findings(path, b),
        aces_findings(path, seq![ace]) == ace_findings(path, ace),
        aces_findings(path, Seq::empty()) == Seq::<FindingView>::empty(),
    decreases b.len(),
{
    assert(seq![ace].drop_last() =~= Seq::<AceReading>::empty());
    assert(aces_findings(path, Seq::empty()) =~= Seq::<FindingView>::empty());
    assert(aces_findings(path, seq![ace]) =~= ace_findings(path, ace));
    if b.len() == 0 {
        assert(a + b =~= a);
        assert(aces_findings(path, a) + aces_findings(path, b) =~= aces_findings(path, a));
    } else {
        entries_are_looked_at_in_turn(path, a, b.drop_last(), ace);
        assert((a + b).drop_last() =~= a + b.drop_last());
        assert(aces_findings(path, a + b) =~= aces_findings(path, a) + aces_findings(path, b));
    }
}

// ---------------------------------------------------------------------------
// Access masks
// ---------------------------------------------------------------------------

/// A name, if one of its bits is set.
pub open spec fn named_if(set: bool, name: Seq<char>) -> Seq<Seq<char>> {
    if set {
        seq![name]
    } else {
        Seq::empty()
    }
}

/// The rights whose bits a mask holds.
pub open spec fn rights_in(mask: u32) -> Seq<Seq<char>> {
    named_if(mask & 0x00000001 != 0, "Read"@) + named_if(mask & 0x00000002 != 0, "Write Data"@)
        + named_if(mask & 0x00000004 != 0, "Append Data"@) + named_if(
        mask & 0x00000020 != 0,
        "Execute"@,
    ) + named_if(mask & 0x00010000 != 0, "Delete"@) + named_if(
        mask & 0x00020000 != 0,
        "Read Control"@,
    ) + named_if(mask & 0x00040000 != 0, "Write DAC"@) + named_if(
        mask & 0x00080000 != 0,
        "Write Owner"@,
    )
}

/// A mask is written as Full Control, or as the rights whose bits it holds in their
/// order, with commas between them, or as its number where it holds none of them.
pub proof fn masks_name_their_rights(mask: u32)
    ensures
        mask & 0x001F01FF == 0x001F01FF ==> access_text(mask) == "Full Control"@,
        mask & 0x001F01FF != 0x001F01FF && rights_in(mask).len() > 0 ==> access_text(mask)
            == joined(rights_in(mask), ", "@),
        mask & 0x001F01FF != 0x001F01FF && rights_in(mask).len() == 0 ==> access_text(mask)
            == "0x"@ + hex(mask as nat, 8, true),
{
    lemma_rights_in(mask);
}

proof fn lemma_right(mask: u32, k: int, bit: u32, name: &'static str)
    requires
        0 <= k < 8,
        ACCESS_RIGHTS@[k] == (bit, name),
    ensures
        granted_rights(mask, k + 1) == granted_rights(mask, k) + named_if(mask & bit != 0, name@),
{
    assert(granted_rights(mask, k + 1) =~= granted_rights(mask, k) + named_if(
        mask & bit != 0,
        name@,
    ));
}

proof fn lemma_rights_in(mask: u32)
    ensures
        granted_rights(mask, 8) == rights_in(mask),
{
    lemma_right(mask, 0, 0x00000001, "Read");
    lemma_right(mask, 1, 0x00000002, "Write Data");
    lemma_right(mask, 2, 0x00000004, "Append Data");
    lemma_right(mask, 3, 0x00000020, "Execute");
    lemma_right(mask, 4, 0x00010000, "Delete");
    lemma_right(mask, 5, 0x00020000, "Read Control");
    lemma_right(mask, 6, 0x00040000, "Write DAC");
    lemma_right(mask, 7, 0x00080000, "Write Owner");
    assert(granted_rights(mask, 0) + named_if(mask & 0x00000001 != 0, "Read"@) =~= named_if(
        mask & 0x00000001 != 0,
        "Read"@,
    )) by {
        assert(granted_rights(mask, 0) =~= Seq::<Seq<char>>::empty());
    }
}

/// Texts are joined with the separator between any two of them and nowhere else.
pub proof fn joined_texts_are_separated(parts: Seq<Seq<char>>, last: Seq<char>, sep: Seq<char>)
    ensures
        joined(seq![last], sep) == last,
        parts.len() > 0 ==> joined(parts.push(last), sep) == joined(parts, sep) + sep + last,
{
    assert(parts.push(last).drop_last() =~= parts);
}

/// The test by which an entry is flagged is the one that the laws above speak of.
pub proof fn grants_are_tested_by_trustee_and_rights(trustee_lower: Seq<char>, access_mask: u32)
    ensures
        is_over_permissive(trustee_lower, access_mask) <==> is_broad(trustee_lower) && lets_write(
            access_mask,
        ),
{
    let t = OVERPERMISSIVE_TRUSTEES@;
    assert(t[0]@ == "everyone"@ && t[1]@ == "authenticated users"@ && t[2]@ == "users"@);
    assert(t[3]@ == "anonymous logon"@ && t[4]@ == "creator owner"@);
    lemma_write_bits(access_mask);
}

/// What is found in an entry is what is found in what it allows or denies.
pub proof fn entries_are_looked_at_by_kind(path: Seq<char>, trustee: Trustee, access_mask: u32)
    ensures
        ace_findings(path, AceReading::Allow { access_mask, trustee }) == allow_findings(
            path,
            trustee,
            access_mask,
        ),
        ace_findings(path, AceReading::Deny { trustee }) == deny_findings(path, trustee),
{
}

/// An entry allows if and only if its type is zero, and denies if and only if it is one;
/// the entries of all other types are of another kind.
pub proof fn entry_types_are_told_apart(ace_type: u8)
    ensures
        kind_of(ace_type) is Allow <==> ace_type == 0,
        kind_of(ace_type) is Deny <==> ace_type == 1,
        kind_of(ace_type) is Other <==> ace_type >= 2,
{
}

} // verus!
