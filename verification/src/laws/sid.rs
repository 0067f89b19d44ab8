//! SIDs and the names of accounts.

use crate::errors::AuditorErrorView;
use crate::scanner::sid::{
    account_view, canonical_sid, is_utf16, is_well_known, names_are_there, pair_char, resolution, unmapped_identity,
    utf16_chars, utf16_text, well_known_account, well_known_from, ResolvedSidView, SidLookupView,
    SidText, WELL_KNOWN_SIDS,
};
use vstd::prelude::*;

verus! {

// ---------------------------------------------------------------------------
// UTF-16
// ---------------------------------------------------------------------------

/// A character in UTF-16: one unit, or a surrogate pair.
pub open spec fn units_of_char(c: char) -> Seq<u16> {
    let n = c as u32 as int;
    if n < 0x10000 {
        seq![n as u16]
    } else {
        seq![
            (0xD800 + (n - 0x10000) / 0x400) as u16,
            (0xDC00 + (n - 0x10000) % 0x400) as u16,
        ]
    }
}

/// A text in UTF-16.
pub open spec fn units_of(s: Seq<char>) -> Seq<u16>
    decreases s.len(),
{
    if s.len() == 0 {
        Seq::empty()
    } else {
        units_of_char(s[0]) + units_of(s.skip(1))
    }
}

proof fn lemma_first_char(c: char, rest: Seq<u16>)
    ensures
        utf16_chars(units_of_char(c) + rest) == seq![Some(c)] + utf16_chars(rest),
{
    let units = units_of_char(c) + rest;
    let n = c as u32 as int;
    if n < 0x10000 {
        assert(units[0] as int == n);
        assert(units[0] as char == c);
        assert(units.skip(1) =~= rest);
    } else {
        let high = units[0];
        let low = units[1];
        assert(high == 0xD800 + (n - 0x10000) / 0x400);
        assert(low == 0xDC00 + (n - 0x10000) % 0x400);
        assert(0x10000 + (high - 0xD800) * 0x400 + (low - 0xDC00) == n);
        assert(pair_char(high, low) == c);
        assert(units.skip(2) =~= rest);
    }
}

/// A text that was written in UTF-16 is read back.
pub proof fn utf16_reads_back(s: Seq<char>)
    ensures
        is_utf16(units_of(s)),
        utf16_text(units_of(s)) == s,
    decreases s.len(),
{
    let units = units_of(s);
    if s.len() > 0 {
        let rest = s.skip(1);
        utf16_reads_back(rest);
        lemma_first_char(s[0], units_of(rest));
        let tail = utf16_chars(units_of(rest));
        let all = utf16_chars(units);
        assert(all == seq![Some(s[0])] + tail);
        assert forall|i: int| 0 <= i < all.len() implies (#[trigger] all[i]) is Some by {
            if i > 0 {
                assert(all[i] == tail[i - 1]);
            }
        }
        assert(utf16_text(units).len() == s.len()) by {
            assert(utf16_text(units_of(rest)).len() == rest.len());
        }
        assert forall|i: int| 0 <= i < s.len() implies #[trigger] utf16_text(units)[i] == s[i] by {
            if i > 0 {
                assert(all[i] == tail[i - 1]);
                assert(utf16_text(units_of(rest))[i - 1] == rest[i - 1]);
            }
        }
        assert(utf16_text(units) =~= s);
    } else {
        assert(utf16_text(units) =~= s);
    }
}

/// Units are UTF-16 only if they are the units of the text that they are read as.
pub proof fn only_texts_are_utf16(units: Seq<u16>)
    ensures
        is_utf16(units) ==> units_of(utf16_text(units)) == units,
    decreases units.len(),
{
    if is_utf16(units) && units.len() > 0 {
        let all = utf16_chars(units);
        let text = utf16_text(units);
        assert(all[0] is Some);
        let width: int = if 0xD800 <= units[0] <= 0xDBFF {
            2
        } else {
            1
        };
        let rest = units.skip(width);
        let tail = utf16_chars(rest);
        assert(all == seq![all[0]] + tail);
        assert forall|i: int| 0 <= i < tail.len() implies (#[trigger] tail[i]) is Some by {
            assert(tail[i] == all[i + 1]);
        }
        assert(is_utf16(rest));
        only_texts_are_utf16(rest);
        assert(text.skip(1) =~= utf16_text(rest));
        let c = text[0];
        if width == 1 {
            assert(c as u32 == units[0]);
            assert(units_of_char(c) =~= seq![units[0]]);
            assert(units =~= seq![units[0]] + rest);
        } else {
            let (high, low) = (units[0], units[1]);
            assert(c == pair_char(high, low));
            assert(c as u32 == 0x10000 + (high - 0xD800) * 0x400 + (low - 0xDC00));
            assert(((high - 0xD800) * 0x400 + (low - 0xDC00)) / 0x400 == high - 0xD800);
            assert(units_of_char(c) =~= seq![high, low]);
            assert(units =~= seq![high, low] + rest);
        }
    } else if units.len() == 0 {
        assert(units_of(utf16_text(units)) =~= units);
    }
}

/// A surrogate that is not part of a pair is read as U+FFFD, and the rest as if it stood
/// alone.
pub proof fn lone_surrogates_are_replaced(unit: u16, rest: Seq<u16>)
    requires
        0xD800 <= unit <= 0xDFFF,
        0xDC00 <= unit || rest.len() == 0 || !(0xDC00 <= rest[0] <= 0xDFFF),
    ensures
        !is_utf16(seq![unit] + rest),
        utf16_text(seq![unit] + rest) == seq!['\u{FFFD}'] + utf16_text(rest),
{
    let units = seq![unit] + rest;
    assert(units.skip(1) =~= rest);
    assert(units.len() > 1 ==> units[1] == rest[0]);
    assert(utf16_chars(units) == seq![None::<char>] + utf16_chars(rest));
    assert(utf16_chars(units)[0] is None);
    assert(utf16_text(units) =~= seq!['\u{FFFD}'] + utf16_text(rest));
}

// ---------------------------------------------------------------------------
// Identities
// ---------------------------------------------------------------------------

/// An account is shown as its domain, a backslash and its name, or as its name alone
/// where it has no domain, and keeps both.
pub proof fn accounts_are_shown_with_their_domain(domain: Seq<char>, account: Seq<char>)
    ensures
        ({
            let identity = account_view(domain, account);
            let shown = identity.shown();
            &&& identity matches ResolvedSidView::Account { account_name, domain_name, display }
                && account_name == account && domain_name == domain && display == shown
            &&& domain.len() > 0 ==> shown.len() == domain.len() + 1 + account.len() && shown.take(
                domain.len() as int,
            ) == domain && shown[domain.len() as int] == '\\' && shown.skip(1 + domain.len() as int)
                == account
            &&& domain.len() == 0 ==> shown == account
        }),
{
    reveal_strlit("\\");
    let shown = account_view(domain, account).shown();
    if domain.len() > 0 {
        assert(shown.take(domain.len() as int) =~= domain);
        assert(shown.skip(1 + domain.len() as int) =~= account);
    }
}

/// An orphaned SID is shown as it is.
pub proof fn orphans_are_shown_as_they_are(raw_sid: Seq<char>)
    ensures
        (ResolvedSidView::Orphaned { raw_sid }).shown() == raw_sid,
{
}

/// The SIDs that every Windows installation has are these twelve.
pub proof fn well_known_sids_are_these(sid: Seq<char>)
    ensures
        is_well_known(sid) <==> {
            ||| sid == "S-1-5-18"@
            ||| sid == "S-1-5-32-544"@
            ||| sid == "S-1-5-11"@
            ||| sid == "S-1-5-32-545"@
            ||| sid == "S-1-1-0"@
            ||| sid == "S-1-5-32-546"@
            ||| sid == "S-1-5-19"@
            ||| sid == "S-1-5-20"@
            ||| sid == "S-1-5-32-547"@
            ||| sid == "S-1-5-32-551"@
            ||| sid == "S-1-3-0"@
            ||| sid == "S-1-3-1"@
        },
        is_well_known(sid) <==> well_known_account(sid) is Some,
{
    let t = WELL_KNOWN_SIDS@;
    assert(t[0].0@ == "S-1-5-18"@ && t[1].0@ == "S-1-5-32-544"@ && t[2].0@ == "S-1-5-11"@);
    assert(t[3].0@ == "S-1-5-32-545"@ && t[4].0@ == "S-1-1-0"@ && t[5].0@ == "S-1-5-32-546"@);
    assert(t[6].0@ == "S-1-5-19"@ && t[7].0@ == "S-1-5-20"@ && t[8].0@ == "S-1-5-32-547"@);
    assert(t[9].0@ == "S-1-5-32-551"@ && t[10].0@ == "S-1-3-0"@ && t[11].0@ == "S-1-3-1"@);
    crate::scanner::sid::unmapped_is_orphaned_unless_well_known(sid);
    if well_known_account(sid) is Some {
        assert(is_well_known(sid)) by {
            if !is_well_known(sid) {
                lemma_unknown(sid, 0);
            }
        }
    }
}

proof fn lemma_unknown(sid: Seq<char>, k: int)
    requires
        !is_well_known(sid),
        0 <= k <= WELL_KNOWN_SIDS@.len(),
    ensures
        well_known_from(sid, k) is None,
    decreases WELL_KNOWN_SIDS@.len() - k,
{
    if k < WELL_KNOWN_SIDS@.len() {
        assert(WELL_KNOWN_SIDS@[k].0@ != sid);
        lemma_unknown(sid, k + 1);
    }
}

/// A SID for which no account was found is the well-known account of that SID, or is
/// orphaned under that SID.
pub proof fn unmapped_sids_keep_their_name(sid: Seq<char>)
    ensures
        unmapped_identity(sid) == match well_known_account(sid) {
            Some(identity) => identity,
            None => ResolvedSidView::Orphaned { raw_sid: sid },
        },
        unmapped_identity(sid) is Orphaned <==> !is_well_known(sid),
{
    crate::scanner::sid::unmapped_is_orphaned_unless_well_known(sid);
}

/// Each row of the table of well-known SIDs is found, with the domain and the account of
/// the row.
pub proof fn well_known_sids_have_their_names(k: int)
    requires
        0 <= k < 12,
    ensures
        well_known_account(WELL_KNOWN_SIDS@[k].0@) == Some(
            account_view(WELL_KNOWN_SIDS@[k].1@, WELL_KNOWN_SIDS@[k].2@),
        ),
{
    lemma_rows_differ();
    lemma_row(k, 0);
}

/// The domain and the account of each SID that every Windows installation has. Which
/// SIDs these are, [`well_known_sids_are_these`] says.
pub proof fn well_known_names_are_these(sid: Seq<char>)
    ensures
        sid == "S-1-5-18"@ ==> well_known_account(sid) == Some(account_view("NT AUTHORITY"@, "SYSTEM"@)),
        sid == "S-1-5-32-544"@ ==> well_known_account(sid) == Some(account_view("BUILTIN"@, "Administrators"@)),
        sid == "S-1-5-11"@ ==> well_known_account(sid) == Some(account_view("NT AUTHORITY"@, "Authenticated Users"@)),
        sid == "S-1-5-32-545"@ ==> well_known_account(sid) == Some(account_view("BUILTIN"@, "Users"@)),
        sid == "S-1-1-0"@ ==> well_known_account(sid) == Some(account_view(""@, "Everyone"@)),
        sid == "S-1-5-32-546"@ ==> well_known_account(sid) == Some(account_view("BUILTIN"@, "Guests"@)),
        sid == "S-1-5-19"@ ==> well_known_account(sid) == Some(account_view("NT AUTHORITY"@, "LOCAL SERVICE"@)),
        sid == "S-1-5-20"@ ==> well_known_account(sid) == Some(account_view("NT AUTHORITY"@, "NETWORK SERVICE"@)),
        sid == "S-1-5-32-547"@ ==> well_known_account(sid) == Some(account_view("BUILTIN"@, "Power Users"@)),
        sid == "S-1-5-32-551"@ ==> well_known_account(sid) == Some(account_view("BUILTIN"@, "Backup Operators"@)),
        sid == "S-1-3-0"@ ==> well_known_account(sid) == Some(account_view(""@, "CREATOR OWNER"@)),
        sid == "S-1-3-1"@ ==> well_known_account(sid) == Some(account_view(""@, "CREATOR GROUP"@)),
{
    well_known_sids_have_their_names(0);
    well_known_sids_have_their_names(1);
    well_known_sids_have_their_names(2);
    well_known_sids_have_their_names(3);
    well_known_sids_have_their_names(4);
    well_known_sids_have_their_names(5);
    well_known_sids_have_their_names(6);
    well_known_sids_have_their_names(7);
    well_known_sids_have_their_names(8);
    well_known_sids_have_their_names(9);
    well_known_sids_have_their_names(10);
    well_known_sids_have_their_names(11);
}

proof fn lemma_row(k: int, j: int)
    requires
        0 <= j <= k < 12,
        forall|a: int, b: int|
            0 <= a < b < 12 ==> (#[trigger] WELL_KNOWN_SIDS@[a]).0@ != (
            #[trigger] WELL_KNOWN_SIDS@[b]).0@,
    ensures
        well_known_from(WELL_KNOWN_SIDS@[k].0@, j) == Some(
            account_view(WELL_KNOWN_SIDS@[k].1@, WELL_KNOWN_SIDS@[k].2@),
        ),
    decreases k - j,
{
    if j < k {
        assert(WELL_KNOWN_SIDS@[j].0@ != WELL_KNOWN_SIDS@[k].0@);
        lemma_row(k, j + 1);
    }
}

proof fn lemma_rows_differ()
    ensures
        forall|a: int, b: int|
            0 <= a < b < 12 ==> (#[trigger] WELL_KNOWN_SIDS@[a]).0@ != (
            #[trigger] WELL_KNOWN_SIDS@[b]).0@,
{
    reveal_strlit("S-1-5-18");
    reveal_strlit("S-1-5-32-544");
    reveal_strlit("S-1-5-11");
    reveal_strlit("S-1-5-32-545");
    reveal_strlit("S-1-1-0");
    reveal_strlit("S-1-5-32-546");
    reveal_strlit("S-1-5-19");
    reveal_strlit("S-1-5-20");
    reveal_strlit("S-1-5-32-547");
    reveal_strlit("S-1-5-32-551");
    reveal_strlit("S-1-3-0");
    reveal_strlit("S-1-3-1");
    let t = WELL_KNOWN_SIDS@;
    // The first of these characters that differs tells two SIDs apart.
    assert(t[0].0@[6] == '1' && t[0].0@[7] == '8' && t[0].0@.len() == 8);
    assert(t[1].0@[11] == '4' && t[1].0@.len() == 12);
    assert(t[2].0@[6] == '1' && t[2].0@[7] == '1' && t[2].0@.len() == 8);
    assert(t[3].0@[11] == '5' && t[3].0@[10] == '4' && t[3].0@.len() == 12);
    assert(t[4].0@[4] == '1' && t[4].0@.len() == 7);
    assert(t[5].0@[11] == '6' && t[5].0@.len() == 12);
    assert(t[6].0@[6] == '1' && t[6].0@[7] == '9' && t[6].0@.len() == 8);
    assert(t[7].0@[6] == '2' && t[7].0@.len() == 8);
    assert(t[8].0@[11] == '7' && t[8].0@.len() == 12);
    assert(t[9].0@[11] == '1' && t[9].0@.len() == 12);
    assert(t[10].0@[4] == '3' && t[10].0@[6] == '0' && t[10].0@.len() == 7);
    assert(t[11].0@[4] == '3' && t[11].0@[6] == '1' && t[11].0@.len() == 7);
}

// ---------------------------------------------------------------------------
// Lookups
// ---------------------------------------------------------------------------

/// The names that a lookup brought, whatever they are, become the account of that name
/// in that domain.
pub proof fn found_names_become_the_account(account: Seq<char>, domain: Seq<char>)
    ensures
        resolution(
            SidLookupView::Names { account: units_of(account), domain: units_of(domain) },
        ) == Ok::<_, AuditorErrorView>(account_view(domain, account)),
{
    utf16_reads_back(account);
    utf16_reads_back(domain);
}

/// Names that are no UTF-16 are an error, which says which of the two it was.
pub proof fn broken_names_are_errors(account: Seq<u16>, domain: Seq<u16>)
    ensures
        (resolution(SidLookupView::Names { account, domain }) is Err) <==> !is_utf16(account)
            || !is_utf16(domain),
        !is_utf16(account) ==> resolution(SidLookupView::Names { account, domain }) == Err::<
            ResolvedSidView,
            _,
        >(
            AuditorErrorView::Utf16Decode {
                path: "<SID name buffer>"@,
                source: "invalid utf-16: lone surrogate found"@,
            },
        ),
        is_utf16(account) && !is_utf16(domain) ==> resolution(
            SidLookupView::Names { account, domain },
        ) == Err::<ResolvedSidView, _>(
            AuditorErrorView::Utf16Decode {
                path: "<SID domain buffer>"@,
                source: "invalid utf-16: lone surrogate found"@,
            },
        ),
{
}

/// A lookup that failed is an error with its code and the SID, except for the code that
/// says that no account is mapped, and there is none at all on other systems.
pub proof fn failed_lookups_are_errors(code: u32, raw_sid: Seq<char>)
    ensures
        code != 1332 ==> resolution(SidLookupView::Failed { code, raw_sid }) == Err::<
            ResolvedSidView,
            _,
        >(AuditorErrorView::SidResolution { sid_string: raw_sid, code }),
        code == 1332 ==> resolution(SidLookupView::Failed { code, raw_sid }) == Ok::<
            _,
            AuditorErrorView,
        >(unmapped_identity(raw_sid)),
        resolution(SidLookupView::UnsupportedPlatform) == Err::<ResolvedSidView, _>(
            AuditorErrorView::NonWindowsPlatform,
        ),
{
}

/// The canonical form of a SID is the text that was read, and a stand-in where none was.
pub proof fn canonical_sid_is_what_was_read(units: Vec<u16>, text: Seq<char>)
    ensures
        units@ == units_of(text) ==> canonical_sid(SidText::Units(units)) == text,
        canonical_sid(SidText::UnsupportedPlatform) == "<non-windows>"@,
        canonical_sid(SidText::Unreadable) == "<unreadable SID>"@,
{
    utf16_reads_back(text);
}

/// Names are fetched if the call that asks for the size of the buffers succeeded or asked
/// for larger ones, and after no other error.
pub proof fn names_are_fetched_for_want_of_buffers(code: u32)
    ensures
        names_are_there(None),
        names_are_there(Some(code)) <==> code == 122,
{
}

} // verus!
