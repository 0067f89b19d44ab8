//! SIDs: from a security identifier to the name of an account.
//!
//! A SID that no account belongs to any more is orphaned. The identifiers that
//! every Windows installation has cannot be orphaned, whatever the lookup says:
//! they are known here by name.

use crate::errors::{AuditorError, AuditorErrorView};
use crate::text::same_text;
use vstd::prelude::*;

verus! {

// ---------------------------------------------------------------------------
// UTF-16
// ---------------------------------------------------------------------------

/// The first unit of a surrogate pair.
pub open spec fn is_high_surrogate(u: u16) -> bool {
    0xD800 <= u <= 0xDBFF
}

/// The second unit of a surrogate pair.
pub open spec fn is_low_surrogate(u: u16) -> bool {
    0xDC00 <= u <= 0xDFFF
}

/// The character of a surrogate pair.
pub open spec fn pair_char(high: u16, low: u16) -> char {
    (0x10000 + (high - 0xD800) * 0x400 + (low - 0xDC00)) as char
}

/// The characters that UTF-16 units stand for, with `None` for a surrogate that
/// is not part of a pair.
pub open spec fn utf16_chars(units: Seq<u16>) -> Seq<Option<char>>
    decreases units.len(),
{
    if units.len() == 0 {
        Seq::empty()
    } else if !is_high_surrogate(units[0]) && !is_low_surrogate(units[0]) {
        seq![Some(units[0] as char)] + utf16_chars(units.skip(1))
    } else if is_high_surrogate(units[0]) && units.len() > 1 && is_low_surrogate(units[1]) {
        seq![Some(pair_char(units[0], units[1]))] + utf16_chars(units.skip(2))
    } else {
        seq![None] + utf16_chars(units.skip(1))
    }
}

/// Whether every surrogate is part of a pair.
pub open spec fn is_utf16(units: Seq<u16>) -> bool {
    forall|i: int| 0 <= i < utf16_chars(units).len() ==> (#[trigger] utf16_chars(units)[i]) is Some
}

/// The text that UTF-16 units stand for, with U+FFFD for each surrogate that is
/// not part of a pair.
pub open spec fn utf16_text(units: Seq<u16>) -> Seq<char> {
    utf16_chars(units).map_values(
        |c: Option<char>|
            match c {
                Some(c) => c,
                None => '\u{FFFD}',
            },
    )
}

/// `char::from_u32` gives the character of a number, where it is one: a code
/// point that is not a surrogate.
pub assume_specification[ char::from_u32 ](i: u32) -> (r: Option<char>)
    ensures
        r == if i <= 0xD7FF || 0xE000 <= i <= 0x10FFFF {
            Some(i as char)
        } else {
            None
        },
;

fn decode_utf16(units: &[u16]) -> (r: (String, bool))
    ensures
        r.0@ == utf16_text(units@),
        r.1 == is_utf16(units@),
{
    let n: usize = units.len();
    let mut text = String::new();
    let mut paired = true;
    let mut i: usize = 0;
    let ghost mut done: Seq<Option<char>> = Seq::empty();
    assert(units@.skip(0) =~= units@);
    assert(done + utf16_chars(units@) =~= utf16_chars(units@));
    while i < n
        invariant
            n == units@.len(),
            i <= n,
            done + utf16_chars(units@.skip(i as int)) == utf16_chars(units@),
            text@ == done.map_values(
                |c: Option<char>|
                    match c {
                        Some(c) => c,
                        None => '\u{FFFD}',
                    },
            ),
            paired == (forall|k: int| 0 <= k < done.len() ==> (#[trigger] done[k]) is Some),
        decreases n - i,
    {
        let u = units[i];
        let ghost rest = units@.skip(i as int);
        let high = 0xD800 <= u && u <= 0xDBFF;
        let low = 0xDC00 <= u && u <= 0xDFFF;
        let mut code: u32 = u as u32;
        let mut width: usize = 1;
        if high && n - i > 1 {
            let v = units[i + 1];
            if 0xDC00 <= v && v <= 0xDFFF {
                code = 0x10000 + (u as u32 - 0xD800) * 0x400 + (v as u32 - 0xDC00);
                width = 2;
            }
        }
        let decoded = char::from_u32(code);
        assert(rest[0] == u);
        assert(width == 2 ==> rest[1] == units@[i + 1]);
        let ghost item: Option<char> = decoded;
        proof {
            if width == 2 {
                assert(item == Some(pair_char(rest[0], rest[1])));
            } else if !high && !low {
                assert(item == Some(rest[0] as char));
            } else {
                assert(item is None);
            }
        }
        assert(utf16_chars(rest) == seq![item] + utf16_chars(rest.skip(width as int)));
        assert(rest.skip(width as int) =~= units@.skip(i + width));
        let ghost before = done;
        match decoded {
            Some(c) => {
                text.push(c);
            },
            None => {
                text.push('\u{FFFD}');
                paired = false;
            },
        }
        proof {
            done = done.push(item);
            assert(before + (seq![item] + utf16_chars(units@.skip(i + width))) =~= done
                + utf16_chars(units@.skip(i + width)));
            assert(done.last() == item);
            if paired {
                assert(forall|k: int| 0 <= k < before.len() ==> (#[trigger] before[k]) is Some);
            } else if item is Some {
                let k = choose|k: int| 0 <= k < before.len() && !((#[trigger] before[k]) is Some);
                assert(done[k] == before[k]);
            }
        }
        i = i + width;
    }
    assert(units@.skip(i as int) =~= Seq::<u16>::empty());
    assert(done + Seq::<Option<char>>::empty() =~= done);
    (text, paired)
}

// ---------------------------------------------------------------------------
// Identities
// ---------------------------------------------------------------------------

/// The identifiers that every Windows installation has: the SID, its domain and
/// its account.
pub const WELL_KNOWN_SIDS: [(&'static str, &'static str, &'static str); 12] = [
    ("S-1-5-18", "NT AUTHORITY", "SYSTEM"),
    ("S-1-5-32-544", "BUILTIN", "Administrators"),
    ("S-1-5-11", "NT AUTHORITY", "Authenticated Users"),
    ("S-1-5-32-545", "BUILTIN", "Users"),
    ("S-1-1-0", "", "Everyone"),
    ("S-1-5-32-546", "BUILTIN", "Guests"),
    ("S-1-5-19", "NT AUTHORITY", "LOCAL SERVICE"),
    ("S-1-5-20", "NT AUTHORITY", "NETWORK SERVICE"),
    ("S-1-5-32-547", "BUILTIN", "Power Users"),
    ("S-1-5-32-551", "BUILTIN", "Backup Operators"),
    ("S-1-3-0", "", "CREATOR OWNER"),
    ("S-1-3-1", "", "CREATOR GROUP"),
];

/// The resolved identity of a SID.
#[derive(Debug, Clone)]
pub enum ResolvedSid {
    /// The SID belongs to an account.
    Account {
        account_name: String,
        domain_name: String,
        /// The domain, a backslash and the account.
        display: String,
    },
    /// No account belongs to the SID: it was deleted, most likely.
    Orphaned { raw_sid: String },
}

/// What a [`ResolvedSid`] holds.
pub enum ResolvedSidView {
    Account { account_name: Seq<char>, domain_name: Seq<char>, display: Seq<char> },
    Orphaned { raw_sid: Seq<char> },
}

impl View for ResolvedSid {
    type V = ResolvedSidView;

    open spec fn view(&self) -> ResolvedSidView {
        match *self {
            ResolvedSid::Account { account_name, domain_name, display } =>
                ResolvedSidView::Account {
                    account_name: account_name@,
                    domain_name: domain_name@,
                    display: display@,
                },
            ResolvedSid::Orphaned { raw_sid } => ResolvedSidView::Orphaned { raw_sid: raw_sid@ },
        }
    }
}

impl ResolvedSidView {
    /// What is shown of an identity.
    pub open spec fn shown(self) -> Seq<char> {
        match self {
            ResolvedSidView::Account { display, .. } => display,
            ResolvedSidView::Orphaned { raw_sid } => raw_sid,
        }
    }
}

impl ResolvedSid {
    /// What is shown of an identity, resolved or not.
    pub fn display(&self) -> (r: &str)
        ensures
            r@ == self@.shown(),
    {
        match self {
            ResolvedSid::Account { display, .. } => display.as_str(),
            ResolvedSid::Orphaned { raw_sid } => raw_sid.as_str(),
        }
    }

    /// Whether no account belongs to the SID.
    pub fn is_orphaned(&self) -> (r: bool)
        ensures
            r == (self@ is Orphaned),
    {
        match self {
            ResolvedSid::Orphaned { .. } => true,
            ResolvedSid::Account { .. } => false,
        }
    }
}

/// The identity of an account of a domain. An empty domain is not shown.
pub open spec fn account_view(domain: Seq<char>, account: Seq<char>) -> ResolvedSidView {
    ResolvedSidView::Account {
        account_name: account,
        domain_name: domain,
        display: if domain.len() == 0 {
            account
        } else {
            domain + "\\"@ + account
        },
    }
}

/// Whether a SID is one that every Windows installation has.
pub open spec fn is_well_known(sid: Seq<char>) -> bool {
    exists|k: int| 0 <= k < WELL_KNOWN_SIDS@.len() && (#[trigger] WELL_KNOWN_SIDS@[k]).0@ == sid
}

/// The identity of the first of the well-known SIDs, from the `k`-th on, that
/// is `sid`.
pub open spec fn well_known_from(sid: Seq<char>, k: int) -> Option<ResolvedSidView>
    decreases WELL_KNOWN_SIDS@.len() - k,
{
    if k < 0 || k >= WELL_KNOWN_SIDS@.len() {
        None
    } else if WELL_KNOWN_SIDS@[k].0@ == sid {
        Some(account_view(WELL_KNOWN_SIDS@[k].1@, WELL_KNOWN_SIDS@[k].2@))
    } else {
        well_known_from(sid, k + 1)
    }
}

/// The identity of a well-known SID.
pub open spec fn well_known_account(sid: Seq<char>) -> Option<ResolvedSidView> {
    well_known_from(sid, 0)
}

fn account_identity(domain_name: String, account_name: String) -> (r: ResolvedSid)
    ensures
        r@ == account_view(domain_name@, account_name@),
{
    let display = if domain_name.as_str().is_empty() {
        account_name.clone()
    } else {
        let mut d = domain_name.clone();
        d.append("\\");
        d.append(account_name.as_str());
        d
    };
    ResolvedSid::Account { account_name, domain_name, display }
}

/// The identity of a SID that every Windows installation has, and nothing for
/// any other.
pub fn try_resolve_well_known(sid_string: &str) -> (r: Option<ResolvedSid>)
    ensures
        match r {
            Some(identity) => well_known_account(sid_string@) == Some(identity@),
            None => well_known_account(sid_string@) is None,
        },
        r is Some <==> is_well_known(sid_string@),
{
    let mut k: usize = 0;
    while k < WELL_KNOWN_SIDS.len()
        invariant
            k <= WELL_KNOWN_SIDS@.len(),
            well_known_account(sid_string@) == well_known_from(sid_string@, k as int),
            forall|j: int| 0 <= j < k ==> (#[trigger] WELL_KNOWN_SIDS@[j]).0@ != sid_string@,
        decreases WELL_KNOWN_SIDS@.len() - k,
    {
        let (sid, domain, account) = WELL_KNOWN_SIDS[k];
        if same_text(sid_string, sid) {
            return Some(account_identity(domain.to_owned(), account.to_owned()));
        }
        k += 1;
    }
    None
}

/// Whether a SID is one that every Windows installation has, and so is never
/// to be flagged as orphaned.
pub fn is_well_known_sid(sid_string: &str) -> (r: bool)
    ensures
        r == is_well_known(sid_string@),
{
    let mut k: usize = 0;
    while k < WELL_KNOWN_SIDS.len()
        invariant
            k <= WELL_KNOWN_SIDS@.len(),
            forall|j: int| 0 <= j < k ==> (#[trigger] WELL_KNOWN_SIDS@[j]).0@ != sid_string@,
        decreases WELL_KNOWN_SIDS@.len() - k,
    {
        if same_text(WELL_KNOWN_SIDS[k].0, sid_string) {
            return true;
        }
        k += 1;
    }
    false
}

// ---------------------------------------------------------------------------
// Lookup
// ---------------------------------------------------------------------------

/// `LookupAccountSidW` asks for larger buffers.
pub const ERROR_INSUFFICIENT_BUFFER: u32 = 122;

/// `LookupAccountSidW` knows no account for the SID.
pub const ERROR_NONE_MAPPED: u32 = 1332;

/// Whether the names of an account are there to be fetched: the call that asks for the
/// size of the buffers succeeded, or failed for want of buffers.
pub open spec fn names_are_there(probe_error: Option<u32>) -> bool {
    probe_error is None || probe_error == Some(ERROR_INSUFFICIENT_BUFFER)
}

/// Whether the names of an account can be fetched, by the error of the call of
/// `LookupAccountSidW` that asks for the size of the buffers. That call is to
/// fail for want of buffers.
pub fn can_fetch_names(probe_error: Option<u32>) -> (r: bool)
    ensures
        r == names_are_there(probe_error),
{
    match probe_error {
        None => true,
        Some(code) => code == ERROR_INSUFFICIENT_BUFFER,
    }
}

/// What came of looking up the account of a SID.
#[derive(Debug)]
pub enum SidLookup {
    /// There is no lookup on this platform.
    UnsupportedPlatform,
    /// `LookupAccountSidW` failed with a Win32 error.
    Failed { code: u32, raw_sid: String },
    /// The UTF-16 names of the account and of its domain, without terminators.
    Names { account: Vec<u16>, domain: Vec<u16> },
}

/// What a [`SidLookup`] holds.
pub enum SidLookupView {
    UnsupportedPlatform,
    Failed { code: u32, raw_sid: Seq<char> },
    Names { account: Seq<u16>, domain: Seq<u16> },
}

impl View for SidLookup {
    type V = SidLookupView;

    open spec fn view(&self) -> SidLookupView {
        match *self {
            SidLookup::UnsupportedPlatform => SidLookupView::UnsupportedPlatform,
            SidLookup::Failed { code, raw_sid } => SidLookupView::Failed {
                code,
                raw_sid: raw_sid@,
            },
            SidLookup::Names { account, domain } => SidLookupView::Names {
                account: account@,
                domain: domain@,
            },
        }
    }
}

/// The identity of a SID for which no account was found: orphaned, unless it is one
/// that every Windows installation has.
pub open spec fn unmapped_identity(raw_sid: Seq<char>) -> ResolvedSidView {
    match well_known_account(raw_sid) {
        Some(identity) => identity,
        None => ResolvedSidView::Orphaned { raw_sid },
    }
}

/// The identity of a SID for which no account was found.
pub fn resolve_unmapped(raw_sid: String) -> (r: ResolvedSid)
    ensures
        r@ == unmapped_identity(raw_sid@),
{
    match try_resolve_well_known(raw_sid.as_str()) {
        Some(identity) => identity,
        None => ResolvedSid::Orphaned { raw_sid },
    }
}

/// The identity that a lookup leads to, or the error.
pub open spec fn resolution(lookup: SidLookupView) -> Result<ResolvedSidView, AuditorErrorView> {
    match lookup {
        SidLookupView::UnsupportedPlatform => Err(AuditorErrorView::NonWindowsPlatform),
        SidLookupView::Failed { code, raw_sid } => if code != ERROR_NONE_MAPPED {
            Err(AuditorErrorView::SidResolution { sid_string: raw_sid, code })
        } else {
            Ok(unmapped_identity(raw_sid))
        },
        SidLookupView::Names { account, domain } => if !is_utf16(account) {
            Err(
                AuditorErrorView::Utf16Decode {
                    path: "<SID name buffer>"@,
                    source: "invalid utf-16: lone surrogate found"@,
                },
            )
        } else if !is_utf16(domain) {
            Err(
                AuditorErrorView::Utf16Decode {
                    path: "<SID domain buffer>"@,
                    source: "invalid utf-16: lone surrogate found"@,
                },
            )
        } else {
            Ok(account_view(utf16_text(domain), utf16_text(account)))
        },
    }
}

/// Turns what came of a lookup into an identity. A SID without an account is
/// orphaned, unless it is one that every Windows installation has.
pub fn resolve_sid(lookup: SidLookup) -> (r: Result<ResolvedSid, AuditorError>)
    ensures
        match r {
            Ok(identity) => resolution(lookup@) == Ok::<_, AuditorErrorView>(identity@),
            Err(e) => resolution(lookup@) == Err::<ResolvedSidView, _>(e@),
        },
{
    match lookup {
        SidLookup::UnsupportedPlatform => Err(AuditorError::NonWindowsPlatform),
        SidLookup::Failed { code, raw_sid } => {
            if code != ERROR_NONE_MAPPED {
                return Err(AuditorError::SidResolution { sid_string: raw_sid, code });
            }
            Ok(resolve_unmapped(raw_sid))
        },
        SidLookup::Names { account, domain } => {
            let (account_name, account_ok) = decode_utf16(account.as_slice());
            if !account_ok {
                return Err(
                    AuditorError::Utf16Decode {
                        path: "<SID name buffer>".to_owned(),
                        source: "invalid utf-16: lone surrogate found".to_owned(),
                    },
                );
            }
            let (domain_name, domain_ok) = decode_utf16(domain.as_slice());
            if !domain_ok {
                return Err(
                    AuditorError::Utf16Decode {
                        path: "<SID domain buffer>".to_owned(),
                        source: "invalid utf-16: lone surrogate found".to_owned(),
                    },
                );
            }
            Ok(account_identity(domain_name, account_name))
        },
    }
}

/// What came of asking for the canonical form of a SID.
#[derive(Debug)]
pub enum SidText {
    /// There are no SIDs on this platform.
    UnsupportedPlatform,
    /// `ConvertSidToStringSidW` failed.
    Unreadable,
    /// The UTF-16 text, without a terminator.
    Units(Vec<u16>),
}

/// The canonical form of a SID, such as `S-1-5-32-544`, or a stand-in.
pub open spec fn canonical_sid(reading: SidText) -> Seq<char> {
    match reading {
        SidText::UnsupportedPlatform => "<non-windows>"@,
        SidText::Unreadable => "<unreadable SID>"@,
        SidText::Units(units) => utf16_text(units@),
    }
}

/// The canonical form of a SID, such as `S-1-5-32-544`, or a stand-in.
pub fn sid_to_string(reading: &SidText) -> (r: String)
    ensures
        r@ == canonical_sid(*reading),
{
    match reading {
        SidText::UnsupportedPlatform => "<non-windows>".to_owned(),
        SidText::Unreadable => "<unreadable SID>".to_owned(),
        SidText::Units(units) => decode_utf16(units.as_slice()).0,
    }
}

// ---------------------------------------------------------------------------
// Laws
// ---------------------------------------------------------------------------

proof fn lemma_well_known_from(sid: Seq<char>, k: int)
    requires
        0 <= k <= WELL_KNOWN_SIDS@.len(),
        forall|j: int| 0 <= j < k ==> (#[trigger] WELL_KNOWN_SIDS@[j]).0@ != sid,
    ensures
        well_known_from(sid, k) is Some <==> is_well_known(sid),
        well_known_from(sid, k) is Some ==> well_known_from(sid, k)->0 is Account,
    decreases WELL_KNOWN_SIDS@.len() - k,
{
    if k < WELL_KNOWN_SIDS@.len() && WELL_KNOWN_SIDS@[k].0@ != sid {
        lemma_well_known_from(sid, k + 1);
    }
}

/// A SID for which no account was found is orphaned if and only if not every Windows
/// installation has it.
pub proof fn unmapped_is_orphaned_unless_well_known(raw_sid: Seq<char>)
    ensures
        is_well_known(raw_sid) ==> unmapped_identity(raw_sid) is Account && well_known_account(
            raw_sid,
        ) == Some(unmapped_identity(raw_sid)),
        !is_well_known(raw_sid) ==> unmapped_identity(raw_sid) == (ResolvedSidView::Orphaned {
            raw_sid,
        }),
{
    lemma_well_known_from(raw_sid, 0);
}

/// A SID that every Windows installation has is never orphaned: whatever the
/// lookup came to, the identity is an account or there is an error.
pub proof fn well_known_is_never_orphaned(code: u32, sid: Seq<char>)
    requires
        is_well_known(sid),
    ensures
        !(resolution(SidLookupView::Failed { code, raw_sid: sid }) matches Ok(identity)
            && identity is Orphaned),
        code == ERROR_NONE_MAPPED ==> (resolution(
            SidLookupView::Failed { code, raw_sid: sid },
        ) matches Ok(identity) && identity is Account),
{
    lemma_well_known_from(sid, 0);
}

/// A SID is orphaned if and only if the lookup knows no account for it and not
/// every Windows installation has it.
pub proof fn orphaned_exactly_when_unmapped(lookup: SidLookupView)
    ensures
        (resolution(lookup) matches Ok(identity) && identity is Orphaned) <==> (lookup matches
            SidLookupView::Failed { code, raw_sid } && code == ERROR_NONE_MAPPED
            && !is_well_known(raw_sid)),
{
    if let SidLookupView::Failed { code, raw_sid } = lookup {
        lemma_well_known_from(raw_sid, 0);
    }
}

} // verus!
