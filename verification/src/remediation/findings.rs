//! Findings as the remediation script shows them.

use super::fixed::{ANOMALY_GUIDANCE, NULL_DACL_GUIDANCE};
use crate::lines::{fill1, filled1};
use crate::scanner::risk::{finding_views, FindingView, RiskFinding, RiskKind, RiskKindView, Severity};
use crate::text::{chars_of, decimal, decimal_text, hex, hex_text, lowercase, map_chars, same_text};
use vstd::prelude::*;

verus! {

// ---------------------------------------------------------------------------
// What can be fixed
// ---------------------------------------------------------------------------

/// Whether a risk can be fixed by the script.
pub open spec fn actionable(risk: RiskKindView) -> bool {
    risk is OverPermissiveAce || risk is InheritanceBreak || risk is OrphanedSid
}

/// What a finding that cannot be fixed by the script asks of the administrator.
pub open spec fn guidance_text(risk: RiskKindView) -> Option<Seq<char>> {
    match risk {
        RiskKindView::NullDacl => Some(NULL_DACL_GUIDANCE@),
        RiskKindView::AnomalySimulated { cycles_in_ms } => Some(
            filled1(ANOMALY_GUIDANCE@, decimal(cycles_in_ms as nat)),
        ),
        _ => None,
    }
}

/// The findings that can be fixed by the script.
pub open spec fn actionable_findings(s: Seq<FindingView>) -> Seq<FindingView>
    decreases s.len(),
{
    if s.len() == 0 {
        Seq::empty()
    } else if actionable(s.last().risk) {
        actionable_findings(s.drop_last()).push(s.last())
    } else {
        actionable_findings(s.drop_last())
    }
}

/// Whether a risk can be fixed by the script.
pub fn is_actionable(risk: &RiskKind) -> (r: bool)
    ensures
        r == actionable(risk@),
{
    match risk {
        RiskKind::OverPermissiveAce { .. } => true,
        RiskKind::InheritanceBreak { .. } => true,
        RiskKind::OrphanedSid { .. } => true,
        RiskKind::NullDacl => false,
        RiskKind::AnomalySimulated { .. } => false,
    }
}

/// What a finding asks of the administrator: nothing, where the script can fix it.
pub fn manual_guidance(risk: &RiskKind) -> (r: Option<String>)
    ensures
        match r {
            Some(text) => guidance_text(risk@) == Some(text@),
            None => guidance_text(risk@) is None,
        },
        r is Some <==> !actionable(risk@),
{
    match risk {
        RiskKind::NullDacl => Some(NULL_DACL_GUIDANCE.to_owned()),
        RiskKind::AnomalySimulated { cycles_in_ms } => {
            let ms = decimal_text(*cycles_in_ms as u128);
            Some(fill1(ANOMALY_GUIDANCE.as_slice(), ms.as_str()))
        },
        _ => None,
    }
}

/// The number of findings that can be fixed by the script.
pub fn count_actionable(findings: &[RiskFinding]) -> (r: usize)
    ensures
        r == actionable_findings(finding_views(findings@)).len(),
{
    let ghost s = finding_views(findings@);
    let mut n: usize = 0;
    let mut k: usize = 0;
    while k < findings.len()
        invariant
            k <= findings@.len(),
            s == finding_views(findings@),
            n == actionable_findings(s.take(k as int)).len(),
            n <= k,
        decreases findings@.len() - k,
    {
        assert(s.take(k + 1).drop_last() =~= s.take(k as int));
        if is_actionable(&findings[k].risk) {
            n += 1;
        }
        k += 1;
    }
    assert(s.take(k as int) =~= s);
    n
}

/// How much a severity weighs in the score of a folder.
pub open spec fn points(severity: Severity) -> nat {
    match severity {
        Severity::Critical => 10,
        Severity::High => 5,
        Severity::Medium => 2,
        Severity::Low => 1,
        Severity::Info => 0,
    }
}

/// How much a severity weighs in the score of a folder.
pub fn severity_points(severity: &Severity) -> (r: u32)
    ensures
        r == points(*severity),
{
    match severity {
        Severity::Critical => 10,
        Severity::High => 5,
        Severity::Medium => 2,
        Severity::Low => 1,
        Severity::Info => 0,
    }
}

// ---------------------------------------------------------------------------
// Findings that read the same
// ---------------------------------------------------------------------------

/// The word for a truth value.
pub open spec fn bool_text(b: bool) -> Seq<char> {
    if b {
        "true"@
    } else {
        "false"@
    }
}

/// The word for a truth value.
pub fn bool_word(b: bool) -> (r: &'static str)
    ensures
        r@ == bool_text(b),
{
    if b {
        "true"
    } else {
        "false"
    }
}

/// An access mask as the script shows it.
pub open spec fn mask_text(access_mask: u32) -> Seq<char> {
    hex(access_mask as nat, 8, true)
}

/// Writes an access mask as the script shows it.
pub fn mask_hex(access_mask: u32) -> (r: String)
    ensures
        r@ == mask_text(access_mask),
{
    hex_text(access_mask, 8, true)
}

/// The key of a broad grant, by the trustee in lowercase.
pub open spec fn grant_key_text(
    trustee_lower: Seq<char>,
    access_mask_human: Seq<char>,
    access_mask: u32,
) -> Seq<char> {
    "OPA|"@ + trustee_lower + "|"@ + access_mask_human + "|"@ + mask_text(access_mask)
}

/// What two findings on one path have in common if the script shows them as one.
///
/// The key is made of the fields that the script prints. One grant is often split
/// into several entries that differ in how they are inherited, and such entries have
/// one key. The case of a trustee depends on how its SID was resolved, so it takes no
/// part.
pub open spec fn dedup_key(risk: RiskKindView) -> Seq<char> {
    match risk {
        RiskKindView::OverPermissiveAce { trustee, access_mask, access_mask_human } =>
            grant_key_text(lowercase(trustee), access_mask_human, access_mask),
        RiskKindView::InheritanceBreak { had_protected_copy } => "IB|"@ + bool_text(
            had_protected_copy,
        ),
        RiskKindView::OrphanedSid { raw_sid } => "OS|"@ + raw_sid,
        RiskKindView::NullDacl => "ND"@,
        RiskKindView::AnomalySimulated { cycles_in_ms } => "AS|"@ + decimal(cycles_in_ms as nat),
    }
}

/// Writes the key of a broad grant, by the trustee in lowercase.
pub fn grant_key(trustee_lower: &str, access_mask_human: &str, access_mask: u32) -> (r: String)
    ensures
        r@ == grant_key_text(trustee_lower@, access_mask_human@, access_mask),
{
    let mut key = "OPA|".to_owned();
    key.append(trustee_lower);
    key.append("|");
    key.append(access_mask_human);
    key.append("|");
    key.append(mask_hex(access_mask).as_str());
    key
}

/// What two findings on one path have in common if the script shows them as one.
pub fn finding_dedup_key(finding: &RiskFinding) -> (r: String)
    ensures
        r@ == dedup_key(finding@.risk),
{
    match &finding.risk {
        RiskKind::OverPermissiveAce { trustee, access_mask, access_mask_human } => {
            let trustee_lower = trustee.as_str().to_lowercase();
            grant_key(trustee_lower.as_str(), access_mask_human.as_str(), *access_mask)
        },
        RiskKind::InheritanceBreak { had_protected_copy } => {
            let mut key = "IB|".to_owned();
            key.append(bool_word(*had_protected_copy));
            key
        },
        RiskKind::OrphanedSid { raw_sid } => {
            let mut key = "OS|".to_owned();
            key.append(raw_sid.as_str());
            key
        },
        RiskKind::NullDacl => "ND".to_owned(),
        RiskKind::AnomalySimulated { cycles_in_ms } => {
            let mut key = "AS|".to_owned();
            let ms = decimal_text(*cycles_in_ms as u128);
            key.append(ms.as_str());
            key
        },
    }
}

/// Whether one of the findings has this key.
pub open spec fn has_key(s: Seq<FindingView>, key: Seq<char>) -> bool {
    exists|k: int| 0 <= k < s.len() && dedup_key((#[trigger] s[k]).risk) == key
}

/// The first finding of each key.
pub open spec fn unique_findings(s: Seq<FindingView>) -> Seq<FindingView>
    decreases s.len(),
{
    if s.len() == 0 {
        Seq::empty()
    } else if has_key(s.drop_last(), dedup_key(s.last().risk)) {
        unique_findings(s.drop_last())
    } else {
        unique_findings(s.drop_last()).push(s.last())
    }
}

/// What a list of findings holds.
pub open spec fn ref_views(s: Seq<&RiskFinding>) -> Seq<FindingView> {
    s.map_values(|f: &RiskFinding| f@)
}

/// What a list of keys holds.
pub open spec fn key_views(s: Seq<String>) -> Seq<Seq<char>> {
    s.map_values(|k: String| k@)
}

/// The keys of findings.
pub open spec fn keys_of(s: Seq<FindingView>) -> Seq<Seq<char>> {
    s.map_values(|f: FindingView| dedup_key(f.risk))
}

/// The first finding of each of the given keys.
pub open spec fn firsts(s: Seq<FindingView>, keys: Seq<Seq<char>>) -> Seq<FindingView>
    recommends
        s.len() == keys.len(),
    decreases s.len(),
{
    if s.len() == 0 {
        Seq::empty()
    } else if keys.drop_last().contains(keys.last()) {
        firsts(s.drop_last(), keys.drop_last())
    } else {
        firsts(s.drop_last(), keys.drop_last()).push(s.last())
    }
}

/// By the keys of the findings themselves, that is the first finding of each key.
proof fn lemma_firsts(s: Seq<FindingView>)
    ensures
        unique_findings(s) == firsts(s, keys_of(s)),
    decreases s.len(),
{
    if s.len() > 0 {
        let head = s.drop_last();
        let key = dedup_key(s.last().risk);
        lemma_firsts(head);
        assert(keys_of(s).drop_last() =~= keys_of(head));
        if has_key(head, key) {
            let k = choose|k: int| 0 <= k < head.len() && dedup_key((#[trigger] head[k]).risk) == key;
            assert(keys_of(head)[k] == key);
        }
        if keys_of(head).contains(key) {
            let k = choose|k: int| 0 <= k < head.len() && keys_of(head)[k] == key;
            assert(dedup_key(head[k].risk) == key);
        }
    }
}

/// Whether one of the first `n` keys is this one.
fn is_among(keys: &Vec<String>, n: usize, key: &str) -> (r: bool)
    requires
        n <= keys@.len(),
    ensures
        r == key_views(keys@).take(n as int).contains(key@),
{
    let ghost front = key_views(keys@).take(n as int);
    let mut j: usize = 0;
    while j < n
        invariant
            j <= n <= keys@.len(),
            front == key_views(keys@).take(n as int),
            forall|i: int| 0 <= i < j ==> #[trigger] front[i] != key@,
        decreases n - j,
    {
        assert(front[j as int] == keys@[j as int]@);
        if same_text(keys[j].as_str(), key) {
            return true;
        }
        j += 1;
    }
    false
}

/// Leaves the first finding of each of the given keys.
pub fn first_of_each_key<'a>(findings: &Vec<&'a RiskFinding>, keys: &Vec<String>) -> (r: Vec<
    &'a RiskFinding,
>)
    requires
        findings@.len() == keys@.len(),
    ensures
        ref_views(r@) == firsts(ref_views(findings@), key_views(keys@)),
{
    let ghost s = ref_views(findings@);
    let ghost all = key_views(keys@);
    let mut out: Vec<&'a RiskFinding> = Vec::new();
    let mut k: usize = 0;
    assert(ref_views(out@) =~= firsts(s.take(0), all.take(0)));
    while k < findings.len()
        invariant
            k <= findings@.len(),
            findings@.len() == keys@.len(),
            s == ref_views(findings@),
            all == key_views(keys@),
            ref_views(out@) == firsts(s.take(k as int), all.take(k as int)),
        decreases findings@.len() - k,
    {
        let ghost before = out@;
        proof {
            assert(s.take(k + 1).drop_last() =~= s.take(k as int));
            assert(all.take(k + 1).drop_last() =~= all.take(k as int));
            assert(all.take(k + 1).last() == keys@[k as int]@);
        }
        if !is_among(keys, k, keys[k].as_str()) {
            out.push(findings[k]);
            assert(ref_views(out@) =~= ref_views(before).push(s[k as int]));
        }
        k += 1;
    }
    assert(s.take(k as int) =~= s);
    assert(all.take(k as int) =~= all);
    out
}

/// Leaves the first finding of each key.
pub fn dedup_findings<'a>(findings: &Vec<&'a RiskFinding>) -> (r: Vec<&'a RiskFinding>)
    ensures
        ref_views(r@) == unique_findings(ref_views(findings@)),
{
    let ghost s = ref_views(findings@);
    let mut keys: Vec<String> = Vec::new();
    let mut k: usize = 0;
    while k < findings.len()
        invariant
            k <= findings@.len(),
            s == ref_views(findings@),
            key_views(keys@) =~= keys_of(s).take(k as int),
        decreases findings@.len() - k,
    {
        let ghost before = keys@;
        keys.push(finding_dedup_key(findings[k]));
        assert(key_views(keys@) =~= key_views(before).push(keys_of(s)[k as int]));
        k += 1;
    }
    proof {
        assert(key_views(keys@) =~= keys_of(s));
        assert(keys@.len() == key_views(keys@).len());
        lemma_firsts(s);
    }
    first_of_each_key(findings, &keys)
}

// ---------------------------------------------------------------------------
// Texts
// ---------------------------------------------------------------------------

/// A character inside single quotes.
pub open spec fn quoted_char(c: char) -> Seq<char> {
    if c == '\'' {
        seq!['\'', '\'']
    } else {
        seq![c]
    }
}

/// A text inside single quotes: each single quote is written twice.
pub open spec fn escaped(text: Seq<char>) -> Seq<char> {
    map_chars(text, |c: char| quoted_char(c))
}

/// Writes a path for use inside single quotes.
pub fn escape_ps_path(path: &str) -> (r: String)
    ensures
        r@ == escaped(path@),
{
    let chars = chars_of(path);
    let mut out = String::new();
    let mut k: usize = 0;
    while k < chars.len()
        invariant
            chars@ == path@,
            k <= chars@.len(),
            out@ == escaped(path@.take(k as int)),
        decreases chars@.len() - k,
    {
        let ghost before = out@;
        if chars[k] == '\'' {
            out.push('\'');
        }
        out.push(chars[k]);
        proof {
            assert(path@.take(k + 1).drop_last() =~= path@.take(k as int));
            assert(out@ =~= before + quoted_char(path@[k as int]));
        }
        k += 1;
    }
    assert(path@.take(k as int) =~= path@);
    out
}

/// The longest description that is shown whole, in characters.
pub const MAX_DESCRIPTION: usize = 200;

/// A description as comments show it: where it is too long, it is cut at the last
/// space within the limit, or at the limit where there is none.
pub open spec fn truncated(desc: Seq<char>) -> Seq<char> {
    if desc.len() <= MAX_DESCRIPTION {
        desc
    } else {
        let head = desc.take(MAX_DESCRIPTION as int);
        match head.index_of_last(' ') {
            Some(end) => head.take(end),
            None => head,
        }
    }
}

/// Cuts a description to what comments show of it.
pub fn truncate_desc(desc: &str) -> (r: &str)
    ensures
        r@ == truncated(desc@),
{
    let chars = chars_of(desc);
    if chars.len() <= MAX_DESCRIPTION {
        return desc;
    }
    let ghost head = desc@.take(MAX_DESCRIPTION as int);
    proof {
        head.index_of_last_ensures(' ');
    }
    let mut k: usize = MAX_DESCRIPTION;
    while k > 0
        invariant
            chars@ == desc@,
            chars@.len() > MAX_DESCRIPTION,
            k <= MAX_DESCRIPTION,
            head == desc@.take(MAX_DESCRIPTION as int),
            forall|j: int| k <= j < MAX_DESCRIPTION ==> #[trigger] head[j] != ' ',
            match head.index_of_last(' ') {
                Some(end) => 0 <= end < head.len() && head[end] == ' ' && forall|j: int|
                    end < j < head.len() ==> head[j] != ' ',
                None => !head.contains(' '),
            },
        decreases k,
    {
        if chars[k - 1] == ' ' {
            assert(head[k - 1] == ' ');
            assert(head.contains(' '));
            assert(head.index_of_last(' ') == Some(k - 1));
            assert(head.take(k - 1) =~= desc@.subrange(0, k - 1));
            return desc.substring_char(0, k - 1);
        }
        assert(head[k - 1] != ' ');
        k -= 1;
    }
    assert(!head.contains(' '));
    assert(head =~= desc@.subrange(0, MAX_DESCRIPTION as int));
    desc.substring_char(0, MAX_DESCRIPTION)
}

// ---------------------------------------------------------------------------
// Laws
// ---------------------------------------------------------------------------

/// What PowerShell reads of a text behind an opening single quote: the text up to
/// the closing quote, with two quotes read as one, and what stands behind it.
pub open spec fn read_quoted(s: Seq<char>) -> Option<(Seq<char>, Seq<char>)>
    decreases s.len(),
{
    if s.len() == 0 {
        None
    } else if s[0] != '\'' {
        match read_quoted(s.skip(1)) {
            Some((text, rest)) => Some((seq![s[0]] + text, rest)),
            None => None,
        }
    } else if s.len() > 1 && s[1] == '\'' {
        match read_quoted(s.skip(2)) {
            Some((text, rest)) => Some((seq!['\''] + text, rest)),
            None => None,
        }
    } else {
        Some((Seq::empty(), s.skip(1)))
    }
}

proof fn lemma_escaped_first(text: Seq<char>)
    requires
        text.len() > 0,
    ensures
        escaped(text) == quoted_char(text[0]) + escaped(text.skip(1)),
    decreases text.len(),
{
    let rest = text.skip(1);
    if text.len() == 1 {
        assert(text.drop_last() =~= Seq::<char>::empty());
        assert(rest =~= Seq::<char>::empty());
        assert(escaped(rest) =~= Seq::<char>::empty());
        assert(escaped(text.drop_last()) =~= Seq::<char>::empty());
        assert(escaped(text) =~= quoted_char(text[0]) + escaped(rest));
    } else {
        lemma_escaped_first(text.drop_last());
        assert(text.drop_last().skip(1) =~= rest.drop_last());
        assert(text.drop_last()[0] == text[0]);
        assert(rest.last() == text.last());
        assert(escaped(text) =~= quoted_char(text[0]) + escaped(rest));
    }
}

/// A path that was written inside single quotes is read back whole, whatever it
/// holds, and the quotes end where the path ends.
pub proof fn escaped_reads_back(path: Seq<char>, rest: Seq<char>)
    requires
        rest.len() == 0 || rest[0] != '\'',
    ensures
        read_quoted(escaped(path) + seq!['\''] + rest) == Some((path, rest)),
    decreases path.len(),
{
    let s = escaped(path) + seq!['\''] + rest;
    if path.len() == 0 {
        assert(s =~= seq!['\''] + rest);
        assert(s.skip(1) =~= rest);
        assert(read_quoted(s) == Some((Seq::<char>::empty(), rest)));
        assert(path =~= Seq::<char>::empty());
    } else {
        lemma_escaped_first(path);
        escaped_reads_back(path.skip(1), rest);
        let tail = escaped(path.skip(1)) + seq!['\''] + rest;
        assert(s =~= quoted_char(path[0]) + tail);
        assert(path =~= seq![path[0]] + path.skip(1));
        if path[0] == '\'' {
            assert(s.skip(2) =~= tail);
        } else {
            assert(s.skip(1) =~= tail);
        }
    }
}

/// A path without single quotes is written as it is.
pub proof fn plain_path_is_kept(path: Seq<char>)
    requires
        !path.contains('\''),
    ensures
        escaped(path) == path,
    decreases path.len(),
{
    if path.len() > 0 {
        assert(path[path.len() - 1] != '\'') by {
            assert(path.contains(path[path.len() - 1]));
        }
        assert(!path.drop_last().contains('\'')) by {
            if path.drop_last().contains('\'') {
                let i = choose|i: int| 0 <= i < path.len() - 1 && path.drop_last()[i] == '\'';
                assert(path[i] == '\'');
            }
        }
        plain_path_is_kept(path.drop_last());
        assert(escaped(path) =~= path);
    } else {
        assert(escaped(path) =~= path);
    }
}

/// What comments show of a description is the start of it, is no longer than the
/// limit, and is all of it where all of it is no longer.
pub proof fn truncated_is_a_start(desc: Seq<char>)
    ensures
        truncated(desc).is_prefix_of(desc),
        truncated(desc).len() <= MAX_DESCRIPTION,
        desc.len() <= MAX_DESCRIPTION ==> truncated(desc) == desc,
{
    if desc.len() > MAX_DESCRIPTION {
        desc.take(MAX_DESCRIPTION as int).index_of_last_ensures(' ');
    }
}

/// Of the findings of one key the first stays, and no other.
pub proof fn unique_keeps_each_key_once(s: Seq<FindingView>)
    ensures
        forall|key: Seq<char>| #[trigger] has_key(unique_findings(s), key) == has_key(s, key),
        forall|i: int, j: int|
            0 <= i < j < unique_findings(s).len() ==> dedup_key(
                (#[trigger] unique_findings(s)[i]).risk,
            ) != dedup_key((#[trigger] unique_findings(s)[j]).risk),
        unique_findings(s).len() <= s.len(),
    decreases s.len(),
{
    if s.len() > 0 {
        let before = s.drop_last();
        let last = dedup_key(s.last().risk);
        unique_keeps_each_key_once(before);
        let u = unique_findings(before);
        let v = unique_findings(s);
        assert forall|key: Seq<char>| #[trigger] has_key(v, key) == has_key(s, key) by {
            assert(has_key(u, key) == has_key(before, key));
            if has_key(s, key) {
                let k = choose|k: int| 0 <= k < s.len() && dedup_key((#[trigger] s[k]).risk) == key;
                if k < s.len() - 1 {
                    assert(before[k] == s[k]);
                    let m = choose|m: int|
                        0 <= m < u.len() && dedup_key((#[trigger] u[m]).risk) == key;
                    assert(v[m] == u[m]);
                } else if has_key(before, last) {
                    assert(has_key(u, last));
                } else {
                    assert(v[v.len() - 1] == s.last());
                }
            }
            if has_key(v, key) {
                let m = choose|m: int| 0 <= m < v.len() && dedup_key((#[trigger] v[m]).risk) == key;
                if m < u.len() {
                    assert(u[m] == v[m]);
                    assert(has_key(before, key));
                    let k = choose|k: int|
                        0 <= k < before.len() && dedup_key((#[trigger] before[k]).risk) == key;
                    assert(s[k] == before[k]);
                } else {
                    assert(s[s.len() - 1] == v[m]);
                }
            }
        }
        assert forall|i: int, j: int| 0 <= i < j < v.len() implies dedup_key(
            (#[trigger] v[i]).risk,
        ) != dedup_key((#[trigger] v[j]).risk) by {
            if j < u.len() {
                assert(u[i] == v[i] && u[j] == v[j]);
            } else {
                assert(u[i] == v[i]);
                assert(has_key(u, last) == has_key(before, last));
            }
        }
    }
}

} // verus!
