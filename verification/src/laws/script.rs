//! The remediation script: what it says of each finding.

use crate::laws::texts::{decimals_differ, hex_digits_differ, hex_reads_back, eight_digits_suffice};
use crate::remediation::findings::{
    actionable, actionable_findings, bool_text, dedup_key, firsts, grant_key_text, guidance_text, mask_text,
    truncated, unique_findings,
};
use crate::lines::texts;
use crate::scanner::risk::{FindingView, RiskKindView};
use crate::text::{decimal, hex, lowercase};
use vstd::prelude::*;

verus! {

// ---------------------------------------------------------------------------
// What can be fixed
// ---------------------------------------------------------------------------

/// A broad grant, an inheritance break and an orphaned SID can be fixed, whatever they
/// hold; a missing DACL and cycling that nobody noticed cannot, and have their guidance.
pub proof fn what_can_be_fixed(
    trustee: Seq<char>,
    access_mask: u32,
    human: Seq<char>,
    copied: bool,
    ms: u64,
)
    ensures
        actionable(
            RiskKindView::OverPermissiveAce { trustee, access_mask, access_mask_human: human },
        ),
        actionable(RiskKindView::InheritanceBreak { had_protected_copy: copied }),
        actionable(RiskKindView::OrphanedSid { raw_sid: trustee }),
        !actionable(RiskKindView::NullDacl),
        !actionable(RiskKindView::AnomalySimulated { cycles_in_ms: ms }),
        guidance_text(RiskKindView::NullDacl) == Some(
            "NULL DACL requires manual triage — apply a restrictive explicit DACL."@,
        ),
        guidance_text(RiskKindView::AnomalySimulated { cycles_in_ms: ms }) == Some(
            "SIEM visibility gap detected ("@ + decimal(ms as nat)
                + "ms cycling). Configure audit policies to detect rapid ACL changes."@,
        ),
{
}

/// A finding has guidance if and only if it cannot be fixed.
pub proof fn guidance_is_for_the_rest(risk: RiskKindView)
    ensures
        guidance_text(risk) is Some <==> !actionable(risk),
{
}

/// Which findings can be fixed is decided for each by itself, and they stay in order.
pub proof fn fixable_findings_are_selected(
    a: Seq<FindingView>,
    b: Seq<FindingView>,
    f: FindingView,
)
    ensures
        actionable_findings(a + b) == actionable_findings(a) + actionable_findings(b),
        actionable_findings(Seq::empty()) == Seq::<FindingView>::empty(),
        actionable(f.risk) ==> actionable_findings(seq![f]) == seq![f],
        !actionable(f.risk) ==> actionable_findings(seq![f]) == Seq::<FindingView>::empty(),
    decreases b.len(),
{
    assert(actionable_findings(Seq::empty()) =~= Seq::<FindingView>::empty());
    assert(seq![f].drop_last() =~= Seq::<FindingView>::empty());
    assert(actionable(f.risk) ==> actionable_findings(seq![f]) =~= seq![f]);
    if b.len() == 0 {
        assert(a + b =~= a);
        assert(actionable_findings(a) + actionable_findings(b) =~= actionable_findings(a));
    } else {
        fixable_findings_are_selected(a, b.drop_last(), f);
        assert((a + b).drop_last() =~= a + b.drop_last());
        assert(actionable_findings(a + b) =~= actionable_findings(a) + actionable_findings(b));
    }
}

// ---------------------------------------------------------------------------
// Findings that read the same
// ---------------------------------------------------------------------------

/// Two grants that differ in the letter case of the trustee alone have one key; two that
/// differ in the trustee otherwise, in the rights or in the mask alone do not.
pub proof fn keys_tell_grants_apart(
    t: Seq<char>,
    u: Seq<char>,
    m: u32,
    n: u32,
    h: Seq<char>,
    g: Seq<char>,
)
    ensures
        ({
            let key = |trustee: Seq<char>, mask: u32, human: Seq<char>|
                dedup_key(
                    RiskKindView::OverPermissiveAce {
                        trustee,
                        access_mask: mask,
                        access_mask_human: human,
                    },
                );
            &&& key(t, m, h) == key(u, m, h) <==> lowercase(t) == lowercase(u)
            &&& key(t, m, h) == key(t, m, g) <==> h == g
            &&& m != n ==> key(t, m, h) != key(u, n, g)
        }),
{
    let a = RiskKindView::OverPermissiveAce { trustee: t, access_mask: m, access_mask_human: h };
    let b = RiskKindView::OverPermissiveAce { trustee: u, access_mask: m, access_mask_human: h };
    let c = RiskKindView::OverPermissiveAce { trustee: t, access_mask: m, access_mask_human: g };
    let d = RiskKindView::OverPermissiveAce { trustee: u, access_mask: n, access_mask_human: g };
    let head = "OPA|"@;
    let tail = "|"@ + h + "|"@ + mask_text(m);
    assert(dedup_key(a) =~= head + lowercase(t) + tail);
    assert(dedup_key(b) =~= head + lowercase(u) + tail);
    lemma_between(head, lowercase(t), lowercase(u), tail);
    let front = head + lowercase(t) + "|"@;
    let back = "|"@ + mask_text(m);
    assert(dedup_key(a) =~= front + h + back);
    assert(dedup_key(c) =~= front + g + back);
    lemma_between(front, h, g, back);
    if m != n && dedup_key(a) == dedup_key(d) {
        eight_digits_suffice(m);
        eight_digits_suffice(n);
        hex_reads_back(m as nat, 8, true);
        hex_reads_back(n as nat, 8, true);
        let x = dedup_key(a);
        assert(x.skip(x.len() - 8) =~= mask_text(m));
        assert(dedup_key(d).skip(x.len() - 8) =~= mask_text(n));
        hex_digits_differ(m, n, true);
    }
}

proof fn lemma_between(a: Seq<char>, x: Seq<char>, y: Seq<char>, b: Seq<char>)
    ensures
        a + x + b == a + y + b <==> x == y,
{
    if a + x + b == a + y + b {
        let s = a + x + b;
        let t = a + y + b;
        assert(s.len() == t.len());
        assert(x.len() == y.len());
        assert(x =~= s.subrange(a.len() as int, a.len() as int + x.len()));
        assert(y =~= t.subrange(a.len() as int, a.len() as int + y.len()));
    }
}

/// Findings of different kinds never have one key, and those of the other kinds have one
/// key only if they are the same.
pub proof fn keys_tell_kinds_apart(a: RiskKindView, b: RiskKindView)
    requires
        dedup_key(a) == dedup_key(b),
    ensures
        a is OverPermissiveAce <==> b is OverPermissiveAce,
        !(a is OverPermissiveAce) ==> a == b,
{
    reveal_strlit("OPA|");
    reveal_strlit("IB|");
    reveal_strlit("OS|");
    reveal_strlit("ND");
    reveal_strlit("AS|");
    reveal_strlit("true");
    reveal_strlit("false");
    let x = dedup_key(a);
    let y = dedup_key(b);
    lemma_key_start(a);
    lemma_key_start(b);
    match (a, b) {
        (
            RiskKindView::OrphanedSid { raw_sid: s },
            RiskKindView::OrphanedSid { raw_sid: t },
        ) => {
            assert(x.skip(3) =~= s);
            assert(y.skip(3) =~= t);
        },
        (
            RiskKindView::AnomalySimulated { cycles_in_ms: m },
            RiskKindView::AnomalySimulated { cycles_in_ms: n },
        ) => {
            assert(x.skip(3) =~= decimal(m as nat));
            assert(y.skip(3) =~= decimal(n as nat));
            decimals_differ(m as nat, n as nat);
        },
        (
            RiskKindView::InheritanceBreak { had_protected_copy: p },
            RiskKindView::InheritanceBreak { had_protected_copy: q },
        ) => {
            assert(x.skip(3) =~= bool_text(p));
            assert(y.skip(3) =~= bool_text(q));
            assert(bool_text(true)[0] == 't');
            assert(bool_text(false)[0] == 'f');
        },
        _ => {},
    }
}

proof fn lemma_key_start(a: RiskKindView)
    ensures
        dedup_key(a).len() >= 2,
        match a {
            RiskKindView::OverPermissiveAce { .. } => dedup_key(a)[0] == 'O' && dedup_key(a)[1]
                == 'P',
            RiskKindView::InheritanceBreak { .. } => dedup_key(a)[0] == 'I',
            RiskKindView::OrphanedSid { .. } => dedup_key(a)[0] == 'O' && dedup_key(a)[1] == 'S',
            RiskKindView::NullDacl => dedup_key(a)[0] == 'N',
            RiskKindView::AnomalySimulated { .. } => dedup_key(a)[0] == 'A',
        },
{
    reveal_strlit("OPA|");
    reveal_strlit("IB|");
    reveal_strlit("OS|");
    reveal_strlit("ND");
    reveal_strlit("AS|");
}

/// One more finding is shown if and only if none before it has its key, and it is shown
/// last; what was shown before stays as it was.
pub proof fn only_new_findings_are_added(s: Seq<FindingView>, f: FindingView)
    ensures
        unique_findings(Seq::empty()) == Seq::<FindingView>::empty(),
        (exists|k: int| 0 <= k < s.len() && dedup_key((#[trigger] s[k]).risk) == dedup_key(f.risk))
            ==> unique_findings(s.push(f)) == unique_findings(s),
        (forall|k: int| 0 <= k < s.len() ==> dedup_key((#[trigger] s[k]).risk) != dedup_key(f.risk))
            ==> unique_findings(s.push(f)) == unique_findings(s).push(f),
{
    assert(s.push(f).drop_last() =~= s);
    assert(unique_findings(Seq::empty()) =~= Seq::<FindingView>::empty());
}

/// The same by keys that are given.
pub proof fn only_new_keys_are_added(
    s: Seq<FindingView>,
    keys: Seq<Seq<char>>,
    f: FindingView,
    key: Seq<char>,
)
    requires
        s.len() == keys.len(),
    ensures
        firsts(Seq::empty(), Seq::empty()) == Seq::<FindingView>::empty(),
        keys.contains(key) ==> firsts(s.push(f), keys.push(key)) == firsts(s, keys),
        !keys.contains(key) ==> firsts(s.push(f), keys.push(key)) == firsts(s, keys).push(f),
{
    assert(s.push(f).drop_last() =~= s);
    assert(keys.push(key).drop_last() =~= keys);
}

// ---------------------------------------------------------------------------
// Texts
// ---------------------------------------------------------------------------

/// A description that is too long is cut to the start of it before the last space that
/// stands within the limit, or to as much as the limit allows where there is none.
pub proof fn descriptions_are_cut_at_the_last_space(desc: Seq<char>)
    requires
        desc.len() > 200,
    ensures
        ({
            let n = truncated(desc).len();
            &&& n <= 200
            &&& truncated(desc) == desc.take(n as int)
            &&& n < 200 ==> desc[n as int] == ' '
            &&& forall|i: int| n < i < 200 ==> #[trigger] desc[i] != ' '
            &&& n == 200 ==> forall|i: int| 0 <= i < 200 ==> #[trigger] desc[i] != ' '
        }),
{
    let head = desc.take(200);
    head.index_of_last_ensures(' ');
    match head.index_of_last(' ') {
        Some(end) => {
            assert(head.take(end) =~= desc.take(end));
            assert forall|i: int| end < i < 200 implies #[trigger] desc[i] != ' ' by {
                assert(head[i] == desc[i]);
            }
        },
        None => {
            assert forall|i: int| 0 <= i < 200 implies #[trigger] desc[i] != ' ' by {
                assert(head[i] == desc[i]);
                if head[i] == ' ' {
                    assert(head.contains(' '));
                }
            }
        },
    }
}

/// The key of a grant is made of the trustee in lowercase, the rights and the mask.
pub proof fn grant_keys_are_made_of_what_is_printed(t: Seq<char>, h: Seq<char>, m: u32)
    ensures
        grant_key_text(lowercase(t), h, m) == dedup_key(
            RiskKindView::OverPermissiveAce { trustee: t, access_mask: m, access_mask_human: h },
        ),
        grant_key_text(t, h, m) == "OPA|"@ + t + "|"@ + h + "|"@ + hex(m as nat, 8, true),
        mask_text(m) == hex(m as nat, 8, true),
{
}

} // verus!
