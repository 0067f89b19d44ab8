//! Text: letter case, searching, replacing and numbers.
//!
//! A text is a sequence of characters. The functions here walk a string once
//! and state their result over that sequence.

use vstd::prelude::*;
use vstd::utf8::is_ascii_chars;

verus! {

// ---------------------------------------------------------------------------
// Letter case
// ---------------------------------------------------------------------------

/// The lowercase equivalent of a text.
pub uninterp spec fn lowercase(s: Seq<char>) -> Seq<char>;

/// The ASCII letters `A` to `Z` become `a` to `z`; every other character stays.
pub open spec fn ascii_lower(c: char) -> char {
    if 'A' <= c && c <= 'Z' {
        ((c as u32) + 32) as char
    } else {
        c
    }
}

/// `str::to_lowercase` follows the Unicode tables, which are not written out
/// here: its result is [`lowercase`]. On a text of ASCII characters alone it
/// maps each letter by itself and leaves the rest.
pub assume_specification[ str::to_lowercase ](s: &str) -> (res: String)
    ensures
        res@ == lowercase(s@),
        is_ascii_chars(s@) ==> res@ == s@.map_values(|c: char| ascii_lower(c)),
;

/// `String::push` appends one character.
pub assume_specification[ String::push ](s: &mut String, c: char)
    ensures
        final(s)@ == old(s)@.push(c),
;

// ---------------------------------------------------------------------------
// Searching
// ---------------------------------------------------------------------------

/// Whether `pat` stands in `s` from position `i` on.
pub open spec fn occurs_at(s: Seq<char>, pat: Seq<char>, i: int) -> bool {
    &&& 0 <= i
    &&& i + pat.len() <= s.len()
    &&& s.subrange(i, i + pat.len()) == pat
}

/// Whether `pat` stands anywhere in `s`.
pub open spec fn contains_text(s: Seq<char>, pat: Seq<char>) -> bool {
    exists|i: int| #[trigger] occurs_at(s, pat, i)
}

/// Whether `s` begins with `pat`.
pub open spec fn starts_with(s: Seq<char>, pat: Seq<char>) -> bool {
    pat.len() <= s.len() && s.take(pat.len() as int) == pat
}

/// The characters of a string.
pub fn chars_of(s: &str) -> (r: Vec<char>)
    ensures
        r@ == s@,
{
    let mut v: Vec<char> = Vec::new();
    for c in it: s.chars()
        invariant
            v@ == it.seq().take(it.index() as int),
    {
        v.push(c);
    }
    v
}

fn matches_at(s: &Vec<char>, pat: &Vec<char>, at: usize) -> (r: bool)
    requires
        at + pat@.len() <= s@.len(),
    ensures
        r == occurs_at(s@, pat@, at as int),
{
    let room: usize = s.len();
    let mut k: usize = 0;
    while k < pat.len()
        invariant
            k <= pat@.len(),
            room == s@.len(),
            at + pat@.len() <= room,
            forall|j: int| 0 <= j < k ==> s@[at + j] == pat@[j],
        decreases pat@.len() - k,
    {
        if s[at + k] != pat[k] {
            assert(s@.subrange(at as int, at + pat@.len())[k as int] != pat@[k as int]);
            return false;
        }
        k += 1;
    }
    assert(s@.subrange(at as int, at + pat@.len()) =~= pat@);
    true
}

/// Whether `pat` stands anywhere in `s`.
pub fn contains(s: &str, pat: &str) -> (r: bool)
    ensures
        r == contains_text(s@, pat@),
{
    let sv = chars_of(s);
    let pv = chars_of(pat);
    if pv.len() > sv.len() {
        return false;
    }
    let last: usize = sv.len() - pv.len();
    let mut i: usize = 0;
    while i <= last
        invariant
            sv@ == s@,
            pv@ == pat@,
            pv@.len() <= sv@.len(),
            last == sv@.len() - pv@.len(),
            i <= last + 1,
            forall|j: int| 0 <= j < i ==> !#[trigger] occurs_at(s@, pat@, j),
        decreases last + 1 - i,
    {
        if matches_at(&sv, &pv, i) {
            return true;
        }
        if i == last {
            return false;
        }
        i += 1;
    }
    false
}

/// Whether two strings hold the same characters.
pub fn same_text(a: &str, b: &str) -> (r: bool)
    ensures
        r == (a@ == b@),
{
    let av = chars_of(a);
    let bv = chars_of(b);
    if av.len() != bv.len() {
        return false;
    }
    let same = matches_at(&av, &bv, 0);
    assert(a@.subrange(0, b@.len() as int) =~= a@);
    same
}

// ---------------------------------------------------------------------------
// Replacing
// ---------------------------------------------------------------------------

/// `s` with every occurrence of `pat` replaced by `to`, from the left and
/// without looking into what was put in.
pub open spec fn replace_all(s: Seq<char>, pat: Seq<char>, to: Seq<char>) -> Seq<char>
    decreases s.len(),
{
    if pat.len() == 0 || s.len() < pat.len() {
        s
    } else if s.take(pat.len() as int) == pat {
        to + replace_all(s.skip(pat.len() as int), pat, to)
    } else {
        seq![s[0]] + replace_all(s.skip(1), pat, to)
    }
}

/// Replaces every occurrence of `pat` by `to`.
pub fn replace(s: &str, pat: &str, to: &str) -> (r: String)
    requires
        pat@.len() > 0,
    ensures
        r@ == replace_all(s@, pat@, to@),
{
    let sv = chars_of(s);
    let pv = chars_of(pat);
    let mut out = String::new();
    let mut i: usize = 0;
    assert(s@.skip(0) =~= s@);
    while i < sv.len()
        invariant
            sv@ == s@,
            pv@ == pat@,
            pv@.len() > 0,
            i <= sv@.len(),
            out@ + replace_all(s@.skip(i as int), pat@, to@) == replace_all(s@, pat@, to@),
        decreases sv@.len() - i,
    {
        let ghost rest = s@.skip(i as int);
        if pv.len() <= sv.len() - i && matches_at(&sv, &pv, i) {
            assert(rest.take(pat@.len() as int) =~= s@.subrange(i as int, i + pat@.len()));
            assert(rest.skip(pat@.len() as int) =~= s@.skip(i + pat@.len()));
            let ghost before = out@;
            out.append(to);
            i = i + pv.len();
            assert(out@ + replace_all(s@.skip(i as int), pat@, to@) =~= before + (to@
                + replace_all(s@.skip(i as int), pat@, to@)));
        } else {
            assert(rest.len() >= pat@.len() ==> rest.take(pat@.len() as int) =~= s@.subrange(
                i as int,
                i + pat@.len(),
            ));
            assert(rest.skip(1) =~= s@.skip(i + 1));
            let ghost before = out@;
            out.push(sv[i]);
            i += 1;
            proof {
                let tail = replace_all(s@.skip(i as int), pat@, to@);
                assert(out@ + tail =~= before + (seq![rest[0]] + tail));
                if rest.len() < pat@.len() {
                    assert(replace_all(rest, pat@, to@) == rest);
                    assert(tail == s@.skip(i as int));
                    assert(rest =~= seq![rest[0]] + tail);
                }
            }
        }
    }
    assert(s@.skip(i as int) =~= Seq::<char>::empty());
    assert(out@ + Seq::<char>::empty() =~= out@);
    out
}

/// Where a text does not occur, nothing is replaced.
pub proof fn unused_place_is_kept(s: Seq<char>, pat: Seq<char>, to: Seq<char>)
    requires
        !contains_text(s, pat),
    ensures
        replace_all(s, pat, to) == s,
    decreases s.len(),
{
    if pat.len() > 0 && s.len() >= pat.len() {
        assert(s.subrange(0, pat.len() as int) =~= s.take(pat.len() as int));
        assert(!occurs_at(s, pat, 0));
        let rest = s.skip(1);
        if contains_text(rest, pat) {
            let i = choose|i: int| occurs_at(rest, pat, i);
            assert(rest.subrange(i, i + pat.len()) =~= s.subrange(i + 1, i + 1 + pat.len()));
            assert(occurs_at(s, pat, i + 1));
        }
        unused_place_is_kept(rest, pat, to);
        assert(seq![s[0]] + rest =~= s);
    }
}

/// Where a text occurs once, it is replaced there, and the rest is kept.
pub proof fn one_place_is_replaced(
    before: Seq<char>,
    pat: Seq<char>,
    after: Seq<char>,
    to: Seq<char>,
)
    requires
        pat.len() > 0,
        !before.contains(pat[0]),
        !contains_text(after, pat),
    ensures
        replace_all(before + pat + after, pat, to) == before + to + after,
    decreases before.len(),
{
    let s = before + pat + after;
    let n = pat.len() as int;
    if before.len() == 0 {
        assert(s.take(n) =~= pat);
        assert(s.skip(n) =~= after);
        unused_place_is_kept(after, pat, to);
        assert(before + to + after =~= to + after);
    } else {
        assert(s[0] == before[0]);
        assert(before.contains(before[0]));
        assert(s.take(n) != pat) by {
            assert(s.take(n)[0] == s[0]);
        }
        let rest = before.skip(1);
        assert(!rest.contains(pat[0])) by {
            if rest.contains(pat[0]) {
                let i = choose|i: int| 0 <= i < rest.len() && rest[i] == pat[0];
                assert(before[i + 1] == pat[0]);
            }
        }
        assert(s.skip(1) =~= rest + pat + after);
        one_place_is_replaced(rest, pat, after, to);
        assert(seq![s[0]] + (rest + to + after) =~= before + to + after);
    }
}

/// Each character of `s` written as `f` writes it, one after the other.
pub open spec fn map_chars(s: Seq<char>, f: spec_fn(char) -> Seq<char>) -> Seq<char>
    decreases s.len(),
{
    if s.len() == 0 {
        Seq::empty()
    } else {
        map_chars(s.drop_last(), f) + f(s.last())
    }
}

// ---------------------------------------------------------------------------
// Numbers
// ---------------------------------------------------------------------------

/// The character of a digit below ten.
pub open spec fn digit(d: nat) -> char {
    (48 + d) as char
}

/// The decimal digits of a number.
pub open spec fn decimal(n: nat) -> Seq<char>
    decreases n,
{
    if n < 10 {
        seq![digit(n)]
    } else {
        decimal(n / 10).push(digit(n % 10))
    }
}

/// The digit of a number below sixteen, with `A` to `F` above nine.
pub open spec fn upper_hex_digit(d: nat) -> char {
    if d < 10 {
        (48 + d) as char
    } else {
        (55 + d) as char
    }
}

/// The digit of a number below sixteen, with `a` to `f` above nine.
pub open spec fn lower_hex_digit(d: nat) -> char {
    if d < 10 {
        (48 + d) as char
    } else {
        (87 + d) as char
    }
}

/// The last `width` hexadecimal digits of a number.
pub open spec fn hex(n: nat, width: nat, upper: bool) -> Seq<char>
    decreases width,
{
    if width == 0 {
        Seq::empty()
    } else {
        hex(n / 16, (width - 1) as nat, upper).push(
            if upper {
                upper_hex_digit(n % 16)
            } else {
                lower_hex_digit(n % 16)
            },
        )
    }
}

/// `s` behind as many `fill` as make it `width` characters long.
pub open spec fn padded(s: Seq<char>, width: nat, fill: char) -> Seq<char> {
    if s.len() >= width {
        s
    } else {
        Seq::new((width - s.len()) as nat, |i: int| fill) + s
    }
}

fn digit_char(d: u8) -> (c: char)
    requires
        d < 10,
    ensures
        c == digit(d as nat),
{
    (48 + d) as char
}

/// Writes a number in decimal.
pub fn decimal_text(n: u128) -> (r: String)
    ensures
        r@ == decimal(n as nat),
    decreases n,
{
    if n < 10 {
        let mut s = String::new();
        s.push(digit_char(n as u8));
        assert(s@ =~= decimal(n as nat));
        s
    } else {
        let mut s = decimal_text(n / 10);
        s.push(digit_char((n % 10) as u8));
        s
    }
}

/// Writes the last `width` hexadecimal digits of a number.
pub fn hex_text(n: u32, width: u32, upper: bool) -> (r: String)
    ensures
        r@ == hex(n as nat, width as nat, upper),
    decreases width,
{
    if width == 0 {
        String::new()
    } else {
        let mut s = hex_text(n / 16, width - 1, upper);
        let d: u8 = (n % 16) as u8;
        if d < 10 {
            s.push((48 + d) as char);
        } else if upper {
            s.push((55 + d) as char);
        } else {
            s.push((87 + d) as char);
        }
        s
    }
}

/// Writes `s` behind as many `fill` as make it `width` characters long.
pub fn pad_text(s: String, width: usize, fill: char) -> (r: String)
    ensures
        r@ == padded(s@, width as nat, fill),
{
    let len: usize = s.as_str().unicode_len();
    if len >= width {
        s
    } else {
        let mut r = String::new();
        let mut k: usize = 0;
        while k < width - len
            invariant
                len < width,
                k <= width - len,
                r@ =~= Seq::new(k as nat, |i: int| fill),
            decreases width - len - k,
        {
            r.push(fill);
            k += 1;
        }
        r.append(s.as_str());
        r
    }
}

} // verus!
