//! Texts, numbers and lines.

use crate::cli::{
    confirms, is_white_space, limit_text, trimmed_end, trimmed_start, version_text,
};
use crate::lines::{filled1, filled2, filled3, filled4, filled5, render, texts};
use crate::order::{is_sorted_from, same_rank, text_before, Ranked};
use crate::scanner::risk::ascii_lowercase;
use crate::text::{
    contains_text, decimal, digit, hex, lowercase, lower_hex_digit, map_chars, occurs_at, padded, replace_all,
    starts_with, upper_hex_digit,
};
use vstd::prelude::*;

verus! {

// ---------------------------------------------------------------------------
// Searching and replacing
// ---------------------------------------------------------------------------

/// A text holds another if and only if it is the other with something before and
/// behind it.
pub proof fn contained_text_splits(s: Seq<char>, pat: Seq<char>)
    ensures
        contains_text(s, pat) <==> exists|a: Seq<char>, b: Seq<char>| s == #[trigger] (a + pat + b),
{
    if contains_text(s, pat) {
        let i = choose|i: int| #[trigger] occurs_at(s, pat, i);
        let a = s.take(i);
        let b = s.skip(i + pat.len());
        assert(s =~= a + s.subrange(i, i + pat.len()) + b);
        assert(s == a + pat + b);
    }
    if exists|a: Seq<char>, b: Seq<char>| s == #[trigger] (a + pat + b) {
        let (a, b) = choose|a: Seq<char>, b: Seq<char>| s == #[trigger] (a + pat + b);
        let at = a.len() as int;
        assert(s.subrange(at, at + pat.len()) =~= pat);
        assert(occurs_at(s, pat, a.len() as int));
    }
}

/// A text begins with another if and only if it is the other with something behind it.
pub proof fn started_text_splits(s: Seq<char>, pat: Seq<char>)
    ensures
        starts_with(s, pat) <==> exists|rest: Seq<char>| s == #[trigger] (pat + rest),
{
    if starts_with(s, pat) {
        assert(s =~= pat + s.skip(pat.len() as int));
    }
    if exists|rest: Seq<char>| s == #[trigger] (pat + rest) {
        let rest = choose|rest: Seq<char>| s == #[trigger] (pat + rest);
        assert(s.take(pat.len() as int) =~= pat);
    }
}

/// Replacing goes from the left: what stands before the first occurrence is kept, the
/// occurrence becomes the new text, and the rest is treated alike.
pub proof fn first_place_is_replaced(a: Seq<char>, pat: Seq<char>, b: Seq<char>, to: Seq<char>)
    requires
        pat.len() > 0,
        forall|i: int| 0 <= i < a.len() ==> !#[trigger] occurs_at(a + pat + b, pat, i),
    ensures
        replace_all(a + pat + b, pat, to) == a + to + replace_all(b, pat, to),
    decreases a.len(),
{
    let s = a + pat + b;
    let n = pat.len() as int;
    let rest = replace_all(b, pat, to);
    if a.len() == 0 {
        assert(s.take(n) =~= pat);
        assert(s.skip(n) =~= b);
        assert(a + to + rest =~= to + rest);
    } else {
        assert(!occurs_at(s, pat, 0));
        assert(s.subrange(0, n) =~= s.take(n));
        let a1 = a.skip(1);
        let s1 = a1 + pat + b;
        assert(s.skip(1) =~= s1);
        assert forall|i: int| 0 <= i < a1.len() implies !#[trigger] occurs_at(s1, pat, i) by {
            if occurs_at(s1, pat, i) {
                assert(s1.subrange(i, i + n) =~= s.subrange(i + 1, i + 1 + n));
                assert(occurs_at(s, pat, i + 1));
            }
        }
        first_place_is_replaced(a1, pat, b, to);
        assert(seq![s[0]] + (a1 + to + rest) =~= a + to + rest);
    }
}

/// Writing the characters of a text one by one: each is written by itself, whatever
/// stands beside it.
pub proof fn characters_are_written_alone(a: Seq<char>, b: Seq<char>, f: spec_fn(char) -> Seq<char>)
    ensures
        map_chars(a + b, f) == map_chars(a, f) + map_chars(b, f),
        forall|c: char| #[trigger] map_chars(seq![c], f) == f(c),
    decreases b.len(),
{
    assert forall|c: char| #[trigger] map_chars(seq![c], f) == f(c) by {
        assert(seq![c].drop_last() =~= Seq::<char>::empty());
        assert(map_chars(seq![c].drop_last(), f) =~= Seq::<char>::empty());
        assert(map_chars(seq![c], f) =~= f(c));
    }
    if b.len() == 0 {
        assert(a + b =~= a);
        assert(map_chars(a, f) + map_chars(b, f) =~= map_chars(a, f));
    } else {
        characters_are_written_alone(a, b.drop_last(), f);
        assert((a + b).drop_last() =~= a + b.drop_last());
        assert(map_chars(a + b, f) =~= map_chars(a, f) + map_chars(b, f));
    }
}

// ---------------------------------------------------------------------------
// Numbers
// ---------------------------------------------------------------------------

/// The number that decimal digits stand for.
pub open spec fn number_of(s: Seq<char>) -> int
    decreases s.len(),
{
    if s.len() == 0 {
        0
    } else {
        10 * number_of(s.drop_last()) + (s.last() as u32 - 48)
    }
}

/// A number that was written in decimal is read back, and is written with digits alone
/// and without leading zeros.
pub proof fn decimal_reads_back(n: nat)
    ensures
        number_of(decimal(n)) == n,
        decimal(n).len() > 0,
        n > 0 ==> decimal(n)[0] != '0',
        n == 0 ==> decimal(n) == seq!['0'],
        forall|i: int| 0 <= i < decimal(n).len() ==> '0' <= #[trigger] decimal(n)[i] <= '9',
    decreases n,
{
    assert(digit(n % 10) as u32 == 48 + n % 10);
    if n < 10 {
        assert(decimal(n).drop_last() =~= Seq::<char>::empty());
        assert(number_of(decimal(n).drop_last()) == 0);
        assert(digit(n) as u32 == 48 + n);
    } else {
        decimal_reads_back(n / 10);
        assert(decimal(n).drop_last() =~= decimal(n / 10));
        assert forall|i: int| 0 <= i < decimal(n).len() implies '0' <= #[trigger] decimal(n)[i]
            <= '9' by {
            if i < decimal(n / 10).len() {
                assert(decimal(n)[i] == decimal(n / 10)[i]);
            }
        }
        assert(decimal(n)[0] == decimal(n / 10)[0]);
    }
}

/// Different numbers are written differently.
pub proof fn decimals_differ(m: nat, n: nat)
    ensures
        decimal(m) == decimal(n) ==> m == n,
{
    decimal_reads_back(m);
    decimal_reads_back(n);
}

/// What a hexadecimal digit of either case stands for.
pub open spec fn hex_value(c: char) -> int {
    if '0' <= c && c <= '9' {
        c as u32 - 48
    } else if 'A' <= c && c <= 'F' {
        c as u32 - 55
    } else {
        c as u32 - 87
    }
}

/// The number that hexadecimal digits stand for.
pub open spec fn hex_number_of(s: Seq<char>) -> int
    decreases s.len(),
{
    if s.len() == 0 {
        0
    } else {
        16 * hex_number_of(s.drop_last()) + hex_value(s.last())
    }
}

/// Sixteen to the power of `k`.
pub open spec fn sixteens(k: nat) -> nat
    decreases k,
{
    if k == 0 {
        1
    } else {
        16 * sixteens((k - 1) as nat)
    }
}

/// A number that was written in hexadecimal is read back, as far as its digits go, and
/// each digit has the case that was asked for.
pub proof fn hex_reads_back(n: nat, width: nat, upper: bool)
    requires
        n < sixteens(width),
    ensures
        hex(n, width, upper).len() == width,
        hex_number_of(hex(n, width, upper)) == n,
        forall|i: int|
            0 <= i < width ==> {
                let c = #[trigger] hex(n, width, upper)[i];
                ('0' <= c && c <= '9') || (upper && 'A' <= c && c <= 'F') || (!upper && 'a' <= c && c
                    <= 'f')
            },
    decreases width,
{
    if width > 0 {
        let k = (width - 1) as nat;
        let d = n % 16;
        assert(n / 16 < sixteens(k));
        hex_reads_back(n / 16, k, upper);
        let s = hex(n, width, upper);
        let head = hex(n / 16, k, upper);
        assert(s.drop_last() =~= head);
        assert(upper_hex_digit(d) as u32 == if d < 10 {
            48 + d
        } else {
            55 + d
        });
        assert(lower_hex_digit(d) as u32 == if d < 10 {
            48 + d
        } else {
            87 + d
        });
        assert(hex_value(s.last()) == d);
        assert forall|i: int| 0 <= i < width implies ({
            let c = #[trigger] s[i];
            ('0' <= c && c <= '9') || (upper && 'A' <= c && c <= 'F') || (!upper && 'a' <= c && c
                <= 'f')
        }) by {
            if i < k {
                assert(s[i] == head[i]);
            }
        }
    }
}

/// Eight digits hold any mask and any code.
pub proof fn eight_digits_suffice(n: u32)
    ensures
        (n as nat) < sixteens(8),
{
    reveal_with_fuel(sixteens, 9);
}

/// Different masks are written differently.
pub proof fn hex_digits_differ(m: u32, n: u32, upper: bool)
    ensures
        hex(m as nat, 8, upper) == hex(n as nat, 8, upper) ==> m == n,
{
    eight_digits_suffice(m);
    eight_digits_suffice(n);
    hex_reads_back(m as nat, 8, upper);
    hex_reads_back(n as nat, 8, upper);
}

/// A padded text ends with the text, is as long as was asked for or as the text, and
/// holds nothing else but the fill.
pub proof fn padding_stands_in_front(s: Seq<char>, width: nat, fill: char)
    ensures
        padded(s, width, fill).len() == if s.len() < width {
            width
        } else {
            s.len()
        },
        padded(s, width, fill).skip(padded(s, width, fill).len() - s.len()) == s,
        forall|i: int|
            0 <= i < padded(s, width, fill).len() - s.len() ==> #[trigger] padded(
                s,
                width,
                fill,
            )[i] == fill,
{
    let p = padded(s, width, fill);
    assert(p.skip(p.len() - s.len()) =~= s);
}

// ---------------------------------------------------------------------------
// Lines
// ---------------------------------------------------------------------------

/// A single line is written as it is, with a line break behind it, and no lines are
/// nothing. With [`crate::lines::render_concatenates`] this says what any lines are
/// written as.
pub proof fn one_line_is_rendered(line: Seq<char>)
    ensures
        render(seq![line]) == line.push('\n'),
        render(Seq::<Seq<char>>::empty()) == Seq::<char>::empty(),
{
    assert(seq![line].drop_last() =~= Seq::<Seq<char>>::empty());
    assert(render(Seq::<Seq<char>>::empty()) =~= Seq::<char>::empty());
    assert(render(seq![line]) =~= line.push('\n'));
}

/// Fixed lines are the texts that they are written with, in their order.
pub proof fn fixed_lines_are_kept(lines: Seq<&'static str>, i: int)
    requires
        0 <= i < lines.len(),
    ensures
        texts(lines).len() == lines.len(),
        texts(lines)[i] == lines[i]@,
{
}

/// Fields stand between the texts of a line, in their order and unchanged.
pub proof fn fields_are_kept(
    p: Seq<&'static str>,
    a: Seq<char>,
    b: Seq<char>,
    c: Seq<char>,
    d: Seq<char>,
    e: Seq<char>,
)
    ensures
        filled1(p, a) == p[0]@ + a + p[1]@,
        filled2(p, a, b) == filled1(p, a) + b + p[2]@,
        filled3(p, a, b, c) == filled2(p, a, b) + c + p[3]@,
        filled4(p, a, b, c, d) == filled3(p, a, b, c) + d + p[4]@,
        filled5(p, a, b, c, d, e) == filled4(p, a, b, c, d) + e + p[5]@,
{
}

// ---------------------------------------------------------------------------
// Order
// ---------------------------------------------------------------------------

/// Texts are ordered at the first place where they differ, by code point, and a text
/// stands before any longer text that begins with it.
pub proof fn text_order_is_lexicographic(p: Seq<char>, a: Seq<char>, b: Seq<char>)
    ensures
        a.len() > 0 && b.len() > 0 && a[0] != b[0] ==> text_before(p + a, p + b) == (a[0] < b[0]),
        b.len() > 0 ==> text_before(p, p + b),
        !text_before(p + b, p),
    decreases p.len(),
{
    if p.len() == 0 {
        assert(p + a =~= a);
        assert(p + b =~= b);
    } else {
        text_order_is_lexicographic(p.skip(1), a, b);
        assert((p + a).skip(1) =~= p.skip(1) + a);
        assert((p + b).skip(1) =~= p.skip(1) + b);
    }
}

/// What neither precedes an item nor is preceded by it.
pub open spec fn neither_precedes<T: Ranked>(x: T) -> spec_fn(T) -> bool {
    |y: T| !x.precedes(y) && !y.precedes(x)
}

/// Sorting neither loses nor adds anything, leaves items of one rank in their order,
/// and leaves nothing behind what it precedes.
pub proof fn sorting_keeps_items<T: Ranked>(s: Seq<T>, r: Seq<T>)
    requires
        is_sorted_from(s, r),
    ensures
        r.len() == s.len(),
        forall|x: T| #[trigger] r.contains(x) <==> s.contains(x),
        forall|i: int, j: int| 0 <= i < j < r.len() ==> !(#[trigger] r[j]).precedes(#[trigger] r[i]),
        forall|x: T| #[trigger] r.filter(neither_precedes(x)) == s.filter(neither_precedes(x)),
{
    s.to_multiset_ensures();
    r.to_multiset_ensures();
    assert forall|x: T| #[trigger] r.contains(x) <==> s.contains(x) by {
        assert(r.to_multiset().count(x) == s.to_multiset().count(x));
    }
    assert forall|x: T| #[trigger] r.filter(neither_precedes(x)) == s.filter(
        neither_precedes(x),
    ) by {
        assert(neither_precedes(x) =~= same_rank(x));
        assert(r.filter(same_rank(x)) == s.filter(same_rank(x)));
    }
}

// ---------------------------------------------------------------------------
// The command line
// ---------------------------------------------------------------------------

/// Whether `r` stands in `s` from `start` on, with white space before and behind it,
/// and neither starts nor ends with white space.
pub open spec fn is_trimmed_at(s: Seq<char>, r: Seq<char>, start: int) -> bool {
    &&& 0 <= start <= s.len() - r.len()
    &&& s.subrange(start, start + r.len()) == r
    &&& forall|i: int| 0 <= i < start ==> is_white_space(#[trigger] s[i])
    &&& forall|i: int| start + r.len() <= i < s.len() ==> is_white_space(#[trigger] s[i])
    &&& r.len() > 0 ==> !is_white_space(r[0]) && !is_white_space(r.last())
}

/// Trimming takes white space away from both ends and nothing else, and leaves none
/// there.
pub proof fn trimming_takes_white_space_only(s: Seq<char>)
    ensures
        exists|start: int| #[trigger] is_trimmed_at(s, trimmed_end(trimmed_start(s)), start),
{
    let t = trimmed_start(s);
    let r = trimmed_end(t);
    lemma_trimmed_start(s);
    lemma_trimmed_end(t);
    let start = s.len() - t.len();
    assert(s.subrange(start, start + r.len()) =~= t.take(r.len() as int));
    assert forall|i: int| start + r.len() <= i < s.len() implies is_white_space(
        #[trigger] s[i],
    ) by {
        assert(s[i] == t[i - start]);
    }
    assert(r.len() > 0 ==> r[0] == t[0]);
    assert(is_trimmed_at(s, r, start));
}

proof fn lemma_trimmed_start(s: Seq<char>)
    ensures
        trimmed_start(s).len() <= s.len(),
        s.skip(s.len() - trimmed_start(s).len()) == trimmed_start(s),
        forall|i: int|
            0 <= i < s.len() - trimmed_start(s).len() ==> is_white_space(#[trigger] s[i]),
        trimmed_start(s).len() > 0 ==> !is_white_space(trimmed_start(s)[0]),
    decreases s.len(),
{
    if s.len() > 0 && is_white_space(s[0]) {
        let rest = s.skip(1);
        lemma_trimmed_start(rest);
        let n = s.len() - trimmed_start(s).len();
        assert(s.skip(n) =~= rest.skip(n - 1));
        assert forall|i: int| 0 <= i < n implies is_white_space(#[trigger] s[i]) by {
            if i > 0 {
                assert(s[i] == rest[i - 1]);
            }
        }
    } else {
        assert(s.skip(0) =~= s);
    }
}

proof fn lemma_trimmed_end(s: Seq<char>)
    ensures
        trimmed_end(s).len() <= s.len(),
        s.take(trimmed_end(s).len() as int) == trimmed_end(s),
        forall|i: int| trimmed_end(s).len() <= i < s.len() ==> is_white_space(#[trigger] s[i]),
        trimmed_end(s).len() > 0 ==> !is_white_space(trimmed_end(s).last()),
    decreases s.len(),
{
    if s.len() > 0 && is_white_space(s.last()) {
        let rest = s.drop_last();
        lemma_trimmed_end(rest);
        assert(s.take(trimmed_end(s).len() as int) =~= rest.take(trimmed_end(s).len() as int));
        assert forall|i: int| trimmed_end(s).len() <= i < s.len() implies is_white_space(
            #[trigger] s[i],
        ) by {
            if i < rest.len() {
                assert(s[i] == rest[i]);
            }
        }
    } else {
        assert(s.take(s.len() as int) =~= s);
    }
}

/// A limit is shown as its number, and zero as what stands for no limit.
pub proof fn limits_are_shown(limit: nat, none: Seq<char>)
    ensures
        limit_text(0, none) == none,
        limit > 0 ==> number_of(limit_text(limit, none)) == limit,
{
    decimal_reads_back(limit);
}

/// The version line names the version and the platform.
pub proof fn version_line_names_the_platform()
    ensures
        version_text(true) == "folsec-auditor "@ + crate::VERSION@ + " ("@ + "windows"@ + ")"@,
        version_text(false) == "folsec-auditor "@ + crate::VERSION@ + " ("@
            + "non-windows (ACL scan disabled)"@ + ")"@,
{
}

/// White space is what Unicode says it is: these characters and no others.
pub proof fn white_space_is_these(c: char)
    ensures
        is_white_space(c) <==> {
            ||| '\u{9}' <= c && c <= '\u{D}'
            ||| c == ' '
            ||| c == '\u{85}'
            ||| c == '\u{A0}'
            ||| c == '\u{1680}'
            ||| '\u{2000}' <= c && c <= '\u{200A}'
            ||| c == '\u{2028}'
            ||| c == '\u{2029}'
            ||| c == '\u{202F}'
            ||| c == '\u{205F}'
            ||| c == '\u{3000}'
        },
{
}

/// An answer is a yes if and only if it is a `y` without the white space around it, in
/// either case.
pub proof fn answers_are_trimmed_and_lowered(answer: Seq<char>)
    ensures
        confirms(answer) <==> lowercase(trimmed_end(trimmed_start(answer))) == "y"@,
{
}

/// Lowercasing an ASCII text changes its capital letters to their small ones, one for one,
/// and nothing else.
pub proof fn ascii_letters_are_lowered(s: Seq<char>, i: int)
    requires
        0 <= i < s.len(),
    ensures
        ascii_lowercase(s).len() == s.len(),
        'A' <= s[i] && s[i] <= 'Z' ==> ascii_lowercase(s)[i] as u32 == s[i] as u32 + 32,
        !('A' <= s[i] && s[i] <= 'Z') ==> ascii_lowercase(s)[i] == s[i],
{
}

} // verus!
