//! What the command line says and understands.

use crate::lines::{fill2, filled2};
use crate::text::{ascii_lower, chars_of, decimal, decimal_text, lowercase, same_text};
use crate::VERSION;
use vstd::prelude::*;
use vstd::utf8::is_ascii_chars;

verus! {

/// The line of the `version` command: the version and the platform.
pub const VERSION_LINE: [&'static str; 3] = ["folsec-auditor ", " (", ")"];

/// What the `version` command says.
pub open spec fn version_text(windows: bool) -> Seq<char> {
    filled2(
        VERSION_LINE@,
        VERSION@,
        if windows {
            "windows"@
        } else {
            "non-windows (ACL scan disabled)"@
        },
    )
}

/// Writes what the `version` command says.
pub fn version_line(windows: bool) -> (r: String)
    ensures
        r@ == version_text(windows),
{
    let platform = if windows {
        "windows"
    } else {
        "non-windows (ACL scan disabled)"
    };
    fill2(VERSION_LINE.as_slice(), VERSION, platform)
}

/// How a limit is shown, of which zero stands for none.
pub open spec fn limit_text(limit: nat, none: Seq<char>) -> Seq<char> {
    if limit == 0 {
        none
    } else {
        decimal(limit)
    }
}

fn limit_label(limit: usize, none: &str) -> (r: String)
    ensures
        r@ == limit_text(limit as nat, none@),
{
    if limit == 0 {
        none.to_owned()
    } else {
        decimal_text(limit as u128)
    }
}

/// How the depth of a scan is shown.
pub fn depth_label(max_depth: usize) -> (r: String)
    ensures
        r@ == limit_text(max_depth as nat, "unlimited"@),
{
    limit_label(max_depth, "unlimited")
}

/// How the number of threads is shown.
pub fn threads_label(threads: usize) -> (r: String)
    ensures
        r@ == limit_text(threads as nat, "auto (all CPUs)"@),
{
    limit_label(threads, "auto (all CPUs)")
}

// ---------------------------------------------------------------------------
// Confirmation
// ---------------------------------------------------------------------------

/// Whether a character is white space, as Unicode has it.
pub open spec fn is_white_space(c: char) -> bool {
    let n = c as u32;
    ||| 0x09 <= n <= 0x0D
    ||| n == 0x20
    ||| n == 0x85
    ||| n == 0xA0
    ||| n == 0x1680
    ||| 0x2000 <= n <= 0x200A
    ||| n == 0x2028
    ||| n == 0x2029
    ||| n == 0x202F
    ||| n == 0x205F
    ||| n == 0x3000
}

/// A text without the white space at its start.
pub open spec fn trimmed_start(s: Seq<char>) -> Seq<char>
    decreases s.len(),
{
    if s.len() > 0 && is_white_space(s[0]) {
        trimmed_start(s.skip(1))
    } else {
        s
    }
}

/// A text without the white space at its end.
pub open spec fn trimmed_end(s: Seq<char>) -> Seq<char>
    decreases s.len(),
{
    if s.len() > 0 && is_white_space(s.last()) {
        trimmed_end(s.drop_last())
    } else {
        s
    }
}

/// Whether an answer is a yes: `y` in either case, with white space around it.
pub open spec fn confirms(answer: Seq<char>) -> bool {
    lowercase(trimmed_end(trimmed_start(answer))) == "y"@
}

fn white_space(c: char) -> (r: bool)
    ensures
        r == is_white_space(c),
{
    let n: u32 = c as u32;
    (0x09 <= n && n <= 0x0D) || n == 0x20 || n == 0x85 || n == 0xA0 || n == 0x1680 || (0x2000 <= n
        && n <= 0x200A) || n == 0x2028 || n == 0x2029 || n == 0x202F || n == 0x205F || n == 0x3000
}

/// A text without the white space around it.
fn trim(s: &str) -> (r: &str)
    ensures
        r@ == trimmed_end(trimmed_start(s@)),
{
    let chars = chars_of(s);
    let mut start: usize = 0;
    assert(s@.skip(0) =~= s@);
    while start < chars.len() && white_space(chars[start])
        invariant
            chars@ == s@,
            start <= chars@.len(),
            trimmed_start(s@.skip(start as int)) == trimmed_start(s@),
        decreases chars@.len() - start,
    {
        assert(s@.skip(start as int).skip(1) =~= s@.skip(start + 1));
        start += 1;
    }
    let ghost rest = s@.skip(start as int);
    assert(trimmed_start(s@) == rest);
    let mut end: usize = chars.len();
    assert(rest =~= s@.subrange(start as int, end as int));
    while end > start && white_space(chars[end - 1])
        invariant
            chars@ == s@,
            start <= end <= chars@.len(),
            trimmed_end(s@.subrange(start as int, end as int)) == trimmed_end(rest),
        decreases end,
    {
        assert(s@.subrange(start as int, end as int).drop_last() =~= s@.subrange(
            start as int,
            end - 1,
        ));
        end -= 1;
    }
    s.substring_char(start, end)
}

/// Whether an answer is a yes. On ASCII answers this is `y` or `Y` alone, so that
/// an empty answer is none.
pub fn is_confirmed(answer: &str) -> (r: bool)
    ensures
        r == confirms(answer@),
        is_ascii_chars(trimmed_end(trimmed_start(answer@))) ==> r == {
            let word = trimmed_end(trimmed_start(answer@));
            word.len() == 1 && (word[0] == 'y' || word[0] == 'Y')
        },
{
    let word = trim(answer);
    let lower = word.to_lowercase();
    proof {
        reveal_strlit("y");
        if is_ascii_chars(word@) {
            if word@.len() == 1 && (word@[0] == 'y' || word@[0] == 'Y') {
                assert(lower@ =~= "y"@);
            } else if lower@ == "y"@ {
                assert(lower@.len() == word@.len());
                assert(lower@[0] == ascii_lower(word@[0]));
                assert(false);
            }
        }
    }
    same_text(lower.as_str(), "y")
}

} // verus!
