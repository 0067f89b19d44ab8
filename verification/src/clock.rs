//! The time of day, as it stands in what the auditor writes.

use vstd::prelude::*;

verus! {

/// The time with the offset from UTC.
pub const ZONED_TIME: &'static str = "%Y-%m-%d %H:%M:%S %z";

/// The local time.
pub const LOCAL_TIME: &'static str = "%Y-%m-%d %H:%M:%S";

/// Whether a character is a decimal digit.
pub open spec fn is_digit(c: char) -> bool {
    '0' <= c && c <= '9'
}

/// Whether a character is a sign.
pub open spec fn is_sign(c: char) -> bool {
    c == '+' || c == '-'
}

/// Whether two digits stand at a place of a text.
pub open spec fn two_digits(s: Seq<char>, i: int) -> bool {
    is_digit(s[i]) && is_digit(s[i + 1])
}

/// Whether a text is a date and a time of day: a year of at least four digits,
/// which may have a sign, and two digits for each of the rest.
pub open spec fn is_local_time(s: Seq<char>) -> bool {
    let year = s.len() - 15;
    &&& year >= 4
    &&& is_digit(s[0]) || is_sign(s[0])
    &&& forall|i: int| 0 < i < year ==> is_digit(#[trigger] s[i])
    &&& s[year] == '-' && two_digits(s, year + 1)
    &&& s[year + 3] == '-' && two_digits(s, year + 4)
    &&& s[year + 6] == ' ' && two_digits(s, year + 7)
    &&& s[year + 9] == ':' && two_digits(s, year + 10)
    &&& s[year + 12] == ':' && two_digits(s, year + 13)
}

/// Whether a text is a date, a time of day and an offset in hours and minutes.
pub open spec fn is_zoned_time(s: Seq<char>) -> bool {
    let zone = s.len() - 6;
    &&& zone >= 0
    &&& is_local_time(s.take(zone))
    &&& s[zone] == ' ' && is_sign(s[zone + 1])
    &&& two_digits(s, zone + 2) && two_digits(s, zone + 4)
}

/// The time now: [`chrono::Local::now`], written by [`chrono::DateTime::format`].
///
/// The contract states how the text is built for the two formats of this module.
/// Which time it is depends on the clock and the time zone of the machine, and
/// nothing is stated about it. The clock must not be set before 1970.
#[verifier::external_body]
pub(crate) fn now(format: &str) -> (r: String)
    requires
        format@ == ZONED_TIME@ || format@ == LOCAL_TIME@,
    ensures
        format@ == ZONED_TIME@ ==> is_zoned_time(r@),
        format@ == LOCAL_TIME@ ==> is_local_time(r@),
{
    chrono::Local::now().format(format).to_string()
}

/// A time stands on one line.
pub proof fn time_is_one_line(s: Seq<char>)
    requires
        is_local_time(s) || is_zoned_time(s),
    ensures
        !s.contains('\n'),
{
    if s.contains('\n') {
        let i = choose|i: int| 0 <= i < s.len() && s[i] == '\n';
        if is_local_time(s) {
            assert(!(0 < i < s.len() - 15));
        } else {
            let t = s.take(s.len() - 6);
            if i < t.len() {
                assert(t[i] == s[i]);
                assert(!(0 < i < t.len() - 15));
            }
        }
    }
}

} // verus!
