//! The timestamp of a trace line: the current instant in UTC, to the
//! microsecond, with a numeric zone offset, as in
//! `2024-01-02T03:04:05.123456+0000`.

use crate::line::is_digit;
use vstd::prelude::*;

verus! {

/// Date format used for timestamps.
pub const DATE_FORMAT_STR: &'static str = "%Y-%m-%dT%H:%M:%S%.6f%z";

/// Whether every character of `s` from `from` up to, not including, `to` is a
/// decimal digit.
pub open spec fn digits_between(s: Seq<char>, from: int, to: int) -> bool {
    forall|i: int| from <= i < to ==> is_digit(#[trigger] s[i])
}

/// The year field: four digits, or, past the year 9999, a plus sign and five
/// digits or more.
pub open spec fn is_year_field(s: Seq<char>) -> bool {
    ||| s.len() == 4 && digits_between(s, 0, 4)
    ||| s.len() >= 6 && s[0] == '+' && digits_between(s, 1, s.len() as int)
}

/// The number that the two digits of `s` at `at` and behind it stand for.
pub open spec fn two_digits(s: Seq<char>, at: int) -> int {
    10 * (s[at] as int - '0' as int) + (s[at + 1] as int - '0' as int)
}

/// What follows the year: `-MM-DDTHH:MM:SS.ffffff+0000`, every letter but
/// `T` a decimal digit, with a month from 01 to 12, a day from 01 to 31, an
/// hour up to 23, a minute up to 59 and a second up to 60 (a leap second).
pub open spec fn is_time_of_year(s: Seq<char>) -> bool {
    &&& s.len() == 27
    &&& s[0] == '-'
    &&& digits_between(s, 1, 3)
    &&& 1 <= two_digits(s, 1) <= 12
    &&& s[3] == '-'
    &&& digits_between(s, 4, 6)
    &&& 1 <= two_digits(s, 4) <= 31
    &&& s[6] == 'T'
    &&& digits_between(s, 7, 9)
    &&& two_digits(s, 7) <= 23
    &&& s[9] == ':'
    &&& digits_between(s, 10, 12)
    &&& two_digits(s, 10) <= 59
    &&& s[12] == ':'
    &&& digits_between(s, 13, 15)
    &&& two_digits(s, 13) <= 60
    &&& s[15] == '.'
    &&& digits_between(s, 16, 22)
    &&& s[22] == '+'
    &&& s[23] == '0'
    &&& s[24] == '0'
    &&& s[25] == '0'
    &&& s[26] == '0'
}

/// Whether `s` has the shape of a timestamp: a year field, then month, day,
/// hour, minute, second, microseconds and the offset of UTC.
pub open spec fn is_timestamp(s: Seq<char>) -> bool {
    &&& s.len() >= 31
    &&& is_year_field(s.take(s.len() - 27))
    &&& is_time_of_year(s.skip(s.len() - 27))
}

/// A timestamp holds neither a comma nor a line break, so it cannot be
/// mistaken for two fields or two lines.
pub proof fn lemma_timestamp_chars(s: Seq<char>)
    requires
        is_timestamp(s),
    ensures
        forall|i: int| 0 <= i < s.len() ==> #[trigger] s[i] != ',' && s[i] != '\n',
{
    let cut = s.len() - 27;
    let year = s.take(cut);
    let rest = s.skip(cut);
    assert forall|i: int| 0 <= i < s.len() implies #[trigger] s[i] != ',' && s[i] != '\n' by {
        if i < cut {
            assert(s[i] == year[i]);
        } else {
            assert(s[i] == rest[i - cut]);
        }
    }
}

/// Reads the clock with `chrono::Utc::now` and renders the instant with
/// `DateTime::format` under `pattern`.
///
/// Trusted: under the timestamp pattern chrono writes the year as four
/// digits (with a plus sign and five digits or more past the year 9999; the
/// clock never reads before 1970), then two digits each for the month
/// (01-12), the day (01-31), the hour (00-23), the minute (00-59) and the
/// second (00-60), six digits for the microseconds, and `+0000` for UTC,
/// with the pattern's own `-`, `T`, `:` and `.` between them. Nothing is
/// claimed of the instant itself. chrono panics where the system clock reads
/// before 1970.
#[verifier::external_body]
fn utc_now_formatted(pattern: &str) -> (stamp: String)
    requires
        pattern@ == DATE_FORMAT_STR@,
    ensures
        is_timestamp(stamp@),
{
    chrono::Utc::now().format(pattern).to_string()
}

/// The current time in UTC as a timestamp.
pub fn ts() -> (stamp: String)
    ensures
        is_timestamp(stamp@),
{
    utc_now_formatted(DATE_FORMAT_STR)
}

} // verus!
