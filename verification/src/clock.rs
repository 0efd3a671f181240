//! Today's date as text, from the system clock.

use vstd::prelude::*;

verus! {

/// How a day is written on a task, in chrono's notation: day of the month,
/// month and year without its century, with a dot after the day and after
/// the month.
pub const DAY_FORMAT: &'static str = "%d.%m.%y";

/// A decimal digit.
pub open spec fn is_digit(c: char) -> bool {
    '0' <= c <= '9'
}

/// The number that the two characters from `at` on spell, where both are
/// decimal digits.
pub open spec fn two_digits(text: Seq<char>, at: int) -> int {
    10 * (text[at] as int - '0' as int) + (text[at + 1] as int - '0' as int)
}

/// The shape of a day stamp: eight characters, two digits for the day, two
/// for the month and two for the year, with a dot after the day and after
/// the month; the day is one of 01 to 31 and the month one of 01 to 12.
pub open spec fn is_day_stamp(text: Seq<char>) -> bool {
    &&& text.len() == 8
    &&& is_digit(text[0])
    &&& is_digit(text[1])
    &&& text[2] == '.'
    &&& is_digit(text[3])
    &&& is_digit(text[4])
    &&& text[5] == '.'
    &&& is_digit(text[6])
    &&& is_digit(text[7])
    &&& 1 <= two_digits(text, 0) <= 31
    &&& 1 <= two_digits(text, 3) <= 12
}

/// The current day in UTC, as chrono writes it in the given format.
///
/// Trusted: the body reads the clock with std's `SystemTime::now`, lets
/// chrono make a `DateTime<Utc>` of it (`From<SystemTime>`) and writes it
/// with `DateTime::format`. Which day comes out is not stated. What is
/// stated, for the one format that is admitted, is what chrono documents
/// for its three specifiers: day of the month from 01 to 31, month from 01
/// to 12 and year modulo 100, each padded with zeros to two digits; the
/// dots of the format stand between them as they are. chrono's conversion
/// takes a clock that stands before 1970 as well; it has no value only for
/// a time more than 262,000 years away, which no system clock holds.
#[verifier::external_body]
fn today_in_format(format: &str) -> (stamp: String)
    requires
        format@ == DAY_FORMAT@,
    ensures
        is_day_stamp(stamp@),
{
    let now = chrono::DateTime::<chrono::Utc>::from(std::time::SystemTime::now());
    now.format(format).to_string()
}

/// The stamp of the current day in UTC.
pub fn today_stamp() -> (stamp: String)
    ensures
        is_day_stamp(stamp@),
{
    today_in_format(DAY_FORMAT)
}

} // verus!
