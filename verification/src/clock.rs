//! The time stamp of a record: local wall-clock time as text.

use crate::token::is_digit;
use vstd::prelude::*;

verus! {

/// The pattern that time stamps are written in: year, month, day, hour,
/// minute and second.
pub const TIMESTAMP_FORMAT: &'static str = "%Y-%m-%d %H:%M:%S";

/// The shape `-MM-DD HH:MM:SS` of the last fifteen characters of a time
/// stamp, starting at `at`.
pub open spec fn is_timestamp_tail(text: Seq<char>, at: int) -> bool {
    &&& text[at] == '-'
    &&& is_digit(text[at + 1])
    &&& is_digit(text[at + 2])
    &&& text[at + 3] == '-'
    &&& is_digit(text[at + 4])
    &&& is_digit(text[at + 5])
    &&& text[at + 6] == ' '
    &&& is_digit(text[at + 7])
    &&& is_digit(text[at + 8])
    &&& text[at + 9] == ':'
    &&& is_digit(text[at + 10])
    &&& is_digit(text[at + 11])
    &&& text[at + 12] == ':'
    &&& is_digit(text[at + 13])
    &&& is_digit(text[at + 14])
}

/// The shape of a time stamp: `YYYY-MM-DD HH:MM:SS`, every letter a digit.
/// The year has four digits from year 0 to year 9999; outside that range it
/// is a sign followed by four digits or more.
pub open spec fn is_timestamp(text: Seq<char>) -> bool {
    let year = text.len() - 15;
    &&& year >= 4
    &&& is_timestamp_tail(text, year)
    &&& if year == 4 {
        forall|i: int| 0 <= i < 4 ==> is_digit(#[trigger] text[i])
    } else {
        &&& text[0] == '+' || text[0] == '-'
        &&& forall|i: int| 1 <= i < year ==> is_digit(#[trigger] text[i])
    }
}

/// Calls `chrono::Local::now` and writes the time with `DateTime::format`.
/// The time depends on the machine: the contract states the shape that the
/// pattern gives every time, and nothing of its digits. The call panics where
/// the system clock stands before 1970 or beyond the dates `chrono` can hold.
#[verifier::external_body]
pub(crate) fn local_now(pattern: &str) -> (r: String)
    requires
        pattern@ == TIMESTAMP_FORMAT@,
    ensures
        is_timestamp(r@),
{
    chrono::Local::now().format(pattern).to_string()
}

} // verus!
