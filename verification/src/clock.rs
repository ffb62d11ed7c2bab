//! The time of day as visitors read it.

use vstd::prelude::*;

verus! {

/// The decimal digit for a value in `0..10`.
pub open spec fn digit_char(n: int) -> char {
    seq!['0', '1', '2', '3', '4', '5', '6', '7', '8', '9'][n]
}

/// A number below one hundred in two digits.
pub open spec fn two_digits(n: int) -> Seq<char> {
    seq![digit_char(n / 10), digit_char(n % 10)]
}

/// A time of day as `HH:MM:SS`.
pub open spec fn clock_text(hour: int, minute: int, second: int) -> Seq<char> {
    two_digits(hour) + seq![':'] + two_digits(minute) + seq![':'] + two_digits(second)
}

/// Trusted: `chrono::NaiveTime::from_hms_opt`, which accepts every hour below
/// 24 and minute and second below 60, and `NaiveTime::format` with the items
/// `%H:%M:%S`, each of which writes its number in two digits, padded with a
/// zero.
#[verifier::external_body]
fn format_time_of_day(hour: u32, minute: u32, second: u32) -> (text: String)
    requires
        hour < 24,
        minute < 60,
        second < 60,
    ensures
        text@ == clock_text(hour as int, minute as int, second as int),
{
    chrono::NaiveTime::from_hms_opt(hour, minute, second).unwrap().format("%H:%M:%S").to_string()
}

/// The time of day that lies `seconds` after midnight, as `HH:MM:SS`. Whole
/// days are dropped.
pub fn clock_label(seconds: u32) -> (text: String)
    ensures
        text@ == clock_text(
            (seconds as int / 3600) % 24,
            (seconds as int / 60) % 60,
            seconds as int % 60,
        ),
{
    format_time_of_day((seconds / 3600) % 24, (seconds / 60) % 60, seconds % 60)
}

} // verus!
