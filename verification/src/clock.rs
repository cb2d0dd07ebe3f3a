//! The wall clock, as far as the log needs it.

use vstd::prelude::*;

verus! {

/// Whether `c` is one of the ten decimal digits.
pub open spec fn is_digit(c: char) -> bool {
    '0' <= c <= '9'
}

/// The shape of a time of day written as `HH:MM:SS`: eight characters, two
/// digits for each field and a colon between the fields.
pub open spec fn is_clock_label(s: Seq<char>) -> bool {
    &&& s.len() == 8
    &&& is_digit(s[0])
    &&& is_digit(s[1])
    &&& s[2] == ':'
    &&& is_digit(s[3])
    &&& is_digit(s[4])
    &&& s[5] == ':'
    &&& is_digit(s[6])
    &&& is_digit(s[7])
}

/// The current local time of day as text.
///
/// Trusted: calls `chrono::Local::now` and renders the result with
/// `DateTime::format` and the pattern `%H:%M:%S`. Which time comes back is
/// not stated, only its shape: chrono documents each of the three fields as
/// zero-padded to two digits. chrono panics if the system clock is set before
/// the Unix epoch.
#[verifier::external_body]
pub(crate) fn local_time_label() -> (label: String)
    ensures
        is_clock_label(label@),
{
    chrono::Local::now().format("%H:%M:%S").to_string()
}

} // verus!
