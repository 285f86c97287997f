//! The local wall clock, as the autodiscover error document shows it.

use vstd::prelude::*;

verus! {

/// Whether `c` is one of the ASCII digits `0` to `9`.
pub open spec fn is_digit(c: char) -> bool {
    '0' <= c <= '9'
}

/// Whether `s` has the shape `HH:MM:SS` of a wall clock time.
pub open spec fn is_clock_time(s: Seq<char>) -> bool {
    &&& s.len() == 8
    &&& s[2] == ':' && s[5] == ':'
    &&& forall|i: int| 0 <= i < 8 && i != 2 && i != 5 ==> is_digit(#[trigger] s[i])
}

/// Whether `s` is a decimal number of seconds, possibly negative.
pub open spec fn is_decimal_seconds(s: Seq<char>) -> bool {
    &&& s.len() > 0
    &&& forall|i: int| 0 <= i < s.len() ==> is_digit(#[trigger] s[i]) || (i == 0 && s[i] == '-')
}

/// Reads the local time once with `chrono::Local::now` and formats that
/// one instant with `chrono::DateTime::format` as `%H:%M:%S` and as `%s`,
/// so that both strings describe the same moment. Claimed, after chrono's
/// table of specifiers: the first string is two-digit hour, minute and
/// second with colons; the second the UNIX timestamp in decimal. Which
/// digits come out depends on the clock and is left unsaid.
#[verifier::external_body]
pub(crate) fn local_time_and_timestamp() -> (r: (String, String))
    ensures
        is_clock_time(r.0@),
        is_decimal_seconds(r.1@),
{
    let now = chrono::Local::now();
    (now.format("%H:%M:%S").to_string(), now.format("%s").to_string())
}

} // verus!
