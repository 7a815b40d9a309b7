//! Dates, as far as the library needs them: the month of a timestamp, and
//! the current month and year. `chrono` computes all three; what is stated of
//! it here is believed, not proved.

use chrono::Datelike;
use std::str::FromStr;
use vstd::prelude::*;

verus! {

/// The month, in universal time, of the timestamp that `text` holds; `None`
/// where `chrono` does not read `text` as a timestamp.
pub uninterp spec fn timestamp_month(text: Seq<char>) -> Option<u32>;

/// `DateTime::<Utc>::from_str`, and `Datelike::month` of what it returns.
/// Believed: the outcome is a function of the text alone, and a month is a
/// number from 1 to 12.
#[verifier::external_body]
pub(crate) fn month_of_timestamp(text: &str) -> (r: Option<u32>)
    ensures
        r == timestamp_month(text@),
        r is Some ==> 1 <= r->Some_0 <= 12,
{
    chrono::DateTime::<chrono::Utc>::from_str(text).ok().map(|t| t.month())
}

/// `Utc::now`, and `Datelike::month` of what it returns: the current month in
/// universal time. Believed: a month is a number from 1 to 12.
#[verifier::external_body]
pub(crate) fn month_now() -> (r: u32)
    ensures
        1 <= r <= 12,
{
    chrono::Utc::now().month()
}

/// `Local::now`, and `Datelike::year` of its date: the current year in local
/// time. Nothing is stated of it.
#[verifier::external_body]
pub(crate) fn year_now() -> i32 {
    chrono::Local::now().date_naive().year()
}

} // verus!
