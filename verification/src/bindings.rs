//! Calls into the calendar, identifier, pattern and random-number crates.
//!
//! Nothing here is proved: each function's contract is what this library
//! takes the called crate to do. Where the result is a function of the
//! arguments alone it has a name, and the contract says no more than that the
//! call returns it.

use std::fmt::Write;
use rand::Rng;
use vstd::prelude::*;

verus! {

/// What `chrono::DateTime::parse_from_rfc3339` makes of a text: the moment
/// in microseconds since the Unix epoch, or the text of its error.
pub uninterp spec fn rfc3339_reading(text: Seq<char>) -> Result<i64, Seq<char>>;

/// What `chrono::format::DelayedFormat` writes for the moment that lies
/// `micros` microseconds after the Unix epoch, in UTC, under a `strftime`
/// pattern; nothing where chrono has no such moment or refuses the pattern.
pub uninterp spec fn formatted_time(micros: i64, pattern: Seq<char>) -> Option<Seq<char>>;

/// What `uuid::Uuid::parse_str` makes of a text: the identifier's 128-bit
/// value, or the text of its error.
pub uninterp spec fn uuid_reading(text: Seq<char>) -> Result<u128, Seq<char>>;

/// How `uuid::Uuid` displays the identifier with the given 128-bit value.
pub uninterp spec fn uuid_text(value: u128) -> Seq<char>;

/// Whether `regex::Regex::is_match` finds the pattern anywhere in the text;
/// nothing where `regex::Regex::new` refuses the pattern.
pub uninterp spec fn pattern_found(pattern: Seq<char>, text: Seq<char>) -> Option<bool>;

/// Calls `chrono::DateTime::parse_from_rfc3339` and, on success,
/// `DateTime::timestamp_micros`; on failure it hands back the error's
/// display text. Believed: the outcome is a function of the text alone.
#[verifier::external_body]
pub(crate) fn parse_rfc3339(text: &str) -> (reading: Result<i64, String>)
    ensures
        rfc3339_reading(text@) == match reading {
            Ok(micros) => Ok::<i64, Seq<char>>(micros),
            Err(error) => Err(error@),
        },
{
    match chrono::DateTime::parse_from_rfc3339(text) {
        Ok(moment) => Ok(moment.timestamp_micros()),
        Err(error) => Err(error.to_string()),
    }
}

/// Calls `chrono::DateTime::from_timestamp_micros` and writes the moment
/// through `DateTime::format`. Believed: the outcome is a function of the
/// two arguments alone.
#[verifier::external_body]
pub(crate) fn format_time(micros: i64, pattern: &str) -> (text: Option<String>)
    ensures
        formatted_time(micros, pattern@) == match text {
            Some(written) => Some(written@),
            None => None,
        },
{
    let moment = chrono::DateTime::from_timestamp_micros(micros)?;
    let mut written = String::new();
    match write!(written, "{}", moment.format(pattern)) {
        Ok(()) => Some(written),
        Err(_) => None,
    }
}

/// Calls `chrono::Utc::now` and `DateTime::timestamp_micros`. Nothing is
/// claimed of the moment that comes back.
#[verifier::external_body]
pub(crate) fn current_micros() -> i64 {
    chrono::Utc::now().timestamp_micros()
}

/// Calls `uuid::Uuid::parse_str` and, on success, `Uuid::as_u128`; on
/// failure it hands back the error's display text. Believed: the outcome is
/// a function of the text alone.
#[verifier::external_body]
pub(crate) fn parse_uuid(text: &str) -> (reading: Result<u128, String>)
    ensures
        uuid_reading(text@) == match reading {
            Ok(value) => Ok::<u128, Seq<char>>(value),
            Err(error) => Err(error@),
        },
{
    match uuid::Uuid::parse_str(text) {
        Ok(id) => Ok(id.as_u128()),
        Err(error) => Err(error.to_string()),
    }
}

/// Calls `uuid::Uuid::from_u128` and displays the identifier. Believed: the
/// text is a function of the value alone.
#[verifier::external_body]
pub(crate) fn display_uuid(value: u128) -> (text: String)
    ensures
        text@ == uuid_text(value),
{
    uuid::Uuid::from_u128(value).to_string()
}

/// Calls `uuid::Uuid::new_v4` and `Uuid::as_u128`. Nothing is claimed of the
/// identifier that comes back.
#[verifier::external_body]
pub(crate) fn random_uuid() -> u128 {
    uuid::Uuid::new_v4().as_u128()
}

/// Calls `regex::Regex::new` and, where the pattern compiles,
/// `Regex::is_match`. Believed: the outcome is a function of the two
/// arguments alone.
#[verifier::external_body]
pub(crate) fn find_pattern(pattern: &str, text: &str) -> (found: Option<bool>)
    ensures
        found == pattern_found(pattern@, text@),
{
    match regex::Regex::new(pattern) {
        Ok(compiled) => Some(compiled.is_match(text)),
        Err(_) => None,
    }
}

/// Calls `rand::Rng::gen_range` on the thread's generator with the range
/// from zero up to, and without, `bound`. Believed: the number lies in that
/// range. An empty range makes the call panic, so `bound` is positive.
#[verifier::external_body]
pub(crate) fn random_below(bound: usize) -> (drawn: usize)
    requires
        bound > 0,
    ensures
        drawn < bound,
{
    rand::thread_rng().gen_range(0..bound)
}

} // verus!
