//! Dates and times, which the library takes from `chrono` and hands on
//! unread.

use vstd::prelude::*;

verus! {

/// `chrono::NaiveDateTime`, a date and time of day without a time zone. The
/// library sees nothing inside a value of it.
#[verifier::external_type_specification]
#[verifier::external_body]
pub struct ExNaiveDateTime(chrono::NaiveDateTime);

/// `Clone::clone` of `chrono::NaiveDateTime`, which `chrono` derives for
/// this `Copy` type: the copy is the value itself.
pub assume_specification[ <chrono::NaiveDateTime as Clone>::clone ](
    value: &chrono::NaiveDateTime,
) -> (copy: chrono::NaiveDateTime)
    ensures
        copy == *value,
;

/// `chrono::TimeDelta`, a span of time, also known as `chrono::Duration`.
/// The library sees nothing inside a value of it.
#[verifier::external_type_specification]
#[verifier::external_body]
pub struct ExTimeDelta(chrono::TimeDelta);

/// `chrono::TimeDelta::num_seconds` gives the whole seconds of a span.
/// Nothing is claimed of the number.
pub assume_specification[ chrono::TimeDelta::num_seconds ](span: &chrono::TimeDelta) -> (seconds:
    i64)
;

/// `chrono::Local::now` followed by `naive_local`: the date and time on the
/// clock of this machine, in its time zone. Nothing is claimed of the
/// value.
#[verifier::external_body]
pub(crate) fn local_now() -> (now: chrono::NaiveDateTime) {
    chrono::Local::now().naive_local()
}

/// The pattern in which the service wants a date and time: year, month and
/// day, the letter `T`, hour and minute.
pub const MINUTE_PATTERN: &'static str = "%Y-%m-%dT%H:%M";

/// `chrono::NaiveDateTime::format`, written out as a string by
/// `to_string`. The pattern has to be [`MINUTE_PATTERN`], which `chrono`
/// can format; with a pattern that it cannot, `to_string` panics. Nothing
/// is claimed of the text.
#[verifier::external_body]
pub(crate) fn formatted(value: &chrono::NaiveDateTime, pattern: &str) -> (text: String)
    requires
        pattern@ == MINUTE_PATTERN@,
{
    value.format(pattern).to_string()
}

/// The text of a date and time as the service wants it, to the minute, or
/// nothing where there is no date and time.
pub fn naive_date_time_text(value: &Option<chrono::NaiveDateTime>) -> (text: Option<String>)
    ensures
        text is Some <==> value is Some,
{
    match value {
        None => None,
        Some(value) => Some(formatted(value, MINUTE_PATTERN)),
    }
}

} // verus!
