use vstd::prelude::*;
use chrono::{Datelike, Timelike};

verus! {

/// A date and time of day without a time zone, as its parts.
#[derive(Clone, Copy, Debug, PartialEq, Eq, Structural)]
pub struct DateTimeParts {
    pub year: i32,
    pub month: u32,
    pub day: u32,
    pub hour: u32,
    pub minute: u32,
    pub second: u32,
    pub nanosecond: u32,
}

/// What `chrono::NaiveDateTime::parse_from_str` gives for a text and a
/// format, as parts; none where it reports an error.
pub uninterp spec fn parsed_date_time(text: Seq<char>, format: Seq<char>) -> Option<DateTimeParts>;

/// Calls `chrono::NaiveDateTime::parse_from_str` and takes the parts of the
/// date and time it returns. The contract claims only that the result is a
/// function of the text and the format; which texts parse, and to what, is
/// left to chrono and unstated.
#[verifier::external_body]
pub(crate) fn parse_date_time(text: &str, format: &str) -> (r: Option<DateTimeParts>)
    ensures
        r == parsed_date_time(text@, format@),
{
    match chrono::NaiveDateTime::parse_from_str(text, format) {
        Ok(dt) => Some(DateTimeParts {
            year: dt.year(),
            month: dt.month(),
            day: dt.day(),
            hour: dt.hour(),
            minute: dt.minute(),
            second: dt.second(),
            nanosecond: dt.nanosecond(),
        }),
        Err(_) => None,
    }
}

} // verus!
