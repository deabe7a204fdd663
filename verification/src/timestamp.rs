use vstd::prelude::*;
use chrono::Datelike;
use chrono::Timelike;

verus! {

/// A calendar timestamp with second precision: the source time of an
/// occupancy reading, written `"YYYY-MM-DD HH:MM:SS"` by the feed.
#[derive(Clone, Copy, PartialEq, Eq, Structural, Debug)]
pub struct Timestamp {
    pub year: i32,
    pub month: u32,
    pub day: u32,
    pub hour: u32,
    pub minute: u32,
    pub second: u32,
}

impl Timestamp {
    /// Field ranges of a calendar-valid timestamp.
    pub open spec fn wf(self) -> bool {
        &&& 1 <= self.month <= 12
        &&& 1 <= self.day <= 31
        &&& self.hour <= 23
        &&& self.minute <= 59
        &&& self.second <= 59
    }
}

/// The timestamp, if any, that a string denotes in the feed's fixed
/// `"YYYY-MM-DD HH:MM:SS"` format. The parsing relation is kept
/// abstract; `parse_timestamp` below is its only source of facts.
pub uninterp spec fn parsed_timestamp(s: Seq<char>) -> Option<Timestamp>;

/// Relies on chrono's `NaiveDateTime::parse_from_str` with the fixed
/// format `"%Y-%m-%d %H:%M:%S"`: the result is a function of the input
/// string alone, and a parsed value is calendar-valid (chrono documents
/// the accessor ranges: month 1-12, day 1-31, hour 0-23, minute 0-59,
/// second 0-59).
#[verifier::external_body]
pub(crate) fn parse_timestamp(s: &str) -> (r: Option<Timestamp>)
    ensures
        r == parsed_timestamp(s@),
        r matches Some(t) ==> t.wf(),
{
    match chrono::NaiveDateTime::parse_from_str(s, "%Y-%m-%d %H:%M:%S") {
        Ok(dt) => Some(Timestamp {
            year: dt.year(),
            month: dt.month(),
            day: dt.day(),
            hour: dt.hour(),
            minute: dt.minute(),
            second: dt.second(),
        }),
        Err(_) => None,
    }
}

} // verus!
