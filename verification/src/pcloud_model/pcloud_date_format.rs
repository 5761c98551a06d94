use crate::pcloud_model::{
    chrono_format, chrono_parse_utc, formatted_time, parsed_utc_time, InvalidDate, PCloudTime,
};
use vstd::prelude::*;

verus! {

/// The pattern of the dates in the service's answers.
pub const FORMAT: &'static str = "%a, %d %b %Y %H:%M:%S %z";

/// The text of a time in an answer of the service, where chrono has one.
pub open spec fn spec_serialize(date: PCloudTime) -> Option<Seq<char>> {
    formatted_time(date.seconds, date.offset, FORMAT@)
}

/// The time that a date text of the service stands for, as a UTC time.
pub open spec fn spec_deserialize(text: Seq<char>) -> Result<PCloudTime, InvalidDate> {
    match parsed_utc_time(text, FORMAT@) {
        Some(seconds) => Ok(PCloudTime { seconds, offset: 0 }),
        None => Err(InvalidDate {  }),
    }
}

/// Writes a time as the service writes it. `None` comes back exactly
/// where chrono cannot represent the time.
pub fn serialize(date: &PCloudTime) -> (text: Option<String>)
    ensures
        text.deep_view() == spec_serialize(*date),
{
    chrono_format(date.seconds, date.offset, FORMAT)
}

/// Reads a date text of the service. The text has to follow the pattern
/// and to name a UTC time.
pub fn deserialize(text: &str) -> (date: Result<PCloudTime, InvalidDate>)
    ensures
        date == spec_deserialize(text@),
{
    match chrono_parse_utc(text, FORMAT) {
        Ok(seconds) => Ok(PCloudTime { seconds, offset: 0 }),
        Err(_) => Err(InvalidDate {  }),
    }
}

} // verus!
