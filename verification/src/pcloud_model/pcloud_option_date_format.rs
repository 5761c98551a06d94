use crate::pcloud_model::pcloud_date_format::{spec_deserialize, spec_serialize};
use crate::pcloud_model::{InvalidDate, PCloudTime};
use vstd::prelude::*;

verus! {

/// What is written for an optional time.
pub enum OptionalDateText {
    /// No time: the field is written as absent.
    Absent,
    /// The time as a text.
    Text(String),
    /// A time that chrono cannot represent.
    OutOfRange,
}

/// Writes an optional time as the service writes it: nothing for no time.
pub fn serialize(inp: &Option<PCloudTime>) -> (out: OptionalDateText)
    ensures
        match out {
            OptionalDateText::Absent => inp is None,
            OptionalDateText::Text(text) => inp is Some && spec_serialize(inp->0) == Some(text@),
            OptionalDateText::OutOfRange => inp is Some && spec_serialize(inp->0) is None,
        },
{
    match inp {
        Some(date) => match crate::pcloud_model::pcloud_date_format::serialize(date) {
            Some(text) => OptionalDateText::Text(text),
            None => OptionalDateText::OutOfRange,
        },
        None => OptionalDateText::Absent,
    }
}

/// Reads an optional date field. A field that holds no text counts as no
/// time; a text has to be a date of the service.
pub fn deserialize(inp: Option<&str>) -> (date: Result<Option<PCloudTime>, InvalidDate>)
    ensures
        date == match inp {
            Some(text) => match spec_deserialize(text@) {
                Ok(d) => Ok(Some(d)),
                Err(e) => Err(e),
            },
            None => Ok::<Option<PCloudTime>, InvalidDate>(None),
        },
{
    match inp {
        Some(text) => match crate::pcloud_model::pcloud_date_format::deserialize(text) {
            Ok(d) => Ok(Some(d)),
            Err(e) => Err(e),
        },
        None => Ok(None),
    }
}

} // verus!
