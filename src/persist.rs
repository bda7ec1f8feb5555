//! Reading back the JSON blobs that the persistence stores hold.
use crate::error::HostError;
use crate::json::parse_json;
use crate::json::json_parse;
use serde_json::Value;
use vstd::prelude::*;

verus! {

/// The blob of a store row, read back: no row gives `None`; a row gives the
/// value parsed from its text, or `BadStoredJson`, an error for that load
/// alone, when the text is not JSON.
pub fn decode_blob(row: Option<String>) -> (r: Result<Option<Value>, HostError>)
    ensures
        r == (match row {
            None => Ok::<Option<Value>, HostError>(None),
            Some(s) => match json_parse(s@) {
                Some(v) => Ok(Some(v)),
                None => Err(HostError::BadStoredJson),
            },
        }),
{
    match row {
        None => Ok(None),
        Some(s) => match parse_json(s.as_str()) {
            Some(v) => Ok(Some(v)),
            None => Err(HostError::BadStoredJson),
        },
    }
}

} // verus!
