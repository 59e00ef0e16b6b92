//! Reading the internal room id out of the room-lookup reply.
//!
//! The lookup itself is a one-shot HTTP request made outside the library;
//! what it hands back is a JSON body, and everything this module states is
//! about that body: a zero status carries the id, a non-zero status carries
//! an upstream message.

use crate::ext::{json_doc_of, lossy_of, lossy_text, parse_json};
use crate::value::{opt_get, opt_is_zero, opt_str, opt_u32, Json};
use vstd::prelude::*;

verus! {

/// Why a lookup reply yields no room id.
#[derive(Debug, PartialEq)]
pub enum ApiError {
    /// The reply carried a non-zero status; holds the upstream-reported
    /// message.
    Status(String),
    /// The reply was not of the shape the lookup promises.
    Malformed,
}

/// What a lookup document resolves to: the id under `data.room_id` when the
/// status code is the number zero; the message under `msg` otherwise; and
/// `Malformed` when the field that case needs cannot be read.
pub open spec fn room_id_of(j: Json) -> Result<u32, ApiError> {
    if j.spec_get("code"@).spec_is_zero() {
        match j.spec_get("data"@).spec_get("room_id"@).spec_u32() {
            Some(id) => Ok(id),
            None => Err(ApiError::Malformed),
        }
    } else {
        match j.spec_get("msg"@).spec_str() {
            Some(m) => Err(ApiError::Status(m)),
            None => Err(ApiError::Malformed),
        }
    }
}

/// What a raw reply body resolves to; a body that is not valid JSON is
/// `Malformed`.
pub open spec fn room_id_of_body(body: Seq<u8>) -> Result<u32, ApiError> {
    match json_doc_of(lossy_of(body)) {
        Some(j) => room_id_of(j),
        None => Err(ApiError::Malformed),
    }
}

pub fn room_id_from_response(j: &Json) -> (r: Result<u32, ApiError>)
    ensures
        r == room_id_of(*j),
{
    if opt_is_zero(j.get("code")) {
        match opt_u32(opt_get(j.get("data"), "room_id")) {
            Some(id) => Ok(id),
            None => Err(ApiError::Malformed),
        }
    } else {
        match opt_str(j.get("msg")) {
            Some(m) => Err(ApiError::Status(m)),
            None => Err(ApiError::Malformed),
        }
    }
}

pub fn room_id_from_body(body: &[u8]) -> (r: Result<u32, ApiError>)
    ensures
        r == room_id_of_body(body@),
{
    let text = lossy_text(body);
    match parse_json(text.as_str()) {
        Some(j) => room_id_from_response(&j),
        None => Err(ApiError::Malformed),
    }
}

} // verus!
