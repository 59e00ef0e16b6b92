//! The trusted boundary to the outside crates: JSON text parsing, zlib
//! decompression, and byte-to-text decoding. Verus believes the contracts
//! here; each states only what the outside source or documentation shows.

use crate::value::{Json, JsonNum};
use vstd::prelude::*;

verus! {

#[verifier::external_type_specification]
#[verifier::external_body]
pub struct ExJsonValue(json::JsonValue);

#[verifier::external_type_specification]
#[verifier::external_body]
pub struct ExJsonNumber(json::number::Number);

/// The document that `json::parse` reads out of `text`, carried over to the
/// library's model one variant for one, or `None` where the text is not valid
/// JSON. The parse depends on the text alone.
pub uninterp spec fn json_doc_of(text: Seq<char>) -> Option<Json>;

/// The characters that `String::from_utf8_lossy` decodes `bytes` to: the
/// UTF-8 decoding, invalid sequences replaced. It depends on the bytes alone.
pub uninterp spec fn lossy_of(bytes: Seq<u8>) -> Seq<char>;

/// The bytes that zlib decompression expands `bytes` to, or `None` where the
/// input is not a complete zlib stream. It depends on the bytes alone.
pub uninterp spec fn zlib_inflate(bytes: Seq<u8>) -> Option<Seq<u8>>;

/// Relies on `json::parse`: reads one JSON document out of the text, and
/// fails exactly on text that is not valid JSON.
#[verifier::external_body]
pub(crate) fn parse_json(s: &str) -> (r: Option<Json>)
    ensures
        r == json_doc_of(s@),
{
    match json::parse(s) {
        Ok(v) => Some(convert_value(v)),
        Err(_) => None,
    }
}

/// Carries a `json::JsonValue` over to the library's model, one variant for
/// one (both string variants to `Str`).
#[verifier::external_body]
fn convert_value(v: json::JsonValue) -> Json {
    match v {
        json::JsonValue::Null => Json::Null,
        json::JsonValue::Boolean(b) => Json::Bool(b),
        json::JsonValue::Short(s) => Json::Str(s.as_str().to_owned()),
        json::JsonValue::String(s) => Json::Str(s),
        json::JsonValue::Number(n) => convert_number(n),
        json::JsonValue::Array(a) => Json::Arr(a.into_iter().map(convert_value).collect()),
        json::JsonValue::Object(o) => Json::Obj(
            o.iter().map(|(k, w)| (k.to_owned(), convert_value(w.clone()))).collect(),
        ),
    }
}

/// Carries a `json::number::Number` over as its decimal parts, NaN to `Null`.
#[verifier::external_body]
fn convert_number(n: json::number::Number) -> Json {
    if n.is_nan() {
        return Json::Null;
    }
    let (positive, mantissa, exponent) = n.as_parts();
    Json::Num(JsonNum { positive, mantissa, exponent })
}

/// Relies on `String::from_utf8_lossy`: decodes the bytes as UTF-8, replacing
/// invalid sequences with the replacement character.
#[verifier::external_body]
pub(crate) fn lossy_text(b: &[u8]) -> (r: String)
    ensures
        r@ == lossy_of(b@),
{
    String::from_utf8_lossy(b).into_owned()
}

/// Relies on `miniz_oxide::inflate::decompress_to_vec_zlib`: decompresses a
/// whole zlib stream, failing on a truncated or corrupt one.
#[verifier::external_body]
pub(crate) fn inflate(b: &[u8]) -> (r: Option<Vec<u8>>)
    ensures
        match r {
            Some(out) => zlib_inflate(b@) == Some(out@),
            None => zlib_inflate(b@) is None,
        },
{
    miniz_oxide::inflate::decompress_to_vec_zlib(b).ok()
}

} // verus!
