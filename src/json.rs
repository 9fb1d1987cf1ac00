use crate::error::RequestError;
use vstd::prelude::*;

verus! {

#[verifier::external_type_specification]
#[verifier::external_body]
pub struct ExValue(serde_json::Value);

#[verifier::external_type_specification]
#[verifier::external_body]
pub struct ExJsonError(serde_json::Error);

/// Whether the bytes are one complete JSON text, as serde_json reads it.
pub uninterp spec fn json_accepts(b: Seq<u8>) -> bool;

/// The JSON value that serde_json reads from the bytes.
pub uninterp spec fn json_value_of(b: Seq<u8>) -> serde_json::Value;

/// The text `{}`, an empty JSON object.
pub open spec fn empty_object_text() -> Seq<u8> {
    seq![123u8, 125u8]
}

/// The top-level members of a JSON object whose value is a string, by key;
/// empty for a value that is not an object.
pub uninterp spec fn string_fields(v: serde_json::Value) -> Map<Seq<char>, Seq<char>>;

/// Relies on serde_json::from_slice: it reads the bytes as one JSON value and
/// fails on anything else; an empty input is an unexpected end of input.
#[verifier::external_body]
fn parse_json(b: &[u8]) -> (r: Result<serde_json::Value, serde_json::Error>)
    ensures
        r is Ok <==> json_accepts(b@),
        r matches Ok(v) ==> v == json_value_of(b@),
        b@.len() == 0 ==> r is Err,
{
    serde_json::from_slice(b)
}

/// Relies on serde_json::Value::get with a `&str` index (the member of that
/// name when the value is an object, else nothing) and on Value::as_str (the
/// text when the value is a string, else nothing).
#[verifier::external_body]
fn member_str(v: &serde_json::Value, key: &str) -> (r: Option<String>)
    ensures
        r is Some <==> string_fields(*v).contains_key(key@),
        r matches Some(s) ==> s@ == string_fields(*v)[key@],
{
    v.get(key).and_then(serde_json::Value::as_str).map(String::from)
}

/// Relies on serde_json::Map::new: a map with no members, held as an object,
/// which is the value serde_json reads from `{}`.
#[verifier::external_body]
fn new_object() -> (r: serde_json::Value)
    ensures
        r == json_value_of(empty_object_text()),
        string_fields(r) =~= Map::empty(),
{
    serde_json::Value::Object(serde_json::Map::new())
}

/// Reads a received response body as JSON: `DecodeError` exactly when it is
/// not one complete JSON text.
pub fn decode_body(body: &[u8]) -> (r: Result<serde_json::Value, RequestError>)
    ensures
        r is Ok <==> json_accepts(body@),
        r matches Ok(v) ==> v == json_value_of(body@),
        r is Err ==> r matches Err(RequestError::DecodeError),
        body@.len() == 0 ==> r matches Err(RequestError::DecodeError),
{
    match parse_json(body) {
        Ok(v) => Ok(v),
        Err(_) => Err(RequestError::DecodeError),
    }
}

/// Turns the outcome of an exchange into the caller's result: no bytes means
/// the transport failed; received bytes are decoded as JSON.
pub fn settle_exchange(received: Option<Vec<u8>>) -> (r: Result<
    serde_json::Value,
    RequestError,
>)
    ensures
        received is None ==> r matches Err(RequestError::NetworkError),
        received matches Some(b) ==> (r matches Ok(v) ==> v == json_value_of(b@)),
        received matches Some(b) ==> (r is Ok <==> json_accepts(b@)) && (r is Err ==> r matches Err(
            RequestError::DecodeError,
        )),
{
    match received {
        None => Err(RequestError::NetworkError),
        Some(b) => decode_body(b.as_slice()),
    }
}

/// The empty JSON object: the answer to a POST that had no body to send.
pub fn empty_object() -> (r: serde_json::Value)
    ensures
        r == json_value_of(empty_object_text()),
        string_fields(r) =~= Map::empty(),
{
    new_object()
}

/// Turns the outcome of a POST into the caller's result: where nothing was
/// sent (no body was set) the answer is the empty object; otherwise as
/// `settle_exchange` on what came back.
pub fn settle_post(sent: Option<Option<Vec<u8>>>) -> (r: Result<serde_json::Value, RequestError>)
    ensures
        sent is None ==> (r matches Ok(v) && v == json_value_of(empty_object_text())),
        sent matches Some(None) ==> r matches Err(RequestError::NetworkError),
        sent matches Some(Some(b)) ==> (r is Ok <==> json_accepts(b@)),
        sent matches Some(Some(b)) ==> (r matches Ok(v) ==> v == json_value_of(b@)),
        sent matches Some(Some(b)) ==> (r is Err ==> r matches Err(RequestError::DecodeError)),
{
    match sent {
        None => Ok(empty_object()),
        Some(received) => settle_exchange(received),
    }
}

/// The string member `key` of a JSON object, if it has one.
pub fn string_member(v: &serde_json::Value, key: &str) -> (r: Option<String>)
    ensures
        r is Some <==> string_fields(*v).contains_key(key@),
        r matches Some(s) ==> s@ == string_fields(*v)[key@],
{
    member_str(v, key)
}

} // verus!
