//! The transit layer: byte buffers in, structured values out, and back.
//!
//! Input buffers are UTF-8 text. An absent buffer is the empty text, and as a
//! document it is null; so is a document of nothing but whitespace. A result is
//! written as JSON text that a C string can hold.

use crate::buffer::Buffer;
use crate::error::{result_value, BridgeError, ErrorValue};
use crate::json::{Json, JsonNumber, JsonValue};
use crate::text::{
    blank, decimal, decimal_text, has_nul, is_blank, nul_byte_position, nul_position,
};
use vstd::prelude::*;
use vstd::string::*;
use vstd::utf8::*;

verus! {

/// `serde_json::Value`, held as it is: a document is read into a [`Json`]
/// before anything looks at it.
#[verifier::external_type_specification]
#[verifier::external_body]
pub struct ExValue(serde_json::Value);

/// The message with which `core::str::from_utf8` refuses the bytes.
pub uninterp spec fn utf8_fault(bytes: Seq<u8>) -> Seq<char>;

/// What `serde_json::from_str` makes of a text: the value that it denotes, or
/// the parser's message.
pub uninterp spec fn json_syntax(text: Seq<char>) -> Result<JsonValue, Seq<char>>;

/// What `serde_json::to_string` makes of a value: its JSON text, or the
/// serializer's message.
pub uninterp spec fn json_text(value: JsonValue) -> Result<Seq<char>, Seq<char>>;

/// `core::str::from_utf8` accepts exactly the byte sequences that are valid
/// UTF-8 and returns the text that they encode; otherwise its error says where
/// the bytes go wrong.
#[verifier::external_body]
fn utf8_text(bytes: &[u8]) -> (r: Result<String, String>)
    ensures
        match r {
            Ok(s) => valid_utf8(bytes@) && s@ == decode_utf8(bytes@),
            Err(m) => !valid_utf8(bytes@) && m@ == utf8_fault(bytes@),
        },
{
    match core::str::from_utf8(bytes) {
        Ok(s) => Ok(s.to_string()),
        Err(e) => Err(e.to_string()),
    }
}

/// A `serde_json::Number` as a [`JsonNumber`]: what `Number::as_u64` returns
/// where it returns a value, else what `Number::as_i64` returns, else the
/// number as it is. Nothing is claimed of the result here.
#[verifier::external_body]
fn number_of(n: &serde_json::Number) -> JsonNumber {
    match (n.as_u64(), n.as_i64()) {
        (Some(u), _) => JsonNumber::Unsigned(u),
        (_, Some(i)) => JsonNumber::Negative(i),
        _ => JsonNumber::Other(n.clone()),
    }
}

/// A `serde_json::Value` as a [`Json`], variant by variant, the members of an
/// object in the order in which its map hands them out. Nothing is claimed of
/// the result here.
#[verifier::external_body]
fn json_of(v: &serde_json::Value) -> Json {
    match v {
        serde_json::Value::Null => Json::Null,
        serde_json::Value::Bool(b) => Json::Bool(*b),
        serde_json::Value::Number(n) => Json::Number(number_of(n)),
        serde_json::Value::String(s) => Json::String(s.clone()),
        serde_json::Value::Array(a) => Json::Array(a.iter().map(json_of).collect()),
        serde_json::Value::Object(m) => Json::Object(
            m.iter().map(|(k, v)| (k.clone(), json_of(v))).collect(),
        ),
    }
}

/// A [`Json`] as a `serde_json::Value`, variant by variant. Nothing is claimed
/// of the result here.
#[verifier::external_body]
fn value_of(j: &Json) -> serde_json::Value {
    match j {
        Json::Null => serde_json::Value::Null,
        Json::Bool(b) => serde_json::Value::Bool(*b),
        Json::Number(JsonNumber::Unsigned(u)) => serde_json::Value::from(*u),
        Json::Number(JsonNumber::Negative(i)) => serde_json::Value::from(*i),
        Json::Number(JsonNumber::Other(n)) => serde_json::Value::Number(n.clone()),
        Json::String(s) => serde_json::Value::String(s.clone()),
        Json::Array(a) => serde_json::Value::Array(a.iter().map(value_of).collect()),
        Json::Object(m) => object_of(m),
    }
}

/// The members of an object as a `serde_json::Value`: they go into a new
/// `serde_json::Map` one by one, in order, through `Map::insert`, which
/// replaces the value of a key that is already there. Nothing is claimed of
/// the result here.
#[verifier::external_body]
fn object_of(members: &Vec<(String, Json)>) -> serde_json::Value {
    let mut map = serde_json::Map::new();
    for (key, member) in members {
        map.insert(key.clone(), value_of(member));
    }
    serde_json::Value::Object(map)
}

/// `serde_json::from_str` reads one JSON document from the text. What it
/// returns depends on the text alone: the document, here as a [`Json`], or the
/// message of its error.
#[verifier::external_body]
fn read_json(text: &str) -> (r: Result<Json, String>)
    ensures
        match r {
            Ok(j) => json_syntax(text@) == Ok::<JsonValue, Seq<char>>(j@),
            Err(m) => json_syntax(text@) == Err::<JsonValue, Seq<char>>(m@),
        },
{
    match serde_json::from_str::<serde_json::Value>(text) {
        Ok(v) => Ok(json_of(&v)),
        Err(e) => Err(e.to_string()),
    }
}

/// `serde_json::to_string` writes a value as JSON text. What it returns
/// depends on the value alone: the text, or the message of its error.
/// `serde_json` keeps the members of an object in a map that is ordered by
/// key (its `preserve_order` feature is off), so the order in which members
/// were listed does not show. A repeated key comes out once, with its last
/// value: the members are inserted in order, and `Map::insert` replaces the
/// value of a key that is already there.
#[verifier::external_body]
fn write_json(json: &Json) -> (r: Result<String, String>)
    ensures
        match r {
            Ok(t) => json_text(json@) == Ok::<Seq<char>, Seq<char>>(t@),
            Err(m) => json_text(json@) == Err::<Seq<char>, Seq<char>>(m@),
        },
{
    match serde_json::to_string(&value_of(json)) {
        Ok(t) => Ok(t),
        Err(e) => Err(e.to_string()),
    }
}

/// The bytes of a buffer, or `None` for an absent one.
pub open spec fn bytes_value(raw: Option<&[u8]>) -> Option<Seq<u8>> {
    match raw {
        Some(b) => Some(b@),
        None => None,
    }
}

/// The text of an input buffer: empty for an absent buffer, else what the
/// bytes encode, or an encoding error.
pub open spec fn text_input(raw: Option<Seq<u8>>) -> Result<Seq<char>, ErrorValue> {
    match raw {
        None => Ok(Seq::empty()),
        Some(b) => if valid_utf8(b) {
            Ok(decode_utf8(b))
        } else {
            Err(ErrorValue::Encoding(utf8_fault(b)))
        },
    }
}

/// The document that a text holds: null for a blank text, else what the text
/// denotes, or a parse error.
pub open spec fn json_document(text: Seq<char>) -> Result<JsonValue, ErrorValue> {
    if blank(text) {
        Ok(JsonValue::Null)
    } else {
        match json_syntax(text) {
            Ok(v) => Ok(v),
            Err(m) => Err(ErrorValue::Parse(m)),
        }
    }
}

/// The document of an input buffer: null for an absent buffer, else the
/// document of its text.
pub open spec fn json_input(raw: Option<Seq<u8>>) -> Result<JsonValue, ErrorValue> {
    match text_input(raw) {
        Err(e) => Err(e),
        Ok(text) => json_document(text),
    }
}

/// The value of what the serializer returned.
pub open spec fn written_value(written: Result<String, String>) -> Result<Seq<char>, Seq<char>> {
    match written {
        Ok(t) => Ok(t@),
        Err(m) => Err(m@),
    }
}

/// The buffer for a text that the serializer wrote, or for its failure.
pub open spec fn buffer_of(written: Result<Seq<char>, Seq<char>>) -> Result<
    Seq<char>,
    ErrorValue,
> {
    match written {
        Err(m) => Err(ErrorValue::Serialize("failed to serialize json: "@ + m)),
        Ok(t) => if has_nul(t) {
            Err(ErrorValue::Serialize(nul_fault(t)))
        } else {
            Ok(t)
        },
    }
}

/// The message for a text that no C string can hold: it gives the position of
/// the first zero byte.
pub open spec fn nul_fault(text: Seq<char>) -> Seq<char> {
    "failed to build c string: nul byte found in provided data at position: "@ + decimal_text(
        nul_position(text) as nat,
    )
}

/// Decodes an input buffer as text.
pub fn string_from_bytes(raw: Option<&[u8]>) -> (r: Result<String, BridgeError>)
    ensures
        result_value(r) == text_input(bytes_value(raw)),
{
    match raw {
        None => Ok(String::new()),
        Some(bytes) => match utf8_text(bytes) {
            Ok(s) => Ok(s),
            Err(m) => Err(BridgeError::Encoding(m)),
        },
    }
}

/// Reads the document that a text holds.
pub fn parse_text(text: &str) -> (r: Result<Json, BridgeError>)
    ensures
        result_value(r) == json_document(text@),
{
    if is_blank(text) {
        return Ok(Json::Null);
    }
    match read_json(text) {
        Ok(j) => Ok(j),
        Err(m) => Err(BridgeError::Parse(m)),
    }
}

/// Decodes an input buffer as a document.
pub fn parse_json(raw: Option<&[u8]>) -> (r: Result<Json, BridgeError>)
    ensures
        result_value(r) == json_input(bytes_value(raw)),
{
    match string_from_bytes(raw) {
        Err(e) => Err(e),
        Ok(text) => {
            proof {
                if raw is None {
                    assert(blank(text@));
                }
            }
            parse_text(text.as_str())
        },
    }
}

/// Turns what the serializer returned into a result buffer: its text, unless
/// the text holds a NUL, which no C string can hold; the failure then says
/// where the first one is.
pub fn buffer_from(written: Result<String, String>) -> (r: Result<Buffer, BridgeError>)
    ensures
        result_value(r) == buffer_of(written_value(written)),
{
    match written {
        Err(m) => {
            let prefix = String::from_str("failed to serialize json: ");
            Err(BridgeError::Serialize(prefix.concat(m.as_str())))
        },
        Ok(t) => match Buffer::new(t) {
            Ok(buffer) => Ok(buffer),
            Err(refused) => {
                let prefix = String::from_str(
                    "failed to build c string: nul byte found in provided data at position: ",
                );
                let position = decimal(nul_byte_position(refused.as_str()));
                Err(BridgeError::Serialize(prefix.concat(position.as_str())))
            },
        },
    }
}

/// Writes a value as a result buffer.
pub fn to_cstring(json: &Json) -> (r: Result<Buffer, BridgeError>)
    ensures
        result_value(r) == buffer_of(json_text(json@)),
{
    buffer_from(write_json(json))
}

} // verus!
