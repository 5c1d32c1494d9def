//! The structured values carried by checkpoints and artifact events.
//!
//! Payloads are `serde_json` values. The library never looks inside one: it
//! asks `serde_json` to encode a caller's value, substitutes a marker string
//! when that fails, and carries the result along.

use vstd::prelude::*;

verus! {

/// `serde_json::Value`, carried through without inspecting it.
#[verifier::external_type_specification]
#[verifier::external_body]
pub struct ExJsonValue(serde_json::Value);

/// The JSON number that `serde_json` makes of the integer `value`.
pub uninterp spec fn json_integer(value: int) -> serde_json::Value;

/// The JSON boolean that `serde_json` makes of `value`.
pub uninterp spec fn json_bool(value: bool) -> serde_json::Value;

/// The JSON string value whose content is `text`, as built by
/// `serde_json::Value::String`.
pub uninterp spec fn json_string(text: Seq<char>) -> serde_json::Value;

/// Content of the marker that stands in for a value that could not be encoded.
pub open spec fn placeholder_text() -> Seq<char> {
    "<serialization_error>"@
}

/// The payload recorded for an encoding attempt: the encoded value, or the
/// marker string when encoding failed.
pub open spec fn payload_of(encoded: Option<serde_json::Value>) -> serde_json::Value {
    match encoded {
        Some(value) => value,
        None => json_string(placeholder_text()),
    }
}

/// Trusted: `serde_json::to_value` on a signed integer never fails and
/// yields the JSON number of that integer.
#[verifier::external_body]
pub(crate) fn encode_signed(value: i64) -> (encoded: Option<serde_json::Value>)
    ensures
        encoded == Some(json_integer(value as int)),
{
    serde_json::to_value(value).ok()
}

/// Trusted: `serde_json::to_value` on an unsigned integer never fails and
/// yields the JSON number of that integer.
#[verifier::external_body]
pub(crate) fn encode_unsigned(value: u64) -> (encoded: Option<serde_json::Value>)
    ensures
        encoded == Some(json_integer(value as int)),
{
    serde_json::to_value(value).ok()
}

/// Trusted: `serde_json::to_value` on a boolean never fails and yields the
/// JSON boolean of the same truth value.
#[verifier::external_body]
pub(crate) fn encode_bool(value: bool) -> (encoded: Option<serde_json::Value>)
    ensures
        encoded == Some(json_bool(value)),
{
    serde_json::to_value(value).ok()
}

/// Trusted: `serde_json::to_value` on a string never fails and yields the
/// JSON string with the same content.
#[verifier::external_body]
pub(crate) fn encode_text(value: &str) -> (encoded: Option<serde_json::Value>)
    ensures
        encoded == Some(json_string(value@)),
{
    serde_json::to_value(value).ok()
}

/// Trusted: builds `serde_json::Value::String(text)`, the JSON string with
/// exactly the given content.
#[verifier::external_body]
pub(crate) fn string_value(text: String) -> (value: serde_json::Value)
    ensures
        value == json_string(text@),
{
    serde_json::Value::String(text)
}

/// Trusted: `Clone` for `serde_json::Value` yields a value equal to the one
/// cloned.
#[verifier::external_body]
pub(crate) fn clone_value(value: &serde_json::Value) -> (copy: serde_json::Value)
    ensures
        copy == *value,
{
    value.clone()
}

/// Turns the outcome of an encoding attempt into the payload to record: the
/// encoded value when there is one, the marker string otherwise. A failed
/// encoding never becomes an error of its own.
pub fn payload_or_placeholder(encoded: Option<serde_json::Value>) -> (payload: serde_json::Value)
    ensures
        payload == payload_of(encoded),
{
    match encoded {
        Some(value) => value,
        None => string_value(String::from_str("<serialization_error>")),
    }
}

/// Values that can be captured as a JSON value, for a checkpoint or an
/// artifact.
///
/// A type whose values `serde_json` can serialize implements `snapshot` by
/// handing back what `serde_json::to_value` returns, without its error.
pub trait Snapshot {
    /// The JSON encoding of this value, or `None` when it has none.
    spec fn encoding(&self) -> Option<serde_json::Value>;

    /// Encodes this value.
    fn snapshot(&self) -> (encoded: Option<serde_json::Value>)
        ensures
            encoded == self.encoding(),
    ;
}

/// Encodes `value` for recording: its JSON encoding, or the marker string
/// when it has none.
pub fn capture<T: Snapshot>(value: &T) -> (payload: serde_json::Value)
    ensures
        payload == payload_of(value.encoding()),
{
    payload_or_placeholder(value.snapshot())
}

impl Snapshot for bool {
    open spec fn encoding(&self) -> Option<serde_json::Value> {
        Some(json_bool(*self))
    }

    fn snapshot(&self) -> (encoded: Option<serde_json::Value>) {
        encode_bool(*self)
    }
}

impl Snapshot for i8 {
    open spec fn encoding(&self) -> Option<serde_json::Value> {
        Some(json_integer(*self as int))
    }

    fn snapshot(&self) -> (encoded: Option<serde_json::Value>) {
        encode_signed(*self as i64)
    }
}

impl Snapshot for i16 {
    open spec fn encoding(&self) -> Option<serde_json::Value> {
        Some(json_integer(*self as int))
    }

    fn snapshot(&self) -> (encoded: Option<serde_json::Value>) {
        encode_signed(*self as i64)
    }
}

impl Snapshot for i32 {
    open spec fn encoding(&self) -> Option<serde_json::Value> {
        Some(json_integer(*self as int))
    }

    fn snapshot(&self) -> (encoded: Option<serde_json::Value>) {
        encode_signed(*self as i64)
    }
}

impl Snapshot for i64 {
    open spec fn encoding(&self) -> Option<serde_json::Value> {
        Some(json_integer(*self as int))
    }

    fn snapshot(&self) -> (encoded: Option<serde_json::Value>) {
        encode_signed(*self)
    }
}

impl Snapshot for isize {
    open spec fn encoding(&self) -> Option<serde_json::Value> {
        Some(json_integer(*self as int))
    }

    fn snapshot(&self) -> (encoded: Option<serde_json::Value>) {
        encode_signed(*self as i64)
    }
}

impl Snapshot for u8 {
    open spec fn encoding(&self) -> Option<serde_json::Value> {
        Some(json_integer(*self as int))
    }

    fn snapshot(&self) -> (encoded: Option<serde_json::Value>) {
        encode_unsigned(*self as u64)
    }
}

impl Snapshot for u16 {
    open spec fn encoding(&self) -> Option<serde_json::Value> {
        Some(json_integer(*self as int))
    }

    fn snapshot(&self) -> (encoded: Option<serde_json::Value>) {
        encode_unsigned(*self as u64)
    }
}

impl Snapshot for u32 {
    open spec fn encoding(&self) -> Option<serde_json::Value> {
        Some(json_integer(*self as int))
    }

    fn snapshot(&self) -> (encoded: Option<serde_json::Value>) {
        encode_unsigned(*self as u64)
    }
}

impl Snapshot for u64 {
    open spec fn encoding(&self) -> Option<serde_json::Value> {
        Some(json_integer(*self as int))
    }

    fn snapshot(&self) -> (encoded: Option<serde_json::Value>) {
        encode_unsigned(*self)
    }
}

impl Snapshot for usize {
    open spec fn encoding(&self) -> Option<serde_json::Value> {
        Some(json_integer(*self as int))
    }

    fn snapshot(&self) -> (encoded: Option<serde_json::Value>) {
        encode_unsigned(*self as u64)
    }
}

impl Snapshot for String {
    open spec fn encoding(&self) -> Option<serde_json::Value> {
        Some(json_string(self@))
    }

    fn snapshot(&self) -> (encoded: Option<serde_json::Value>) {
        encode_text(self.as_str())
    }
}

impl Snapshot for serde_json::Value {
    open spec fn encoding(&self) -> Option<serde_json::Value> {
        Some(*self)
    }

    fn snapshot(&self) -> (encoded: Option<serde_json::Value>) {
        Some(clone_value(self))
    }
}

} // verus!
