//! Inbound message handling: parsing a protocol line into a JSON value and
//! classifying it by the presence of its routing fields.
//!
//! The JSON value itself is opaque to the proofs; everything the router reads
//! from it is extracted once into a [`MsgShape`] of plain values, and the
//! classification rule is a verified function of that shape alone. What each
//! trusted read returns is given a name — a function of the value (or of the
//! line's text) alone — so that contracts downstream can say which route a
//! line takes, not merely what each route does.

use vstd::prelude::*;

verus! {

use vstd::string::StringSliceAdditionalSpecFns;

/// `serde_json::Value`, carried through the library as an opaque value.
#[verifier::external_type_specification]
#[verifier::external_body]
pub struct ExValue(serde_json::Value);

/// Whether a line is accepted by the JSON parser; a function of the text
/// alone.
pub uninterp spec fn json_valid(s: Seq<u8>) -> bool;

/// The routing fields of one parsed line: the numeric `id` if present and in
/// range, and whether `method`, `result` and `error` fields are present.
#[derive(Clone, Copy, Debug, PartialEq, Eq)]
pub struct MsgShape {
    pub id: Option<u64>,
    pub has_method: bool,
    pub has_result: bool,
    pub has_error: bool,
}

/// The routing fields of the JSON value a line parses to; a function of the
/// text alone.
pub uninterp spec fn line_shape(s: Seq<u8>) -> MsgShape;

/// The field named `key` of a JSON value, read as a `u64`; a function of the
/// value and the key alone.
pub uninterp spec fn u64_field_of(v: serde_json::Value, key: Seq<char>) -> Option<u64>;

/// Whether a JSON value is an object with a field named `key`; a function of
/// the value and the key alone.
pub uninterp spec fn field_present(v: serde_json::Value, key: Seq<char>) -> bool;

/// The compact rendering of a JSON value; a function of the value alone.
pub uninterp spec fn rendered_of(v: serde_json::Value) -> Seq<char>;

/// The routing fields of a parsed value, in terms of its named field reads.
pub open spec fn value_shape(v: serde_json::Value) -> MsgShape {
    MsgShape {
        id: u64_field_of(v, "id"@),
        has_method: field_present(v, "method"@),
        has_result: field_present(v, "result"@),
        has_error: field_present(v, "error"@),
    }
}

/// Relies on `serde_json::from_str::<Value>`: whether a string parses as
/// JSON, and what the parsed value's routing fields are, are determined by
/// its text alone; the error is converted to its display text.
#[verifier::external_body]
pub(crate) fn parse_value(line: &str) -> (r: Result<serde_json::Value, String>)
    ensures
        r is Ok <==> json_valid(line.spec_bytes()),
        r matches Ok(v) ==> value_shape(v) == line_shape(line.spec_bytes()),
{
    serde_json::from_str::<serde_json::Value>(line).map_err(|e| e.to_string())
}

/// Relies on `serde_json::Value::get` and `Value::as_u64`: yields the field
/// named `key` as a `u64` when the value is an object, has that field, and the
/// field is an integer in range; `None` otherwise. The result depends on the
/// value and the key alone.
#[verifier::external_body]
pub(crate) fn value_u64_field(v: &serde_json::Value, key: &str) -> (r: Option<u64>)
    ensures
        r == u64_field_of(*v, key@),
{
    v.get(key).and_then(serde_json::Value::as_u64)
}

/// Relies on `serde_json::Value::get`: tells whether the value is an object
/// with a field named `key`. The result depends on the value and the key
/// alone.
#[verifier::external_body]
pub(crate) fn value_has_field(v: &serde_json::Value, key: &str) -> (r: bool)
    ensures
        r == field_present(*v, key@),
{
    v.get(key).is_some()
}

/// Relies on `serde_json::to_string`: renders a JSON value compactly; the
/// result depends on the value alone. For a `Value` the serializer only fails
/// on maps with non-string keys, which a `Value` cannot hold; the empty
/// string stands for that unreachable failure.
#[verifier::external_body]
pub(crate) fn value_to_string(v: &serde_json::Value) -> (r: String)
    ensures
        r@ == rendered_of(*v),
{
    match serde_json::to_string(v) {
        Ok(s) => s,
        Err(_) => String::new(),
    }
}

/// What the dispatcher does with one parsed line.
#[derive(Clone, Copy, Debug, PartialEq, Eq)]
pub enum MsgClass {
    /// Deliver to the pending request with this id.
    Response { id: u64 },
    /// The remote process issued its own request; forward it.
    ServerRequest { id: u64 },
    /// A notification; forward it.
    Notification,
    /// Nothing to do with it; drop it silently.
    Unroutable,
}

/// The classification precedence:
/// an `id` with `result` or `error` is a response; an `id` with `method` and
/// neither `result` nor `error` is a server request; a bare `id` with none of
/// the three still resolves the pending request with that id (a defensive
/// fallback for minimal reply shapes); no `id` with `method` is a
/// notification; anything else is unroutable.
pub open spec fn classify_shape(s: MsgShape) -> MsgClass {
    match s.id {
        Some(id) => if s.has_result || s.has_error {
            MsgClass::Response { id }
        } else if s.has_method {
            MsgClass::ServerRequest { id }
        } else {
            MsgClass::Response { id }
        },
        None => if s.has_method {
            MsgClass::Notification
        } else {
            MsgClass::Unroutable
        },
    }
}

/// Classifies one parsed line by its routing fields.
pub fn classify(s: &MsgShape) -> (r: MsgClass)
    ensures
        r == classify_shape(*s),
{
    match s.id {
        Some(id) => {
            if s.has_result || s.has_error {
                MsgClass::Response { id }
            } else if s.has_method {
                MsgClass::ServerRequest { id }
            } else {
                MsgClass::Response { id }
            }
        },
        None => {
            if s.has_method {
                MsgClass::Notification
            } else {
                MsgClass::Unroutable
            }
        },
    }
}

/// Reads the routing fields of a parsed line into plain values.
pub(crate) fn shape_of(v: &serde_json::Value) -> (r: MsgShape)
    ensures
        r == value_shape(*v),
{
    MsgShape {
        id: value_u64_field(v, "id"),
        has_method: value_has_field(v, "method"),
        has_result: value_has_field(v, "result"),
        has_error: value_has_field(v, "error"),
    }
}

} // verus!
