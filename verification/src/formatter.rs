//! Serializing an evaluated configuration value to JSON text.
//!
//! The evaluated value is a `serde_json::Value` tree handed back by the
//! language engine; this crate carries it through opaquely and classifies any
//! serializer failure as `SerializationError` instead of panicking.

use vstd::prelude::*;
use crate::error::Error;

verus! {

/// `serde_json::Value` stands for an evaluated configuration: a JSON value
/// tree. This crate never looks inside one; it only hands it to the
/// serializer.
#[verifier::external_type_specification]
#[verifier::external_body]
pub struct ExValue(serde_json::Value);

/// What serde_json::to_string returns for a value: the compact JSON text, or
/// the serializer's error message. It is a function of the value alone.
pub uninterp spec fn compact_json_of(v: serde_json::Value) -> Result<Seq<char>, Seq<char>>;

/// What serde_json::to_string_pretty returns for a value: the multi-line,
/// indented JSON text, or the serializer's error message. It is a function of
/// the value alone.
pub uninterp spec fn pretty_json_of(v: serde_json::Value) -> Result<Seq<char>, Seq<char>>;

/// Relies on serde_json::to_string: serializes the value tree as a single
/// line of JSON text, a function of the value alone, named `compact_json_of`.
/// A serializer error is rendered to its message.
#[verifier::external_body]
fn serialize_compact(v: &serde_json::Value) -> (r: Result<String, String>)
    ensures
        r matches Ok(s) ==> (compact_json_of(*v) matches Ok(t) && s@ == t),
        r matches Err(m) ==> (compact_json_of(*v) matches Err(t) && m@ == t),
{
    match serde_json::to_string(v) {
        Ok(s) => Ok(s),
        Err(e) => Err(e.to_string()),
    }
}

/// Relies on serde_json::to_string_pretty: serializes the value tree as
/// multi-line, indented JSON text, a function of the value alone, named
/// `pretty_json_of`. A serializer error is rendered to its message.
#[verifier::external_body]
fn serialize_pretty(v: &serde_json::Value) -> (r: Result<String, String>)
    ensures
        r matches Ok(s) ==> (pretty_json_of(*v) matches Ok(t) && s@ == t),
        r matches Err(m) ==> (pretty_json_of(*v) matches Err(t) && m@ == t),
{
    match serde_json::to_string_pretty(v) {
        Ok(s) => Ok(s),
        Err(e) => Err(e.to_string()),
    }
}

/// The formatter's whole result, pinned against the serializer's named
/// outcome: success carries exactly the named text, and a named failure
/// becomes `SerializationError` carrying exactly the named message.
pub open spec fn format_result_matches(
    r: Result<String, Error>,
    named: Result<Seq<char>, Seq<char>>,
) -> bool {
    match named {
        Ok(t) => r matches Ok(s) && s@ == t,
        Err(t) => r matches Err(e) && e matches Error::SerializationError { message } && message@
            == t,
    }
}

/// Lift the serializer's raw outcome into the error taxonomy: text passes
/// through unchanged, and a failure message becomes `SerializationError`
/// carrying that message.
pub fn classify_serialization(outcome: Result<String, String>) -> (r: Result<String, Error>)
    ensures
        outcome matches Ok(s) ==> r == Ok::<String, Error>(s),
        outcome matches Err(m) ==> r matches Err(e) && e matches Error::SerializationError {
            message,
        } && message == m,
{
    match outcome {
        Ok(s) => Ok(s),
        Err(m) => Err(Error::SerializationError { message: m }),
    }
}

/// Serialize an evaluated value as JSON text; `pretty` selects multi-line
/// indented output over the compact single line. The result is exactly the
/// serializer's named outcome, classified: it succeeds with the named text
/// whenever the serializer does, and the only error it can return is
/// `SerializationError` with the named message.
pub fn format_value(v: &serde_json::Value, pretty: bool) -> (r: Result<String, Error>)
    ensures
        pretty ==> format_result_matches(r, pretty_json_of(*v)),
        !pretty ==> format_result_matches(r, compact_json_of(*v)),
{
    let outcome = if pretty {
        serialize_pretty(v)
    } else {
        serialize_compact(v)
    };
    classify_serialization(outcome)
}

} // verus!
