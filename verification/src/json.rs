//! The JSON codec that the supervisor relies on, as trusted declarations.

use vstd::prelude::*;

verus! {

/// `serde_json::Value`, carried through the supervisor without being inspected.
#[verifier::external_type_specification]
#[verifier::external_body]
pub struct ExValue(serde_json::Value);

/// `serde_json::Error`, carried through the supervisor without being inspected.
#[verifier::external_type_specification]
#[verifier::external_body]
pub struct ExJsonError(serde_json::Error);

/// What `serde_json::to_vec` returns for a value: its compact JSON text as
/// bytes, or the error that serialisation reported.
pub uninterp spec fn json_encoding(value: serde_json::Value) -> Result<Seq<u8>, serde_json::Error>;

/// Whether a byte is one of the four that JSON skips as whitespace: space,
/// line feed, tab, carriage return.
pub open spec fn is_json_space(byte: u8) -> bool {
    byte == 32 || byte == 10 || byte == 9 || byte == 13
}

/// Whether the bytes hold nothing but JSON whitespace.
pub open spec fn only_whitespace(bytes: Seq<u8>) -> bool {
    forall|i: int| 0 <= i < bytes.len() ==> is_json_space(#[trigger] bytes[i])
}

/// What the first step of a `serde_json::StreamDeserializer` over a byte
/// slice returns: `None` when the slice holds nothing but whitespace,
/// otherwise the first value or the error that reading it gave.
pub uninterp spec fn first_json_value(bytes: Seq<u8>) -> Option<
    Result<serde_json::Value, serde_json::Error>,
>;

/// Calls `serde_json::to_vec` on a `Value`. Trusted: the outcome depends on
/// the value alone and is the one named by [`json_encoding`].
#[verifier::external_body]
pub(crate) fn encode_value(value: &serde_json::Value) -> (encoded: Result<
    Vec<u8>,
    serde_json::Error,
>)
    ensures
        match encoded {
            Ok(bytes) => json_encoding(*value) == Ok::<Seq<u8>, serde_json::Error>(bytes@),
            Err(err) => json_encoding(*value) == Err::<Seq<u8>, serde_json::Error>(err),
        },
{
    serde_json::to_vec(value)
}

/// Builds a `serde_json::Deserializer` over the slice, turns it into a
/// stream of `Value`s and takes its first item. Trusted: the outcome depends
/// on the bytes alone and is the one named by [`first_json_value`]; the
/// stream has no item exactly where it skips every byte as whitespace.
#[verifier::external_body]
pub(crate) fn parse_first_value(bytes: &[u8]) -> (next: Option<
    Result<serde_json::Value, serde_json::Error>,
>)
    ensures
        next == first_json_value(bytes@),
        next is None <==> only_whitespace(bytes@),
{
    serde_json::Deserializer::from_slice(bytes).into_iter::<serde_json::Value>().next()
}

} // verus!
