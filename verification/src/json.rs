//! Single values out of JSON documents, as serde_json reads them, and texts out of bytes.

use vstd::prelude::*;
use vstd::utf8::{decode_utf8, valid_utf8};

verus! {

/// The bytes are a JSON document.
pub uninterp spec fn json_valid(bytes: Seq<u8>) -> bool;

/// The text that stands at a JSON pointer of a document; nothing where the bytes are no document
/// or no text stands there.
pub uninterp spec fn json_text(bytes: Seq<u8>, pointer: Seq<char>) -> Option<Seq<char>>;

/// The unsigned 64-bit integer that stands at a JSON pointer of a document.
pub uninterp spec fn json_unsigned(bytes: Seq<u8>, pointer: Seq<char>) -> Option<u64>;

/// The truth value that stands at a JSON pointer of a document.
pub uninterp spec fn json_truth(bytes: Seq<u8>, pointer: Seq<char>) -> Option<bool>;

/// `serde_json::from_slice` into a `Value` succeeds or fails by the bytes alone. Which bytes are
/// JSON documents is not stated.
#[verifier::external_body]
pub(crate) fn is_json(bytes: &[u8]) -> (r: bool)
    ensures
        r == json_valid(bytes@),
{
    serde_json::from_slice::<serde_json::Value>(bytes).is_ok()
}

/// `serde_json::Value::pointer` and `as_str` on the document that `serde_json::from_slice` reads.
/// The result depends on the bytes and the pointer alone; only documents hold texts.
#[verifier::external_body]
pub(crate) fn text_at(bytes: &[u8], pointer: &str) -> (r: Option<String>)
    ensures
        r is Some == json_text(bytes@, pointer@) is Some,
        r is Some ==> json_text(bytes@, pointer@) == Some(r->0@),
        r is Some ==> json_valid(bytes@),
{
    let document: serde_json::Value = serde_json::from_slice(bytes).ok()?;
    document.pointer(pointer)?.as_str().map(|text| text.to_string())
}

/// `serde_json::Value::pointer` and `as_u64` on the document that `serde_json::from_slice` reads.
/// The result depends on the bytes and the pointer alone; only documents hold numbers.
#[verifier::external_body]
pub(crate) fn unsigned_at(bytes: &[u8], pointer: &str) -> (r: Option<u64>)
    ensures
        r == json_unsigned(bytes@, pointer@),
        r is Some ==> json_valid(bytes@),
{
    let document: serde_json::Value = serde_json::from_slice(bytes).ok()?;
    document.pointer(pointer)?.as_u64()
}

/// `serde_json::Value::pointer` and `as_bool` on the document that `serde_json::from_slice` reads.
/// The result depends on the bytes and the pointer alone; only documents hold truth values.
#[verifier::external_body]
pub(crate) fn truth_at(bytes: &[u8], pointer: &str) -> (r: Option<bool>)
    ensures
        r == json_truth(bytes@, pointer@),
        r is Some ==> json_valid(bytes@),
{
    let document: serde_json::Value = serde_json::from_slice(bytes).ok()?;
    document.pointer(pointer)?.as_bool()
}

/// `std::str::from_utf8` gives the text that the bytes encode, where they are UTF-8.
#[verifier::external_body]
pub(crate) fn decode_text(bytes: &[u8]) -> (r: Option<String>)
    ensures
        r is Some == valid_utf8(bytes@),
        r is Some ==> r->0@ == decode_utf8(bytes@),
{
    std::str::from_utf8(bytes).ok().map(|text| text.to_string())
}

} // verus!
