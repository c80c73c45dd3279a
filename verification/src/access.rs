//! Read-only navigation into a document, and identifier extraction.
//!
//! Every accessor answers with an absence signal instead of failing when the
//! document is not of the expected variant or the key is missing: absence is
//! a first-class, expected outcome at every navigation step.

use vstd::prelude::*;

use crate::decimal::num_text;
use crate::decimal::number_text;
use crate::value::as_int_spec;
use crate::value::get_field;
use crate::value::lookup_entry;
use crate::value::Document;
use crate::value::JsonNumber;

verus! {

/// The elements of the field of `doc` named `key`, when that field is an
/// array.
pub open spec fn get_array_spec(doc: Document, key: Seq<char>) -> Option<Seq<Document>> {
    match get_field(doc, key) {
        Some(Document::Array(elems)) => Some(elems@),
        _ => None,
    }
}

/// The text of `doc`, when it is a string.
pub open spec fn as_text_spec(doc: Document) -> Option<Seq<char>> {
    match doc {
        Document::Text(s) => Some(s@),
        _ => None,
    }
}

/// The normalized identifier under `key` in `doc`: a string field verbatim,
/// a number field as its canonical decimal text, anything else — or a failed
/// lookup — no identifier.
pub open spec fn extract_id_spec(doc: Document, key: Seq<char>) -> Option<Seq<char>> {
    match get_field(doc, key) {
        Some(Document::Text(s)) => Some(s@),
        Some(Document::Number(n)) => Some(num_text(n)),
        _ => None,
    }
}

/// Idempotence of identifier extraction: the contract pins the result's
/// presence and text to the arguments alone, so any two results for the same
/// arguments agree — same absence, or identifiers of the same text.
pub proof fn lemma_extract_deterministic(
    doc: Document,
    key: Seq<char>,
    first_result: Option<String>,
    second_result: Option<String>,
)
    requires
        match first_result {
            Some(s) => extract_id_spec(doc, key) == Some(s@),
            None => extract_id_spec(doc, key) is None,
        },
        match second_result {
            Some(s) => extract_id_spec(doc, key) == Some(s@),
            None => extract_id_spec(doc, key) is None,
        },
    ensures
        match (first_result, second_result) {
            (Some(a), Some(b)) => a@ == b@,
            (None, None) => true,
            _ => false,
        },
{
}

/// The field of `doc` named `key`, when `doc` is an object carrying it.
pub fn get_object_field<'a>(doc: &'a Document, key: &str) -> (r: Option<&'a Document>)
    ensures
        match r {
            Some(d) => get_field(*doc, key@) == Some(*d),
            None => get_field(*doc, key@) is None,
        },
{
    match doc {
        Document::Object(entries) => lookup_entry(entries, &key.to_owned()),
        _ => None,
    }
}

/// The elements of the array field of `doc` named `key`, when present.
pub fn get_array_field<'a>(doc: &'a Document, key: &str) -> (r: Option<&'a Vec<Document>>)
    ensures
        match r {
            Some(elems) => get_array_spec(*doc, key@) == Some(elems@),
            None => get_array_spec(*doc, key@) is None,
        },
{
    match get_object_field(doc, key) {
        Some(Document::Array(elems)) => Some(elems),
        _ => None,
    }
}

/// The text of `doc`, when it is a string.
pub fn as_text<'a>(doc: &'a Document) -> (r: Option<&'a String>)
    ensures
        match r {
            Some(s) => as_text_spec(*doc) == Some(s@),
            None => as_text_spec(*doc) is None,
        },
{
    match doc {
        Document::Text(s) => Some(s),
        _ => None,
    }
}

/// The signed 64-bit value of `doc`, when it is a number carrying one.
/// A number outside the signed 64-bit range is not an integer here, so the
/// integer fast path of the matcher is never taken unsafely.
pub fn as_integer(doc: &Document) -> (r: Option<i64>)
    ensures
        r == as_int_spec(*doc),
{
    match doc {
        Document::Number(JsonNumber::Int(i)) => Some(*i),
        _ => None,
    }
}

/// Extract the normalized identifier under `key` from `doc`.
///
/// A string field is returned unchanged; a number field as its canonical
/// decimal text. A missing key, a document that is not an object, or a field
/// of any other variant all yield the same negative answer.
pub fn extract_identifier(doc: &Document, key: &str) -> (r: Option<String>)
    ensures
        match r {
            Some(s) => extract_id_spec(*doc, key@) == Some(s@),
            None => extract_id_spec(*doc, key@) is None,
        },
{
    match get_object_field(doc, key) {
        Some(Document::Text(s)) => Some(s.clone()),
        Some(Document::Number(n)) => Some(number_text(n)),
        _ => None,
    }
}

} // verus!
