//! The document tree and structural equality over it.

use vstd::prelude::*;

verus! {

/// A JSON number in canonical form.
///
/// Every integer value that fits a signed 64-bit integer is held as `Int`;
/// larger non-negative integers as `BigUint`; any other number (one with a
/// fractional part or exponent) as `Decimal`, holding its canonical decimal
/// text. Under [`num_wf`] the three variants cover disjoint sets of values, so
/// structural equality of well-formed numbers is equality of values.
pub enum JsonNumber {
    Int(i64),
    BigUint(u64),
    Decimal(String),
}

/// An immutable, already-decoded document tree: the JSON data model.
///
/// Object member order is kept as decoded; lookups take the first entry with
/// the requested key, and [`doc_wf`] asks that keys be unique, so order never
/// affects a lookup's result.
pub enum Document {
    Null,
    Bool(bool),
    Number(JsonNumber),
    Text(String),
    Array(Vec<Document>),
    Object(Vec<(String, Document)>),
}

/// A number is canonical: `BigUint` is reserved for values beyond `i64`.
pub open spec fn num_wf(n: JsonNumber) -> bool {
    match n {
        JsonNumber::Int(_) => true,
        JsonNumber::BigUint(u) => u > i64::MAX,
        JsonNumber::Decimal(_) => true,
    }
}

/// Well-formedness of a document: numbers are canonical and object keys are
/// unique, at every level of the tree. Decoding a JSON text always yields a
/// well-formed tree.
pub open spec fn doc_wf(d: Document) -> bool
    decreases d,
{
    match d {
        Document::Null => true,
        Document::Bool(_) => true,
        Document::Number(n) => num_wf(n),
        Document::Text(_) => true,
        Document::Array(elems) => forall|i: int| 0 <= i < elems@.len() ==> doc_wf(#[trigger] elems@[i]),
        Document::Object(entries) => {
            &&& forall|i: int| 0 <= i < entries@.len() ==> doc_wf((#[trigger] entries@[i]).1)
            &&& forall|i: int, j: int|
                0 <= i < j < entries@.len() ==> (#[trigger] entries@[i]).0@ != (#[trigger] entries@[j]).0@
        },
    }
}

/// The integer a number denotes, when it denotes one.
pub open spec fn num_int_value(n: JsonNumber) -> Option<int> {
    match n {
        JsonNumber::Int(i) => Some(i as int),
        JsonNumber::BigUint(u) => Some(u as int),
        JsonNumber::Decimal(_) => None,
    }
}

/// Structural equality of numbers: same variant, same value.
pub open spec fn num_eq(a: JsonNumber, b: JsonNumber) -> bool {
    match a {
        JsonNumber::Int(x) => b matches JsonNumber::Int(y) && x == y,
        JsonNumber::BigUint(x) => b matches JsonNumber::BigUint(y) && x == y,
        JsonNumber::Decimal(x) => b matches JsonNumber::Decimal(y) && x@ == y@,
    }
}

/// Canonical form makes structural equality of numbers value-based: two
/// well-formed integer-denoting numbers are structurally equal exactly when
/// they denote the same integer, whichever variant carries each.
pub proof fn lemma_num_eq_is_value_eq(a: JsonNumber, b: JsonNumber)
    requires
        num_wf(a),
        num_wf(b),
        num_int_value(a) is Some,
        num_int_value(b) is Some,
    ensures
        num_eq(a, b) <==> num_int_value(a) == num_int_value(b),
{
}

/// The value of the first object entry carrying `key`, if any.
pub open spec fn obj_lookup(entries: Seq<(String, Document)>, key: Seq<char>) -> Option<Document>
    decreases entries.len(),
{
    if entries.len() == 0 {
        None
    } else if entries[0].0@ == key {
        Some(entries[0].1)
    } else {
        obj_lookup(entries.drop_first(), key)
    }
}

/// Structural equality of documents: same variant and equal contents.
/// Arrays compare element-wise in order; objects compare as maps (same entry
/// count, and every entry of `a` is matched by key in `b`), which on
/// well-formed documents — unique keys — is equality of the underlying maps.
pub open spec fn doc_eq(a: Document, b: Document) -> bool
    decreases a,
{
    match a {
        Document::Null => b is Null,
        Document::Bool(x) => b matches Document::Bool(y) && x == y,
        Document::Number(x) => b matches Document::Number(y) && num_eq(x, y),
        Document::Text(x) => b matches Document::Text(y) && x@ == y@,
        Document::Array(x) => {
            &&& b matches Document::Array(y)
            &&& x@.len() == y@.len()
            &&& forall|i: int| 0 <= i < x@.len() ==> doc_eq(#[trigger] x@[i], y@[i])
        },
        Document::Object(x) => {
            &&& b matches Document::Object(y)
            &&& x@.len() == y@.len()
            &&& forall|i: int|
                0 <= i < x@.len() ==> {
                    &&& obj_lookup(y@, (#[trigger] x@[i]).0@) matches Some(d)
                    &&& doc_eq(x@[i].1, d)
                }
        },
    }
}

/// The field of `doc` named `key`, when `doc` is an object that carries it.
pub open spec fn get_field(doc: Document, key: Seq<char>) -> Option<Document> {
    match doc {
        Document::Object(entries) => obj_lookup(entries@, key),
        _ => None,
    }
}

/// The signed 64-bit value of `doc`, when it is a number carrying one.
pub open spec fn as_int_spec(doc: Document) -> Option<i64> {
    match doc {
        Document::Number(n) => match n {
            JsonNumber::Int(i) => Some(i),
            _ => None,
        },
        _ => None,
    }
}

/// The human-readable name of a document's variant.
pub open spec fn variant_name(value: Document) -> Seq<char> {
    match value {
        Document::Null => "null"@,
        Document::Bool(_) => "boolean"@,
        Document::Number(_) => "number"@,
        Document::Text(_) => "string"@,
        Document::Array(_) => "array"@,
        Document::Object(_) => "object"@,
    }
}

/// Human-readable type name of a document's variant, for diagnostics.
pub fn value_variant_name(value: &Document) -> (r: &'static str)
    ensures
        r@ == variant_name(*value),
{
    match value {
        Document::Null => "null",
        Document::Bool(_) => "boolean",
        Document::Number(_) => "number",
        Document::Text(_) => "string",
        Document::Array(_) => "array",
        Document::Object(_) => "object",
    }
}

/// Structural equality test for numbers.
pub fn number_eq(a: &JsonNumber, b: &JsonNumber) -> (r: bool)
    ensures
        r == num_eq(*a, *b),
{
    match a {
        JsonNumber::Int(x) => match b {
            JsonNumber::Int(y) => *x == *y,
            _ => false,
        },
        JsonNumber::BigUint(x) => match b {
            JsonNumber::BigUint(y) => *x == *y,
            _ => false,
        },
        JsonNumber::Decimal(x) => match b {
            JsonNumber::Decimal(y) => *x == *y,
            _ => false,
        },
    }
}

/// The value of the first entry of `entries` carrying `key`, if any.
pub fn lookup_entry<'a>(entries: &'a Vec<(String, Document)>, key: &String) -> (r: Option<
    &'a Document,
>)
    ensures
        match r {
            Some(d) => obj_lookup(entries@, key@) == Some(*d),
            None => obj_lookup(entries@, key@) is None,
        },
{
    let mut i: usize = 0;
    while i < entries.len()
        invariant
            i <= entries@.len(),
            forall|j: int| 0 <= j < i ==> (#[trigger] entries@[j]).0@ != key@,
        decreases entries@.len() - i,
    {
        if entries[i].0 == *key {
            proof {
                lemma_obj_lookup_at(entries@, key@, i as int);
            }
            return Some(&entries[i].1);
        }
        i += 1;
    }
    proof {
        lemma_obj_lookup_none(entries@, key@);
    }
    None
}

/// `obj_lookup` returns the entry at `i` when `i` is the first index whose
/// key matches.
pub proof fn lemma_obj_lookup_at(entries: Seq<(String, Document)>, key: Seq<char>, i: int)
    requires
        0 <= i < entries.len(),
        entries[i].0@ == key,
        forall|j: int| 0 <= j < i ==> (#[trigger] entries[j]).0@ != key,
    ensures
        obj_lookup(entries, key) == Some(entries[i].1),
    decreases i,
{
    if i > 0 {
        lemma_obj_lookup_at(entries.drop_first(), key, i - 1);
    }
}

/// `obj_lookup` returns nothing when no entry's key matches.
pub proof fn lemma_obj_lookup_none(entries: Seq<(String, Document)>, key: Seq<char>)
    requires
        forall|j: int| 0 <= j < entries.len() ==> (#[trigger] entries[j]).0@ != key,
    ensures
        obj_lookup(entries, key) is None,
    decreases entries.len(),
{
    if entries.len() > 0 {
        lemma_obj_lookup_none(entries.drop_first(), key);
    }
}

/// Structural equality test for documents.
#[verifier::loop_isolation(false)]
pub fn value_eq(a: &Document, b: &Document) -> (r: bool)
    ensures
        r == doc_eq(*a, *b),
    decreases *a,
{
    match a {
        Document::Null => matches!(b, Document::Null),
        Document::Bool(x) => match b {
            Document::Bool(y) => *x == *y,
            _ => false,
        },
        Document::Number(x) => match b {
            Document::Number(y) => number_eq(x, y),
            _ => false,
        },
        Document::Text(x) => match b {
            Document::Text(y) => *x == *y,
            _ => false,
        },
        Document::Array(x) => match b {
            Document::Array(y) => {
                if x.len() != y.len() {
                    return false;
                }
                let mut i: usize = 0;
                while i < x.len()
                    invariant
                        i <= x@.len(),
                        forall|j: int| 0 <= j < i ==> doc_eq(#[trigger] x@[j], y@[j]),
                    decreases x@.len() - i,
                {
                    if !value_eq(&x[i], &y[i]) {
                        return false;
                    }
                    i += 1;
                }
                true
            },
            _ => false,
        },
        Document::Object(x) => match b {
            Document::Object(y) => {
                if x.len() != y.len() {
                    return false;
                }
                let mut i: usize = 0;
                while i < x.len()
                    invariant
                        i <= x@.len(),
                        forall|j: int|
                            0 <= j < i ==> {
                                &&& obj_lookup(y@, (#[trigger] x@[j]).0@) matches Some(d)
                                &&& doc_eq(x@[j].1, d)
                            },
                    decreases x@.len() - i,
                {
                    match lookup_entry(y, &x[i].0) {
                        Some(d) => {
                            if !value_eq(&x[i].1, d) {
                                return false;
                            }
                        },
                        None => {
                            return false;
                        },
                    }
                    i += 1;
                }
                true
            },
            _ => false,
        },
    }
}

} // verus!
