//! The element matcher: first index of an array element whose field under a
//! match key equals a target value.
//!
//! Three strategies exist: a scalar scan for integer targets, a
//! block-unrolled scan (blocks of eight contiguous elements) for integer
//! targets over large arrays, and a generic structural scan for any target.
//! Each carries a contract pinning its result to the first matching index,
//! and [`lemma_search_paths_agree`] proves the integer test and the
//! structural test look for the same elements, so the choice of strategy
//! never changes the result.

use vstd::prelude::*;

use crate::access::as_integer;
use crate::access::get_array_field;
use crate::access::get_array_spec;
use crate::value::as_int_spec;
use crate::value::doc_eq;
use crate::value::get_field;
use crate::value::lookup_entry;
use crate::value::value_eq;
use crate::value::Document;

verus! {

/// Block width of the unrolled scan: a tunable constant, never semantic.
pub const UNROLL: usize = 8;

/// Array lengths below this use the plain scalar scan.
pub const SMALL_ARRAY_LIMIT: usize = 32;

/// The element's field under `key` carries the integer `v`.
pub open spec fn int_matches(elem: Document, key: Seq<char>, v: i64) -> bool {
    get_field(elem, key) matches Some(f) && as_int_spec(f) == Some(v)
}

/// The element's field under `key` structurally equals `mv`.
pub open spec fn value_matches(elem: Document, key: Seq<char>, mv: Document) -> bool {
    get_field(elem, key) matches Some(f) && doc_eq(f, mv)
}

/// The integer match test as a predicate on elements.
pub open spec fn int_match_pred(key: Seq<char>, v: i64) -> spec_fn(Document) -> bool {
    |e: Document| int_matches(e, key, v)
}

/// The structural match test as a predicate on elements.
pub open spec fn value_match_pred(key: Seq<char>, mv: Document) -> spec_fn(Document) -> bool {
    |e: Document| value_matches(e, key, mv)
}

/// The lowest index of an element satisfying `pred`, if any.
pub open spec fn first_where(a: Seq<Document>, pred: spec_fn(Document) -> bool) -> Option<int>
    decreases a.len(),
{
    if a.len() == 0 {
        None
    } else if pred(a[0]) {
        Some(0)
    } else {
        match first_where(a.drop_first(), pred) {
            Some(i) => Some(i + 1),
            None => None,
        }
    }
}

/// A found index, as a mathematical integer.
pub open spec fn opt_as_int(r: Option<usize>) -> Option<int> {
    match r {
        Some(i) => Some(i as int),
        None => None,
    }
}

/// The document has an array field under `array_path` holding an element
/// whose field under `match_key` structurally equals `mv`.
pub open spec fn contains_spec(
    doc: Document,
    array_path: Seq<char>,
    match_key: Seq<char>,
    mv: Document,
) -> bool {
    get_array_spec(doc, array_path) matches Some(elems) && first_where(
        elems,
        value_match_pred(match_key, mv),
    ) is Some
}

/// `first_where` returns `i` when `i` is the lowest index satisfying `pred`.
pub proof fn lemma_first_where_at(a: Seq<Document>, pred: spec_fn(Document) -> bool, i: int)
    requires
        0 <= i < a.len(),
        pred(a[i]),
        forall|j: int| 0 <= j < i ==> !#[trigger] pred(a[j]),
    ensures
        first_where(a, pred) == Some(i),
    decreases i,
{
    if i > 0 {
        lemma_first_where_at(a.drop_first(), pred, i - 1);
    }
}

/// `first_where` returns nothing when no element satisfies `pred`.
pub proof fn lemma_first_where_none(a: Seq<Document>, pred: spec_fn(Document) -> bool)
    requires
        forall|j: int| 0 <= j < a.len() ==> !#[trigger] pred(a[j]),
    ensures
        first_where(a, pred) is None,
    decreases a.len(),
{
    if a.len() > 0 {
        lemma_first_where_none(a.drop_first(), pred);
    }
}

/// First-match tie-break: whatever predicate a search strategy tests, the
/// found index satisfies it and no lower index does — two elements matching
/// the same key/value resolve to the lower index; an absent result means no
/// element matches.
pub proof fn lemma_first_where_props(a: Seq<Document>, pred: spec_fn(Document) -> bool)
    ensures
        match first_where(a, pred) {
            Some(i) => 0 <= i < a.len() && pred(a[i]) && (forall|j: int|
                0 <= j < i ==> !#[trigger] pred(a[j])),
            None => forall|j: int| 0 <= j < a.len() ==> !#[trigger] pred(a[j]),
        },
    decreases a.len(),
{
    if a.len() > 0 && !pred(a[0]) {
        lemma_first_where_props(a.drop_first(), pred);
        match first_where(a.drop_first(), pred) {
            Some(i) => {
                assert(a.drop_first()[i] == a[i + 1]);
                assert forall|j: int| 0 <= j < i + 1 implies !#[trigger] pred(a[j]) by {
                    if j > 0 {
                        assert(a.drop_first()[j - 1] == a[j]);
                    }
                }
            },
            None => {
                assert forall|j: int| 0 <= j < a.len() implies !#[trigger] pred(a[j]) by {
                    if j > 0 {
                        assert(a.drop_first()[j - 1] == a[j]);
                    }
                }
            },
        }
    }
}

/// Pointwise equal predicates have the same first index.
pub proof fn lemma_first_where_congruent(
    a: Seq<Document>,
    p: spec_fn(Document) -> bool,
    q: spec_fn(Document) -> bool,
)
    requires
        forall|i: int| 0 <= i < a.len() ==> (#[trigger] p(a[i])) == q(a[i]),
    ensures
        first_where(a, p) == first_where(a, q),
    decreases a.len(),
{
    if a.len() > 0 && !p(a[0]) {
        lemma_first_where_congruent(a.drop_first(), p, q);
    }
}

/// The structural test against an integer-carrying target and the integer
/// test for its value accept exactly the same elements.
pub proof fn lemma_match_paths_agree(elem: Document, key: Seq<char>, mv: Document, v: i64)
    requires
        as_int_spec(mv) == Some(v),
    ensures
        value_matches(elem, key, mv) == int_matches(elem, key, v),
{
    match get_field(elem, key) {
        Some(f) => {
            assert(doc_eq(f, mv) == (as_int_spec(f) == Some(v)));
        },
        None => {},
    }
}

/// Equivalence across search paths: over any array and key, whenever the
/// match target carries a signed 64-bit integer, the generic structural scan
/// and the integer scans look for the same first index. The scalar and the
/// block-unrolled strategy already share one contract, so all three paths
/// return the same index or the same absence.
pub proof fn lemma_search_paths_agree(a: Seq<Document>, key: Seq<char>, mv: Document, v: i64)
    requires
        as_int_spec(mv) == Some(v),
    ensures
        first_where(a, value_match_pred(key, mv)) == first_where(a, int_match_pred(key, v)),
{
    let p = value_match_pred(key, mv);
    let q = int_match_pred(key, v);
    assert forall|i: int| 0 <= i < a.len() implies (#[trigger] p(a[i])) == q(a[i]) by {
        lemma_match_paths_agree(a[i], key, mv, v);
    }
    lemma_first_where_congruent(a, p, q);
}

/// Boundary at the threshold: the small-array limit only selects a strategy,
/// never an outcome. On arrays of length 31 and 32 — either side of
/// [`SMALL_ARRAY_LIMIT`] — any results meeting the scalar scan's and the
/// unrolled scan's contracts for the same match target are the same index or
/// the same absence.
pub proof fn lemma_threshold_is_transparent(
    a: Seq<Document>,
    key: Seq<char>,
    v: i64,
    scalar_result: Option<usize>,
    unrolled_result: Option<usize>,
)
    requires
        a.len() == 31 || a.len() == 32,
        opt_as_int(scalar_result) == first_where(a, int_match_pred(key, v)),
        opt_as_int(unrolled_result) == first_where(a, int_match_pred(key, v)),
    ensures
        scalar_result == unrolled_result,
{
}

/// Idempotence of the containment query: its contract makes the result a
/// function of the arguments alone, so any two results for the same
/// arguments are equal.
pub proof fn lemma_contains_deterministic(
    doc: Document,
    array_path: Seq<char>,
    match_key: Seq<char>,
    mv: Document,
    first_result: bool,
    second_result: bool,
)
    requires
        first_result == contains_spec(doc, array_path, match_key, mv),
        second_result == contains_spec(doc, array_path, match_key, mv),
    ensures
        first_result == second_result,
{
}

/// The element's field under `key` carries the integer `v` (executable test).
fn element_int_matches(elem: &Document, key: &String, v: i64) -> (r: bool)
    ensures
        r == int_matches(*elem, key@, v),
{
    let field = match elem {
        Document::Object(entries) => lookup_entry(entries, key),
        _ => None,
    };
    match field {
        Some(f) => match as_integer(f) {
            Some(x) => x == v,
            None => false,
        },
        None => false,
    }
}

/// The element's field under `key` structurally equals `mv` (executable test).
fn element_value_matches(elem: &Document, key: &String, mv: &Document) -> (r: bool)
    ensures
        r == value_matches(*elem, key@, *mv),
{
    let field = match elem {
        Document::Object(entries) => lookup_entry(entries, key),
        _ => None,
    };
    match field {
        Some(f) => value_eq(f, mv),
        None => false,
    }
}

/// Scalar scan for an element whose field under `match_key` carries the
/// integer `match_value`: plain iteration, first hit wins.
#[verifier::loop_isolation(false)]
pub fn find_by_int_id_scalar(array: &[Document], match_key: &str, match_value: i64) -> (r: Option<
    usize,
>)
    ensures
        opt_as_int(r) == first_where(array@, int_match_pred(match_key@, match_value)),
{
    let key = match_key.to_owned();
    let ghost pred = int_match_pred(match_key@, match_value);
    let mut i: usize = 0;
    while i < array.len()
        invariant
            i <= array@.len(),
            forall|j: int| 0 <= j < i ==> !#[trigger] pred(array@[j]),
        decreases array@.len() - i,
    {
        if element_int_matches(&array[i], &key, match_value) {
            proof {
                lemma_first_where_at(array@, pred, i as int);
            }
            return Some(i);
        }
        i += 1;
    }
    proof {
        lemma_first_where_none(array@, pred);
    }
    None
}

/// Integer search with block unrolling: blocks of [`UNROLL`] contiguous
/// elements are scanned in a shape the compiler can vectorize, the remainder
/// element-by-element; arrays below [`SMALL_ARRAY_LIMIT`] fall back to the
/// scalar scan. The result is the same first matching index whatever the
/// route taken.
#[verifier::loop_isolation(false)]
pub fn find_by_int_id_optimized(
    array: &[Document],
    match_key: &str,
    match_value: i64,
) -> (r: Option<usize>)
    ensures
        opt_as_int(r) == first_where(array@, int_match_pred(match_key@, match_value)),
{
    if array.len() < SMALL_ARRAY_LIMIT {
        return find_by_int_id_scalar(array, match_key, match_value);
    }
    let key = match_key.to_owned();
    let ghost pred = int_match_pred(match_key@, match_value);
    let chunks: usize = array.len() / UNROLL;
    let mut chunk_idx: usize = 0;
    while chunk_idx < chunks
        invariant
            chunk_idx <= chunks,
            forall|j: int| 0 <= j < chunk_idx * UNROLL ==> !#[trigger] pred(array@[j]),
        decreases chunks - chunk_idx,
    {
        let base: usize = chunk_idx * UNROLL;
        let mut i: usize = 0;
        while i < UNROLL
            invariant
                i <= UNROLL,
                base == chunk_idx * UNROLL,
                chunk_idx < chunks,
                forall|j: int| 0 <= j < base + i ==> !#[trigger] pred(array@[j]),
            decreases UNROLL - i,
        {
            if element_int_matches(&array[base + i], &key, match_value) {
                proof {
                    lemma_first_where_at(array@, pred, (base + i) as int);
                }
                return Some(base + i);
            }
            i += 1;
        }
        chunk_idx += 1;
    }
    let mut i: usize = chunks * UNROLL;
    while i < array.len()
        invariant
            chunks * UNROLL <= i <= array@.len(),
            forall|j: int| 0 <= j < i ==> !#[trigger] pred(array@[j]),
        decreases array@.len() - i,
    {
        if element_int_matches(&array[i], &key, match_value) {
            proof {
                lemma_first_where_at(array@, pred, i as int);
            }
            return Some(i);
        }
        i += 1;
    }
    proof {
        lemma_first_where_none(array@, pred);
    }
    None
}

/// Generic structural scan: first element whose field under `match_key`
/// structurally equals `match_value`, whatever variant the target is.
#[verifier::loop_isolation(false)]
pub fn find_by_value(array: &[Document], match_key: &str, match_value: &Document) -> (r: Option<
    usize,
>)
    ensures
        opt_as_int(r) == first_where(array@, value_match_pred(match_key@, *match_value)),
{
    let key = match_key.to_owned();
    let ghost pred = value_match_pred(match_key@, *match_value);
    let mut i: usize = 0;
    while i < array.len()
        invariant
            i <= array@.len(),
            forall|j: int| 0 <= j < i ==> !#[trigger] pred(array@[j]),
        decreases array@.len() - i,
    {
        if element_value_matches(&array[i], &key, match_value) {
            proof {
                lemma_first_where_at(array@, pred, i as int);
            }
            return Some(i);
        }
        i += 1;
    }
    proof {
        lemma_first_where_none(array@, pred);
    }
    None
}

/// Find the first element of `array` whose field under `match_key` equals
/// `match_value`, dispatching between the integer fast path and the generic
/// scan. The contract is strategy-independent: always the first index whose
/// element structurally matches, or absence when none does.
pub fn find_match(array: &[Document], match_key: &str, match_value: &Document) -> (r: Option<
    usize,
>)
    ensures
        opt_as_int(r) == first_where(array@, value_match_pred(match_key@, *match_value)),
{
    match as_integer(match_value) {
        Some(v) => {
            let r = find_by_int_id_optimized(array, match_key, v);
            proof {
                lemma_search_paths_agree(array@, match_key@, *match_value, v);
            }
            r
        },
        None => find_by_value(array, match_key, match_value),
    }
}

/// Containment query: `doc` has an array field under `array_path` with an
/// element whose field under `match_key` equals `match_value`. A document
/// that is not an object, a missing field, or a field of another variant all
/// answer `false`, never an error.
pub fn contains(
    doc: &Document,
    array_path: &str,
    match_key: &str,
    match_value: &Document,
) -> (r: bool)
    ensures
        r == contains_spec(*doc, array_path@, match_key@, *match_value),
{
    match get_array_field(doc, array_path) {
        Some(elems) => find_match(elems.as_slice(), match_key, match_value).is_some(),
        None => false,
    }
}

} // verus!
