//! End-to-end tests of identifier extraction and array containment.

use jsonb_ivm::access::as_integer;
use jsonb_ivm::access::as_text;
use jsonb_ivm::access::extract_identifier;
use jsonb_ivm::access::get_array_field;
use jsonb_ivm::access::get_object_field;
use jsonb_ivm::decimal::i64_to_dec;
use jsonb_ivm::decimal::u64_to_dec;
use jsonb_ivm::search::contains;
use jsonb_ivm::search::find_by_int_id_optimized;
use jsonb_ivm::search::find_by_int_id_scalar;
use jsonb_ivm::search::find_by_value;
use jsonb_ivm::search::find_match;
use jsonb_ivm::value::value_eq;
use jsonb_ivm::value::value_variant_name;
use jsonb_ivm::value::Document;
use jsonb_ivm::value::JsonNumber;

fn num(i: i64) -> Document {
    Document::Number(JsonNumber::Int(i))
}

fn text(s: &str) -> Document {
    Document::Text(s.to_string())
}

fn obj(entries: Vec<(&str, Document)>) -> Document {
    Document::Object(entries.into_iter().map(|(k, v)| (k.to_string(), v)).collect())
}

fn id_obj(i: i64) -> Document {
    obj(vec![("id", num(i))])
}

fn id_array(ids: &[i64]) -> Vec<Document> {
    ids.iter().map(|i| id_obj(*i)).collect()
}

#[test]
fn extracts_string_identifier() {
    let doc = obj(vec![("id", text("abc"))]);
    assert_eq!(extract_identifier(&doc, "id"), Some("abc".to_string()));
}

#[test]
fn extracts_number_identifier() {
    let doc = obj(vec![("id", num(42))]);
    assert_eq!(extract_identifier(&doc, "id"), Some("42".to_string()));
}

#[test]
fn extracts_uuid_identifier() {
    let doc = obj(vec![
        ("id", text("550e8400-e29b-41d4-a716-446655440000")),
        ("name", text("Alice")),
    ]);
    assert_eq!(
        extract_identifier(&doc, "id"),
        Some("550e8400-e29b-41d4-a716-446655440000".to_string())
    );
}

#[test]
fn rejects_boolean_identifier() {
    let doc = obj(vec![("id", Document::Bool(true))]);
    assert_eq!(extract_identifier(&doc, "id"), None);
}

#[test]
fn rejects_null_identifier() {
    let doc = obj(vec![("id", Document::Null)]);
    assert_eq!(extract_identifier(&doc, "id"), None);
}

#[test]
fn rejects_missing_identifier() {
    let doc = obj(vec![("name", text("x"))]);
    assert_eq!(extract_identifier(&doc, "id"), None);
}

#[test]
fn rejects_array_and_object_identifier() {
    let doc = obj(vec![("id", Document::Array(vec![]))]);
    assert_eq!(extract_identifier(&doc, "id"), None);
    let doc = obj(vec![("id", obj(vec![]))]);
    assert_eq!(extract_identifier(&doc, "id"), None);
}

#[test]
fn extracts_custom_key() {
    let doc = obj(vec![("post_id", num(7)), ("title", text("..."))]);
    assert_eq!(extract_identifier(&doc, "post_id"), Some("7".to_string()));
    assert_eq!(extract_identifier(&doc, "id"), None);
}

#[test]
fn extracts_from_non_object_is_absent() {
    assert_eq!(extract_identifier(&num(1), "id"), None);
    assert_eq!(extract_identifier(&Document::Null, "id"), None);
}

#[test]
fn negative_and_extreme_numbers_to_text() {
    let doc = obj(vec![("id", num(-7))]);
    assert_eq!(extract_identifier(&doc, "id"), Some("-7".to_string()));
    let doc = obj(vec![("id", num(0))]);
    assert_eq!(extract_identifier(&doc, "id"), Some("0".to_string()));
    let doc = obj(vec![("id", num(i64::MIN))]);
    assert_eq!(
        extract_identifier(&doc, "id"),
        Some("-9223372036854775808".to_string())
    );
    let doc = obj(vec![("id", Document::Number(JsonNumber::BigUint(u64::MAX)))]);
    assert_eq!(
        extract_identifier(&doc, "id"),
        Some("18446744073709551615".to_string())
    );
    let doc = obj(vec![("id", Document::Number(JsonNumber::Decimal("3.25".to_string())))]);
    assert_eq!(extract_identifier(&doc, "id"), Some("3.25".to_string()));
}

#[test]
fn decimal_text_exact_values() {
    assert_eq!(u64_to_dec(0), "0");
    assert_eq!(u64_to_dec(10), "10");
    assert_eq!(u64_to_dec(90210), "90210");
    assert_eq!(i64_to_dec(-1), "-1");
    assert_eq!(i64_to_dec(1234567890123456789), "1234567890123456789");
    assert_eq!(i64_to_dec(i64::MAX), "9223372036854775807");
}

#[test]
fn contains_on_malformed_input_is_false() {
    let doc = obj(vec![("other", Document::Array(vec![]))]);
    assert!(!contains(&doc, "posts", "id", &num(1)));
}

#[test]
fn contains_finds_integer_id() {
    let doc = obj(vec![("posts", Document::Array(id_array(&[1, 2, 3])))]);
    assert!(contains(&doc, "posts", "id", &num(2)));
    assert!(!contains(&doc, "posts", "id", &num(999)));
}

#[test]
fn contains_finds_string_id() {
    let posts = Document::Array(vec![
        obj(vec![("id", text("u1"))]),
        obj(vec![("id", text("u2"))]),
    ]);
    let doc = obj(vec![("posts", posts)]);
    assert!(contains(&doc, "posts", "id", &text("u2")));
    assert!(!contains(&doc, "posts", "id", &text("u3")));
}

#[test]
fn contains_on_non_array_field_is_false() {
    let doc = obj(vec![("posts", num(5))]);
    assert!(!contains(&doc, "posts", "id", &num(5)));
}

#[test]
fn contains_on_non_object_document_is_false() {
    assert!(!contains(&Document::Null, "posts", "id", &num(1)));
    assert!(!contains(&text("posts"), "posts", "id", &num(1)));
}

#[test]
fn search_paths_agree_on_many_shapes() {
    for len in [0usize, 1, 7, 8, 9, 30, 31, 32, 33, 40, 64, 67] {
        let ids: Vec<i64> = (0..len as i64).map(|i| i * 3 % 17).collect();
        let array = id_array(&ids);
        for target in 0..20i64 {
            let scalar = find_by_int_id_scalar(&array, "id", target);
            let optimized = find_by_int_id_optimized(&array, "id", target);
            let generic = find_by_value(&array, "id", &num(target));
            assert_eq!(scalar, optimized);
            assert_eq!(scalar, generic);
        }
    }
}

#[test]
fn boundary_below_threshold() {
    let ids: Vec<i64> = (0..31).collect();
    let array = id_array(&ids);
    assert_eq!(find_by_int_id_scalar(&array, "id", 30), Some(30));
    assert_eq!(find_by_int_id_optimized(&array, "id", 30), Some(30));
    assert_eq!(find_by_int_id_scalar(&array, "id", 31), None);
    assert_eq!(find_by_int_id_optimized(&array, "id", 31), None);
}

#[test]
fn boundary_at_threshold() {
    let ids: Vec<i64> = (0..32).collect();
    let array = id_array(&ids);
    assert_eq!(find_by_int_id_scalar(&array, "id", 31), Some(31));
    assert_eq!(find_by_int_id_optimized(&array, "id", 31), Some(31));
    assert_eq!(find_by_int_id_scalar(&array, "id", 32), None);
    assert_eq!(find_by_int_id_optimized(&array, "id", 32), None);
}

#[test]
fn remainder_elements_are_searched() {
    // 35 elements: 4 full blocks of 8, then 3 remainder elements.
    let mut ids: Vec<i64> = vec![-1; 35];
    ids[33] = 77;
    let array = id_array(&ids);
    assert_eq!(find_by_int_id_optimized(&array, "id", 77), Some(33));
    assert_eq!(find_by_int_id_scalar(&array, "id", 77), Some(33));
    assert_eq!(find_by_value(&array, "id", &num(77)), Some(33));
}

#[test]
fn first_match_wins() {
    let array = id_array(&[5, 9, 9, 5]);
    assert_eq!(find_match(&array, "id", &num(9)), Some(1));
    assert_eq!(find_match(&array, "id", &num(5)), Some(0));
    let mut big: Vec<i64> = vec![0; 40];
    big[12] = 9;
    big[29] = 9;
    let array = id_array(&big);
    assert_eq!(find_by_int_id_optimized(&array, "id", 9), Some(12));
}

#[test]
fn elements_without_key_are_skipped() {
    let array = vec![
        obj(vec![("name", text("a"))]),
        num(3),
        Document::Null,
        obj(vec![("id", num(3))]),
    ];
    assert_eq!(find_match(&array, "id", &num(3)), Some(3));
}

fn nested_doc(tail: &str) -> Document {
    obj(vec![("a", num(1)), ("b", Document::Array(vec![num(2), text(tail)]))])
}

#[test]
fn structural_match_on_nested_values() {
    let nested = nested_doc("x");
    assert!(value_eq(&nested, &nested_doc("x")));
    assert!(!value_eq(&nested, &nested_doc("y")));
    let array = vec![obj(vec![("id", nested_doc("y"))]), obj(vec![("id", nested_doc("x"))])];
    assert_eq!(find_match(&array, "id", &nested), Some(1));
}

#[test]
fn number_equality_is_value_based() {
    // An integer target never matches a fractional field, and the canonical
    // form keeps the integer variants disjoint.
    let array = vec![
        obj(vec![("id", Document::Number(JsonNumber::Decimal("2.5".to_string())))]),
        obj(vec![("id", num(2))]),
    ];
    assert_eq!(find_match(&array, "id", &num(2)), Some(1));
}

#[test]
fn repeated_invocation_is_identical() {
    let doc = obj(vec![("posts", Document::Array(id_array(&[1, 2, 3]))), ("id", num(8))]);
    let first_contains = contains(&doc, "posts", "id", &num(2));
    let second_contains = contains(&doc, "posts", "id", &num(2));
    assert_eq!(first_contains, second_contains);
    let first_id = extract_identifier(&doc, "id");
    let second_id = extract_identifier(&doc, "id");
    assert_eq!(first_id, second_id);
}

#[test]
fn accessors_navigate_and_discriminate() {
    let doc = obj(vec![("posts", Document::Array(id_array(&[4]))), ("n", num(6))]);
    assert!(get_object_field(&doc, "posts").is_some());
    assert!(get_object_field(&doc, "absent").is_none());
    assert_eq!(get_array_field(&doc, "posts").map(|a| a.len()), Some(1));
    assert!(get_array_field(&doc, "n").is_none());
    assert_eq!(as_integer(&num(6)), Some(6));
    assert_eq!(as_integer(&Document::Number(JsonNumber::BigUint(u64::MAX))), None);
    assert_eq!(as_integer(&text("6")), None);
    assert_eq!(as_text(&text("abc")).map(|s| s.as_str()), Some("abc"));
    assert!(as_text(&num(1)).is_none());
}

#[test]
fn variant_names() {
    assert_eq!(value_variant_name(&Document::Null), "null");
    assert_eq!(value_variant_name(&Document::Bool(false)), "boolean");
    assert_eq!(value_variant_name(&num(1)), "number");
    assert_eq!(value_variant_name(&text("")), "string");
    assert_eq!(value_variant_name(&Document::Array(vec![])), "array");
    assert_eq!(value_variant_name(&obj(vec![])), "object");
}
