use portus_runtime::json::{json_len_capped, string_map_json_len_capped};
use portus_runtime::safety::SafeData;

#[test]
fn compact_json_lengths_of_each_shape() {
    assert_eq!(json_len_capped(&SafeData::Null, 100), 4);
    assert_eq!(json_len_capped(&SafeData::Bool(true), 100), 4);
    assert_eq!(json_len_capped(&SafeData::Bool(false), 100), 5);
    assert_eq!(json_len_capped(&SafeData::Int(-42), 100), 3);
    assert_eq!(json_len_capped(&SafeData::Int(i64::MIN), 100), 20);
    assert_eq!(json_len_capped(&SafeData::UInt(0), 100), 1);
    assert_eq!(json_len_capped(&SafeData::UInt(u64::MAX), 100), 20);
    // "a\"b" is escaped by serde_json to six bytes.
    assert_eq!(json_len_capped(&SafeData::Str("a\"b".to_string()), 100), 6);
    let array = SafeData::Array(vec![SafeData::UInt(1), SafeData::Bool(true), SafeData::Str("a".to_string())]);
    assert_eq!(json_len_capped(&array, 100), "[1,true,\"a\"]".len());
    let object = SafeData::Object(vec![
        ("k".to_string(), SafeData::Str("a\"b".to_string())),
        ("n".to_string(), SafeData::Array(vec![])),
    ]);
    assert_eq!(json_len_capped(&object, 100), "{\"k\":\"a\\\"b\",\"n\":[]}".len());
    assert_eq!(json_len_capped(&SafeData::Object(vec![]), 100), 2);
}

#[test]
fn lengths_past_the_bound_read_as_one_past_it() {
    let long = SafeData::Str("x".repeat(50));
    assert_eq!(json_len_capped(&long, 52), 52);
    assert_eq!(json_len_capped(&long, 51), 52);
    assert_eq!(json_len_capped(&SafeData::Array(vec![SafeData::Null, SafeData::Null]), 5), 6);
}

#[test]
fn string_maps_encode_as_objects_of_strings() {
    let pairs = vec![("free".to_string(), "12".to_string()), ("unit".to_string(), "MiB".to_string())];
    assert_eq!(string_map_json_len_capped(&pairs, 100), "{\"free\":\"12\",\"unit\":\"MiB\"}".len());
    assert_eq!(string_map_json_len_capped(&vec![], 100), 2);
    assert_eq!(string_map_json_len_capped(&vec![], 1), 2);
    assert_eq!(string_map_json_len_capped(&pairs, 10), 11);
}
