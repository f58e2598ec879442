use lume_core::JsonNode;
use lume_core::as_text;
use lume_core::get_field;
use lume_core::get_index;
use lume_core::is_array_node;
use lume_core::parse_json;

#[test]
fn parse_json_builds_the_tree() {
    let tree = parse_json(r#"{"a":"x","b":[1,true,null],"c":{"d":"y"}}"#).unwrap();
    let a = get_field(&tree, "a").unwrap();
    assert_eq!(as_text(a).unwrap(), "x");
    let b = get_field(&tree, "b").unwrap();
    assert!(is_array_node(b));
    assert!(matches!(get_index(b, 0), Some(JsonNode::Number(_))));
    assert!(matches!(get_index(b, 1), Some(JsonNode::Bool(true))));
    assert!(matches!(get_index(b, 2), Some(JsonNode::Null)));
    assert!(get_index(b, 3).is_none());
    let c = get_field(&tree, "c").unwrap();
    let d = get_field(c, "d").unwrap();
    assert_eq!(as_text(d).unwrap(), "y");
}

#[test]
fn parse_json_rejects_malformed_text() {
    assert!(parse_json("{not json").is_none());
    assert!(parse_json("").is_none());
    assert!(parse_json("{\"a\":}").is_none());
}

#[test]
fn parse_json_accepts_scalars_and_unescapes_strings() {
    let tree = parse_json(r#""a\nb""#).unwrap();
    assert_eq!(as_text(&tree).unwrap(), "a\nb");
    assert!(matches!(parse_json("42"), Some(JsonNode::Number(_))));
    assert!(matches!(parse_json("false"), Some(JsonNode::Bool(false))));
}

#[test]
fn get_field_misses_absent_keys_and_non_objects() {
    let tree = parse_json(r#"{"a":1}"#).unwrap();
    assert!(get_field(&tree, "b").is_none());
    let arr = parse_json("[1,2]").unwrap();
    assert!(get_field(&arr, "a").is_none());
    assert!(get_index(&tree, 0).is_none());
}
