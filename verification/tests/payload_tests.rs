use batch_ingest::payload::parse_attributes;

fn pairs(v: Option<Vec<(String, String)>>) -> Vec<(String, String)> {
    v.expect("body should parse")
}

#[test]
fn empty_object_parses() {
    assert_eq!(pairs(parse_attributes("{}")).len(), 0);
}

#[test]
fn single_pair_parses() {
    let attrs = pairs(parse_attributes("{\"sku\":\"a-1\"}"));
    assert_eq!(attrs, vec![("sku".to_string(), "a-1".to_string())]);
}

#[test]
fn several_pairs_parse_in_order() {
    let attrs = pairs(parse_attributes("{\"sku\":\"a\",\"qty\":\"2\",\"note\":\"\"}"));
    assert_eq!(
        attrs,
        vec![
            ("sku".to_string(), "a".to_string()),
            ("qty".to_string(), "2".to_string()),
            ("note".to_string(), String::new()),
        ]
    );
}

#[test]
fn bodies_out_of_shape_are_rejected() {
    assert!(parse_attributes("").is_none());
    assert!(parse_attributes("not json").is_none());
    assert!(parse_attributes("{").is_none());
    assert!(parse_attributes("{\"sku\":\"a\"").is_none());
    assert!(parse_attributes("{\"sku\":1}").is_none());
    assert!(parse_attributes("{\"sku\":\"a\",}").is_none());
    assert!(parse_attributes("{\"sku\" :\"a\"}").is_none());
    assert!(parse_attributes("{\"sk\\u\":\"a\"}").is_none());
    assert!(parse_attributes("{\"sku\":\"a\"}x").is_none());
    assert!(parse_attributes("[]").is_none());
}
