use splendor::json::{copy_json, Json};

fn sample() -> Json {
    let mut inner = Json::object();
    inner.insert("k".to_string(), Json::Array(vec![Json::UInt(1), Json::Int(-2), Json::Null, Json::Bool(true)]));
    let mut outer = Json::object();
    outer.insert("name".to_string(), Json::Str("x".to_string()));
    outer.insert("nested".to_string(), inner);
    outer
}

fn render(j: &Json) -> String {
    match j {
        Json::Null => "null".to_string(),
        Json::Bool(b) => b.to_string(),
        Json::UInt(n) => n.to_string(),
        Json::Int(n) => n.to_string(),
        Json::Str(s) => format!("{s:?}"),
        Json::Array(items) => format!("[{}]", items.iter().map(render).collect::<Vec<_>>().join(",")),
        Json::Object(entries) => format!(
            "{{{}}}",
            entries.iter().map(|(k, v)| format!("{k:?}:{}", render(v))).collect::<Vec<_>>().join(",")
        ),
    }
}

#[test]
fn copies_are_structurally_identical() {
    let original = sample();
    let copy = copy_json(&original);
    assert_eq!(render(&copy), render(&original));
    assert_eq!(render(&copy), r#"{"name":"x","nested":{"k":[1,-2,null,true]}}"#);
}

#[test]
fn insert_replaces_an_existing_key_in_place() {
    let mut o = sample();
    o.insert("name".to_string(), Json::UInt(7));
    assert_eq!(render(&o), r#"{"name":7,"nested":{"k":[1,-2,null,true]}}"#);
    assert!(matches!(o.get(&"name".to_string()), Some(Json::UInt(7))));
    assert!(o.get(&"missing".to_string()).is_none());
}
