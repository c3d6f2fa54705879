use sysutils::json::{field_json, properties_json, schema_json, Json};
use sysutils::schema::{raw_schema, FieldKind, FieldSpec, ParamShape};
use sysutils::server::{greeting_descriptor, system_info_descriptor};

fn entries(j: &Json) -> Vec<(String, &Json)> {
    match j {
        Json::Object(es) => es.iter().map(|e| (e.key.clone(), &e.value)).collect(),
        _ => panic!("expected an object"),
    }
}

fn text(j: &Json) -> &str {
    match j {
        Json::Text(s) => s.as_str(),
        _ => panic!("expected text"),
    }
}

#[test]
fn empty_schema_object_is_valid_and_untagged() {
    let j = schema_json(&system_info_descriptor().input_schema);
    let es = entries(&j);
    let keys: Vec<&str> = es.iter().map(|(k, _)| k.as_str()).collect();
    assert_eq!(keys, vec!["title", "type", "properties"]);
    assert_eq!(text(es[0].1), "GetSystemInfoRequest");
    assert_eq!(text(es[1].1), "object");
    assert!(entries(es[2].1).is_empty());
}

#[test]
fn greeting_schema_object_lists_required_message() {
    let j = schema_json(&greeting_descriptor().input_schema);
    let es = entries(&j);
    assert_eq!(es.len(), 4);
    assert_eq!(es[3].0, "required");
    match es[3].1 {
        Json::Array(items) => {
            assert_eq!(items.len(), 1);
            assert_eq!(text(&items[0]), "message");
        }
        _ => panic!("expected an array"),
    }
    let props = entries(es[2].1);
    assert_eq!(props[0].0, "message");
    let message = entries(props[0].1);
    assert_eq!(message[0].0, "type");
    assert_eq!(text(message[0].1), "string");
    assert_eq!(message[1].0, "description");
    assert_eq!(text(message[1].1), "the message to send");
}

#[test]
fn tagged_document_keeps_dialect_key() {
    let raw = raw_schema(ParamShape { title: "T".to_string(), fields: vec![] });
    let j = schema_json(&raw);
    let es = entries(&j);
    assert_eq!(es[0].0, "$schema");
    assert_eq!(text(es[0].1), "http://json-schema.org/draft-07/schema#");
    assert_eq!(es[1].0, "title");
}

#[test]
fn optional_field_admits_null() {
    let f = FieldSpec { name: "n".to_string(), kind: FieldKind::Integer, required: false, note: None };
    let j = field_json(&f);
    let es = entries(&j);
    assert_eq!(es.len(), 1);
    match es[0].1 {
        Json::Array(items) => {
            assert_eq!(text(&items[0]), "integer");
            assert_eq!(text(&items[1]), "null");
        }
        _ => panic!("expected an array"),
    }
    let props = properties_json(&vec![f]);
    assert_eq!(props.len(), 1);
    assert_eq!(props[0].key, "n");
}
