use okapi_request::body::{Content, MediaType, RequestBody};
use okapi_request::error::GenerationError;
use schemars::schema::{InstanceType, SchemaObject};

fn schema_of(instance_type: InstanceType) -> SchemaObject {
    SchemaObject {
        instance_type: Some(instance_type.into()),
        ..Default::default()
    }
}

fn media(instance_type: InstanceType) -> MediaType {
    MediaType { schema: schema_of(instance_type) }
}

#[test]
fn new_content_is_empty() {
    let content = Content::new();
    assert_eq!(content.len(), 0);
    assert!(content.get("application/json").is_none());
    assert!(content.into_entries().is_empty());
}

#[test]
fn insert_adds_a_media_type() {
    let mut content = Content::new();
    content.insert("application/json".to_owned(), media(InstanceType::Object));
    assert_eq!(content.len(), 1);
    assert_eq!(content.get("application/json"), Some(&media(InstanceType::Object)));
    assert!(content.get("application/msgpack").is_none());
    assert!(content.get("").is_none());
}

#[test]
fn insert_replaces_what_was_under_the_media_type() {
    let mut content = Content::new();
    content.insert("application/json".to_owned(), media(InstanceType::Object));
    content.insert("text/plain".to_owned(), media(InstanceType::String));
    content.insert("application/json".to_owned(), media(InstanceType::Array));
    assert_eq!(content.len(), 2);
    assert_eq!(content.get("application/json"), Some(&media(InstanceType::Array)));
    assert_eq!(content.get("text/plain"), Some(&media(InstanceType::String)));
    assert_eq!(
        content.into_entries(),
        vec![
            ("application/json".to_owned(), media(InstanceType::Array)),
            ("text/plain".to_owned(), media(InstanceType::String)),
        ]
    );
}

#[test]
fn content_clone_holds_the_same_entries() {
    let mut content = Content::new();
    content.insert("a/b".to_owned(), media(InstanceType::Null));
    content.insert("c/d".to_owned(), media(InstanceType::Boolean));
    let copy = content.clone();
    assert_eq!(copy.len(), 2);
    assert_eq!(copy.into_entries(), content.into_entries());
}

#[test]
fn single_body_has_one_mandatory_entry() {
    let body = RequestBody::single("application/json", schema_of(InstanceType::Number));
    assert!(body.required);
    assert_eq!(body.content.len(), 1);
    assert_eq!(body.content.get("application/json"), Some(&media(InstanceType::Number)));
}

#[test]
fn optional_body_keeps_its_content() {
    let body = RequestBody::single("application/json", schema_of(InstanceType::Number));
    let copy = body.clone();
    let body = body.optional();
    assert!(!body.required);
    assert!(copy.required);
    assert_eq!(body.content.into_entries(), copy.content.into_entries());
}

#[test]
fn error_carries_its_message() {
    let error = GenerationError::new("schema generation failed".to_owned());
    assert_eq!(error.message(), "schema generation failed");
    assert_eq!(error.clone(), error);
    assert_ne!(error, GenerationError::new(String::new()));
}
