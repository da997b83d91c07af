//! The schema accumulator and the merged document's text.

use quicktype_codegen::Schema;

#[test]
fn empty_document_has_no_properties_member() {
    let schema = Schema::new();
    assert_eq!(
        schema.document_string(),
        "{\"$schema\":\"http://json-schema.org/draft-07/schema#\",\"type\":\"object\",\"definitions\":{}}"
    );
}

#[test]
fn one_fragment_lands_under_its_title() {
    let mut schema = Schema::new();
    schema.push_schema_str("{\"title\":\"Foo\"}").unwrap();
    assert_eq!(
        schema.definitions(),
        &vec![("Foo".to_owned(), "{\"title\":\"Foo\"}".to_owned())]
    );
    assert_eq!(schema.property_titles(), &vec!["Foo".to_owned()]);
    assert_eq!(
        schema.document_string(),
        "{\"$schema\":\"http://json-schema.org/draft-07/schema#\",\"type\":\"object\",\
         \"definitions\":{\"Foo\":{\"title\":\"Foo\"}},\
         \"properties\":{\"t0\":{\"$ref\":\"#/definitions/Foo\"}}}"
    );
}

#[test]
fn fragment_text_is_reserialized_compact() {
    let mut schema = Schema::new();
    schema.push_schema_str("  { \"title\" : \"Foo\" }  ").unwrap();
    assert_eq!(
        schema.definitions(),
        &vec![("Foo".to_owned(), "{\"title\":\"Foo\"}".to_owned())]
    );
    assert_eq!(
        schema.raw_schemas(),
        &vec![("Foo".to_owned(), "  { \"title\" : \"Foo\" }  ".to_owned())]
    );
}

#[test]
fn two_fragments_keep_push_order() {
    let mut schema = Schema::new();
    schema.push_schema_str("{\"title\":\"Foo\"}").unwrap();
    schema.push_schema_str("{\"title\":\"Bar\"}").unwrap();
    assert_eq!(
        schema.definitions(),
        &vec![
            ("Foo".to_owned(), "{\"title\":\"Foo\"}".to_owned()),
            ("Bar".to_owned(), "{\"title\":\"Bar\"}".to_owned()),
        ]
    );
    assert_eq!(schema.property_titles(), &vec!["Foo".to_owned(), "Bar".to_owned()]);
    assert_eq!(
        schema.document_string(),
        "{\"$schema\":\"http://json-schema.org/draft-07/schema#\",\"type\":\"object\",\
         \"definitions\":{\"Foo\":{\"title\":\"Foo\"},\"Bar\":{\"title\":\"Bar\"}},\
         \"properties\":{\"t0\":{\"$ref\":\"#/definitions/Foo\"},\
         \"t1\":{\"$ref\":\"#/definitions/Bar\"}}}"
    );
}

#[test]
fn nested_definitions_are_hoisted() {
    let mut schema = Schema::new();
    schema
        .push_schema_str("{\"title\":\"A\",\"definitions\":{\"X\":{\"type\":\"string\"}}}")
        .unwrap();
    assert_eq!(
        schema.definitions(),
        &vec![
            (
                "A".to_owned(),
                "{\"title\":\"A\",\"definitions\":{\"X\":{\"type\":\"string\"}}}".to_owned()
            ),
            ("X".to_owned(), "{\"type\":\"string\"}".to_owned()),
        ]
    );
    assert_eq!(schema.property_titles(), &vec!["A".to_owned()]);
}

#[test]
fn colliding_nested_definition_overwrites_in_place() {
    let mut schema = Schema::new();
    schema.push_schema_str("{\"title\":\"X\",\"v\":\"one\"}").unwrap();
    schema
        .push_schema_str("{\"title\":\"B\",\"definitions\":{\"X\":{\"v\":\"two\"}}}")
        .unwrap();
    assert_eq!(
        schema.definitions(),
        &vec![
            ("X".to_owned(), "{\"v\":\"two\"}".to_owned()),
            (
                "B".to_owned(),
                "{\"title\":\"B\",\"definitions\":{\"X\":{\"v\":\"two\"}}}".to_owned()
            ),
        ]
    );
    assert_eq!(schema.property_titles(), &vec!["X".to_owned(), "B".to_owned()]);
}

#[test]
fn repeated_title_keeps_one_definition_and_both_slots() {
    let mut schema = Schema::new();
    schema.push_schema_str("{\"title\":\"Foo\",\"a\":\"first\"}").unwrap();
    schema.push_schema_str("{\"title\":\"Foo\",\"a\":\"second\"}").unwrap();
    assert_eq!(
        schema.definitions(),
        &vec![("Foo".to_owned(), "{\"title\":\"Foo\",\"a\":\"second\"}".to_owned())]
    );
    assert_eq!(schema.property_titles(), &vec!["Foo".to_owned(), "Foo".to_owned()]);
}

#[test]
fn invalid_json_is_rejected_and_state_kept() {
    let mut schema = Schema::new();
    schema.push_schema_str("{\"title\":\"Foo\"}").unwrap();
    assert!(schema.push_schema_str("not json at all").is_err());
    assert!(schema.push_schema_str("{\"title\":").is_err());
    assert_eq!(schema.property_titles(), &vec!["Foo".to_owned()]);
    assert_eq!(schema.definitions().len(), 1);
}

#[test]
fn fragment_without_string_title_is_rejected() {
    let mut schema = Schema::new();
    assert!(schema.push_schema_str("{}").is_err());
    assert!(schema.push_schema_str("{\"title\":7}").is_err());
    assert!(schema.push_schema_str("[\"title\"]").is_err());
    assert!(schema.push_schema_str("\"title\"").is_err());
    assert!(schema.definitions().is_empty());
    assert!(schema.property_titles().is_empty());
}

#[test]
fn titles_needing_escapes_are_quoted_in_the_document() {
    let mut schema = Schema::new();
    schema.push_schema_str("{\"title\":\"F\\\"o\"}").unwrap();
    assert_eq!(
        schema.document_string(),
        "{\"$schema\":\"http://json-schema.org/draft-07/schema#\",\"type\":\"object\",\
         \"definitions\":{\"F\\\"o\":{\"title\":\"F\\\"o\"}},\
         \"properties\":{\"t0\":{\"$ref\":\"#/definitions/F\\\"o\"}}}"
    );
}

#[test]
fn eleven_fragments_number_their_slots_in_decimal() {
    let mut schema = Schema::new();
    for i in 0..11 {
        let frag = format!("{{\"title\":\"T{}\"}}", i);
        schema.push_schema_str(&frag).unwrap();
    }
    let doc = schema.document_string();
    assert!(doc.contains("\"t0\":{\"$ref\":\"#/definitions/T0\"}"));
    assert!(doc.contains("\"t10\":{\"$ref\":\"#/definitions/T10\"}"));
    assert_eq!(schema.property_titles().len(), 11);
}
