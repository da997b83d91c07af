//! Whole sessions: accumulating fragments and assembling invocations.

use quicktype_codegen::{
    code_file_name, schema_file_name, CodegenContext, Language, TypescriptOptions,
};

fn strs(args: &[String]) -> Vec<&str> {
    args.iter().map(|s| s.as_str()).collect()
}

#[test]
fn one_fragment_then_just_types_arguments() {
    let mut ctx = CodegenContext::new("Base", None);
    ctx.add_schema("{\"title\":\"Foo\"}").unwrap();
    assert_eq!(
        ctx.schema().definitions(),
        &vec![("Foo".to_owned(), "{\"title\":\"Foo\"}".to_owned())]
    );
    let lang = Language::Typescript(TypescriptOptions {
        just_types: true,
        ..TypescriptOptions::default()
    });
    assert_eq!(
        strs(&lang.get_args()),
        vec!["-l", "typescript", "--just-types"]
    );
    assert_eq!(
        ctx.document_string(),
        "{\"$schema\":\"http://json-schema.org/draft-07/schema#\",\"type\":\"object\",\
         \"definitions\":{\"Foo\":{\"title\":\"Foo\"}},\
         \"properties\":{\"t0\":{\"$ref\":\"#/definitions/Foo\"}}}"
    );
}

#[test]
fn add_schema_reports_bad_fragments() {
    let mut ctx = CodegenContext::new("Base", None);
    assert!(ctx.add_schema("{]").is_err());
    assert!(ctx.add_schema("{\"name\":\"untitled\"}").is_err());
    assert!(ctx.add_schema("{\"title\":\"Ok\"}").is_ok());
}

#[test]
fn invocation_uses_translated_arguments_without_override() {
    let mut ctx = CodegenContext::new("Base", None);
    ctx.add_schema("{\"title\":\"Foo\"}").unwrap();
    let lang = Language::Typescript(TypescriptOptions {
        just_types: true,
        ..TypescriptOptions::default()
    });
    let args = ctx.invocation_args(&lang, "/tmp/out", "/tmp/schema.json");
    assert_eq!(
        strs(&args),
        vec![
            "--quiet",
            "-t",
            "Base",
            "-o",
            "/tmp/out",
            "--src-lang",
            "schema",
            "/tmp/schema.json",
            "-l",
            "typescript",
            "--just-types",
        ]
    );
}

#[test]
fn override_replaces_translated_arguments_entirely() {
    let ctx = CodegenContext::new("Base", Some(&["--my-flag", "value"]));
    let lang = Language::Typescript(TypescriptOptions {
        just_types: true,
        ..TypescriptOptions::default()
    });
    let args = ctx.invocation_args(&lang, "out", "schema.json");
    assert_eq!(
        strs(&args),
        vec![
            "--quiet",
            "-t",
            "Base",
            "-o",
            "out",
            "--src-lang",
            "schema",
            "schema.json",
            "--my-flag",
            "value",
        ]
    );
}

#[test]
fn base_name_is_kept() {
    let ctx = CodegenContext::new("MyTypes", None);
    assert_eq!(ctx.base_name(), "MyTypes");
}

#[test]
fn temporary_file_names() {
    assert_eq!(schema_file_name(42), "quick-type-schema-42.json");
    assert_eq!(schema_file_name(0), "quick-type-schema-0.json");
    let lang = Language::Typescript(TypescriptOptions::default());
    assert_eq!(code_file_name(&lang, 90210), "quick-type-code-typescript-90210");
}
