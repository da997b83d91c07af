//! The argument translation, language by language.

use quicktype_codegen::cli_builder::CliBuilder;
use quicktype_codegen::{
    AcronymStyle, ArrayOrList, CSharpBaseClass, CSharpFramework, CSharpOptions, CSharpVersion,
    CrystalOptions, DartOptions, ElmOptions, GoOptions, HaskellOptions, JsonSchemaOptions,
    Language, PythonOptions, PythonVersion, RubyOptions, RubyStrictness, RustOptions,
    SmithyOptions, SwiftOptions, TypescriptOptions,
};

fn strs(args: &[String]) -> Vec<&str> {
    args.iter().map(|s| s.as_str()).collect()
}

#[test]
fn typescript_all_defaults_yields_prefix_only() {
    let lang = Language::Typescript(TypescriptOptions::default());
    assert_eq!(strs(&lang.get_args()), vec!["-l", "typescript"]);
}

#[test]
fn typescript_enabled_flags_in_fixed_order() {
    let lang = Language::Typescript(TypescriptOptions {
        just_types: true,
        readonly: true,
        ..TypescriptOptions::default()
    });
    assert_eq!(
        strs(&lang.get_args()),
        vec!["-l", "typescript", "--just-types", "--readonly"]
    );
}

#[test]
fn get_args_is_deterministic() {
    let lang = Language::Swift(SwiftOptions::default());
    assert_eq!(lang.get_args(), lang.get_args());
}

#[test]
fn json_schema_has_no_options() {
    let lang = Language::JsonSchema(JsonSchemaOptions::default());
    assert_eq!(strs(&lang.get_args()), vec!["-l", "schema"]);
}

#[test]
fn crystal_has_no_options() {
    let lang = Language::Crystal(CrystalOptions::default());
    assert_eq!(strs(&lang.get_args()), vec!["-l", "crystal"]);
}

#[test]
fn csharp_default_emits_only_namespace() {
    let lang = Language::CSharp(CSharpOptions::default());
    assert_eq!(
        strs(&lang.get_args()),
        vec!["-l", "csharp", "--namespace", "QuickType"]
    );
}

#[test]
fn csharp_non_default_enums_in_fixed_order() {
    let lang = Language::CSharp(CSharpOptions {
        framework: CSharpFramework::SystemTextJson,
        array_type: ArrayOrList::List,
        csharp_version: CSharpVersion::V5,
        base_class: CSharpBaseClass::EntityData,
        check_required: true,
        ..CSharpOptions::default()
    });
    assert_eq!(
        strs(&lang.get_args()),
        vec![
            "-l",
            "csharp",
            "--framework",
            "SystemTextJson",
            "--array-type",
            "list",
            "--namespace",
            "QuickType",
            "--csharp-version",
            "5",
            "--base-class",
            "EntityData",
            "--check-required",
        ]
    );
}

#[test]
fn dart_default_emits_null_safety_only() {
    let lang = Language::Dart(DartOptions::default());
    assert_eq!(strs(&lang.get_args()), vec!["-l", "dart", "--null-safety"]);
}

#[test]
fn elm_list_array_type_at_fixed_position() {
    let lang = Language::Elm(ElmOptions {
        just_types: false,
        array_type: ArrayOrList::List,
        module: String::new(),
    });
    assert_eq!(strs(&lang.get_args()), vec!["-l", "elm", "--array-type", "list"]);
    let shifted = Language::Elm(ElmOptions {
        just_types: true,
        array_type: ArrayOrList::List,
        module: String::new(),
    });
    assert_eq!(
        strs(&shifted.get_args()),
        vec!["-l", "elm", "--just-types", "--array-type", "list"]
    );
}

#[test]
fn elm_array_flag_appears_exactly_once() {
    let lang = Language::Elm(ElmOptions {
        just_types: true,
        array_type: ArrayOrList::List,
        module: "My.Module".to_owned(),
    });
    let args = lang.get_args();
    let hits = args.iter().filter(|a| a.as_str() == "--array-type").count();
    assert_eq!(hits, 1);
    assert_eq!(args[3], "--array-type");
    assert_eq!(args[4], "list");
}

#[test]
fn go_default_emits_package_and_field_tags() {
    let lang = Language::Go(GoOptions::default());
    assert_eq!(
        strs(&lang.get_args()),
        vec!["-l", "go", "--package", "main", "--field-tags", "json"]
    );
}

#[test]
fn haskell_default_emits_module() {
    let lang = Language::Haskell(HaskellOptions::default());
    assert_eq!(
        strs(&lang.get_args()),
        vec!["-l", "haskell", "--module", "QuickType"]
    );
}

#[test]
fn python_non_default_version_is_emitted() {
    let lang = Language::Python(PythonOptions {
        python_version: PythonVersion::V3_5,
        ..PythonOptions::default()
    });
    assert_eq!(
        strs(&lang.get_args()),
        vec!["-l", "python", "--python-version", "3.5"]
    );
    let default = Language::Python(PythonOptions::default());
    assert_eq!(strs(&default.get_args()), vec!["-l", "python"]);
}

#[test]
fn ruby_strictness_renders_none() {
    let lang = Language::Ruby(RubyOptions {
        strictness: RubyStrictness::NoChecks,
        ..RubyOptions::default()
    });
    assert_eq!(
        strs(&lang.get_args()),
        vec!["-l", "ruby", "--strictness", "none"]
    );
}

#[test]
fn rust_default_emits_edition_and_comments() {
    let lang = Language::Rust(RustOptions::default());
    assert_eq!(
        strs(&lang.get_args()),
        vec!["-l", "rust", "--edition-2018", "--leading-comments"]
    );
}

#[test]
fn rust_skip_serializing_none_flag_spelling() {
    let lang = Language::Rust(RustOptions {
        skip_serializing_none: true,
        edition_2018: false,
        leading_comments: false,
        ..RustOptions::default()
    });
    assert_eq!(
        strs(&lang.get_args()),
        vec!["-l", "rust", "--skip-seriaziling-none"]
    );
}

#[test]
fn smithy_mandatory_framework_always_emitted() {
    let lang = Language::Smithy(SmithyOptions::default());
    assert_eq!(
        strs(&lang.get_args()),
        vec!["-l", "smithy", "--framework", "just-types", "--package", "quicktype"]
    );
}

#[test]
fn swift_default_record() {
    let lang = Language::Swift(SwiftOptions::default());
    assert_eq!(
        strs(&lang.get_args()),
        vec![
            "-l",
            "swift",
            "--initializers",
            "--coding-keys",
            "--acronym-style",
            "pascal",
        ]
    );
}

#[test]
fn swift_non_default_acronym_style() {
    let lang = Language::Swift(SwiftOptions {
        acronym_style: AcronymStyle::Camel,
        convience_initializers: false,
        explicit_coding_keys: false,
        ..SwiftOptions::default()
    });
    assert_eq!(
        strs(&lang.get_args()),
        vec!["-l", "swift", "--acronym-style", "camel"]
    );
}

#[test]
fn language_names() {
    assert_eq!(Language::Typescript(TypescriptOptions::default()).name(), "typescript");
    assert_eq!(Language::JsonSchema(JsonSchemaOptions::default()).name(), "schema");
    assert_eq!(Language::CSharp(CSharpOptions::default()).name(), "csharp");
    assert_eq!(Language::Crystal(CrystalOptions::default()).name(), "crystal");
    assert_eq!(Language::Dart(DartOptions::default()).name(), "dart");
    assert_eq!(Language::Elm(ElmOptions::default()).name(), "elm");
    assert_eq!(Language::Go(GoOptions::default()).name(), "go");
    assert_eq!(Language::Haskell(HaskellOptions::default()).name(), "haskell");
    assert_eq!(Language::Python(PythonOptions::default()).name(), "python");
    assert_eq!(Language::Ruby(RubyOptions::default()).name(), "ruby");
    assert_eq!(Language::Rust(RustOptions::default()).name(), "rust");
    assert_eq!(Language::Smithy(SmithyOptions::default()).name(), "smithy");
    assert_eq!(Language::Swift(SwiftOptions::default()).name(), "swift");
}

#[test]
fn builder_appends_in_call_order() {
    let lang = Language::Go(GoOptions::default());
    let args = CliBuilder::new(&lang)
        .opt_bool("--on", true)
        .opt_bool("--off", false)
        .opt_string("--named", "value")
        .opt_string("--empty", "")
        .opt_enum("--array-type", &ArrayOrList::List)
        .opt_enum("--array-default", &ArrayOrList::Array)
        .build();
    assert_eq!(
        strs(&args),
        vec!["-l", "go", "--on", "--named", "value", "--array-type", "list"]
    );
}
