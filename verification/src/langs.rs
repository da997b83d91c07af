//! The supported target languages and their per-language option records.
//!
//! Each language variant carries a record of named options. Every option has a
//! fixed default; the argument translation only emits a flag when the option
//! differs from that default (booleans and enumerations) or is non-empty
//! (strings).

use vstd::prelude::*;

verus! {

use crate::cli_builder::CliBuilder;
use crate::cli_builder::CliEnum;
use crate::cli_builder::arg_views;
use crate::cli_builder::bool_opt;
use crate::cli_builder::enum_opt;
use crate::cli_builder::string_opt;

/// One target language together with its configuration record.
#[derive(Debug, Clone, Hash, PartialEq, Eq)]
pub enum Language {
    Typescript(TypescriptOptions),
    JsonSchema(JsonSchemaOptions),
    CSharp(CSharpOptions),
    Crystal(CrystalOptions),
    Dart(DartOptions),
    Elm(ElmOptions),
    Go(GoOptions),
    Haskell(HaskellOptions),
    Python(PythonOptions),
    Ruby(RubyOptions),
    Rust(RustOptions),
    Smithy(SmithyOptions),
    Swift(SwiftOptions),
}

#[derive(Debug, Clone, Hash, PartialEq, Eq, Default)]
pub struct TypescriptOptions {
    /// Interfaces only
    pub just_types: bool,
    /// Transform property names to be JavaScripty
    pub nice_property_names: bool,
    /// Explicitly name unions
    pub explicit_unions: bool,
    /// Use union type instead of enum
    pub prefer_unions: bool,
    /// Use types instead of interfaces
    pub prefer_types: bool,
    /// Use string instead of enum for string enums with single value
    pub prefer_const_values: bool,
    /// Use readonly type members
    pub readonly: bool,
}

#[derive(Debug, Clone, Hash, PartialEq, Eq, Default)]
pub struct JsonSchemaOptions {}

#[derive(Debug, Clone, Hash, PartialEq, Eq)]
pub struct CSharpOptions {
    /// Serialization framework
    pub framework: CSharpFramework,
    /// Use T[] or List<T>
    pub array_type: ArrayOrList,
    /// Property density
    pub density: Density,
    /// Generated namespace
    pub namespace: String,
    /// C# version
    pub csharp_version: CSharpVersion,
    /// Generate virtual properties
    pub virtual_props: bool,
    /// Type to use for "any"
    pub any_type: CSharpAnyType,
    /// Type to use for numbers
    pub number_type: CSharpNumberType,
    /// Output features
    pub features: CSharpFeatures,
    /// Base class
    pub base_class: CSharpBaseClass,
    /// Fail if required properties are missing
    pub check_required: bool,
    /// Keep original field name generate
    pub keep_property_name: bool,
}

#[derive(Debug, Clone, Hash, PartialEq, Eq, Default)]
pub struct CrystalOptions {}

#[derive(Debug, Clone, Hash, PartialEq, Eq)]
pub struct DartOptions {
    /// Null Safety
    pub null_safety: bool,
    /// Types only
    pub just_types: bool,
    /// Put encoder & decoder in Class
    pub coders_in_class: bool,
    /// Use method names fromMap() & toMap()
    pub from_map: bool,
    /// Make all properties required
    pub required_props: bool,
    /// Generate CopyWith method
    pub copy_with: bool,
    /// Generate class definitions with @freezed compatibility
    pub use_freezed: bool,
    /// Generate annotations for Hive type adapters
    pub use_hive: bool,
    /// Generate annotations for json_serializable
    pub use_json_annotation: bool,
    /// Use this name in `part` directive
    pub part_name: String,
}

#[derive(Debug, Clone, Hash, PartialEq, Eq)]
pub struct ElmOptions {
    /// Plain types only
    pub just_types: bool,
    /// Use Array or List
    pub array_type: ArrayOrList,
    /// Generated module name
    pub module: String,
}

#[derive(Debug, Clone, Hash, PartialEq, Eq)]
pub struct GoOptions {
    /// Plain types only
    pub just_types: bool,
    /// Plain types with package only
    pub just_types_and_package: bool,
    /// Generated package name
    pub package: String,
    /// list of tags which should be generated for fields
    pub field_tags: String,
    /// If set, all non-required objects will be tagged with ",omitempty"
    pub omit_empty: bool,
}

#[derive(Debug, Clone, Hash, PartialEq, Eq)]
pub struct HaskellOptions {
    /// Plain types only
    pub just_types: bool,
    /// Use Array or List
    pub array_type: ArrayOrList,
    /// Generated module name
    pub module: String,
}

#[derive(Debug, Clone, Hash, PartialEq, Eq, Default)]
pub struct PythonOptions {
    /// Python Version
    pub python_version: PythonVersion,
    /// Classes only
    pub just_types: bool,
    /// Transform property names to be Pythonic
    pub nice_property_names: bool,
}

#[derive(Debug, Clone, Hash, PartialEq, Eq, Default)]
pub struct RubyOptions {
    /// Plain types only
    pub just_types: bool,
    /// Type strictness
    pub strictness: RubyStrictness,
    /// Specify a wrapping Namespace
    pub namespace: String,
}

#[derive(Debug, Clone, Hash, PartialEq, Eq)]
pub struct RustOptions {
    /// Density
    pub density: Density,
    /// Field visibility
    pub visibility: RustVisibility,
    /// Derive Debug impl
    pub derive_debug: bool,
    /// Derive Clone impl
    pub derive_clone: bool,
    /// Derive PartialEq impl
    pub derive_partial_eq: bool,
    /// Skip serializing empty Option fields
    pub skip_serializing_none: bool,
    /// Edition 2018
    pub edition_2018: bool,
    /// Leading Comments
    pub leading_comments: bool,
}

#[derive(Debug, Clone, Hash, PartialEq, Eq)]
pub struct SmithyOptions {
    /// Serialization framework
    pub framework: SmithyFramework,
    /// Package
    pub package: String,
}

#[derive(Debug, Clone, Hash, PartialEq, Eq)]
pub struct SwiftOptions {
    /// Plain types only
    pub just_types: bool,
    /// Generate initializers and mutators
    pub convience_initializers: bool,
    /// Explicit CodingKey values in Codable types
    pub explicit_coding_keys: bool,
    /// CodingKeys implements protocols
    pub coding_keys_protocol: String,
    /// Alamofire extensions
    pub alamofire: bool,
    /// Prefix for type names
    pub type_prefix: String,
    /// Prefix for type names
    pub struct_or_class: StructOrClass,
    /// Use var instead of let for object properties
    pub mutable_properties: bool,
    /// Acronym naming style
    pub acronym_style: AcronymStyle,
    /// Code density
    pub density: Density,
    /// Support Linux
    pub support_linux: bool,
    /// Objects inherit from NSObject and @objcMembers is added to classes
    pub objective_c_support: bool,
    /// If no matching case is found enum value is set to null
    pub optional_enums: bool,
    /// Renders output in a Swift 5 compatible mode
    pub swift_5_support: bool,
    /// Mark generated models as Sendable
    pub sendable: bool,
    /// Access level
    pub access_level: SwiftAccessLevel,
    /// Make types implement protocol
    pub protocol: SwiftProtocol,
}

#[derive(Debug, Clone, Copy, Hash, PartialEq, Eq, Default)]
pub enum ArrayOrList {
    #[default]
    Array,
    List,
}

#[derive(Debug, Clone, Copy, Hash, PartialEq, Eq, Default)]
pub enum StructOrClass {
    #[default]
    Struct,
    Class,
}

#[derive(Debug, Clone, Copy, Hash, PartialEq, Eq, Default)]
pub enum Density {
    #[default]
    Normal,
    Dense,
}

#[derive(Debug, Clone, Copy, Hash, PartialEq, Eq, Default)]
pub enum AcronymStyle {
    #[default]
    Original,
    Pascal,
    Camel,
    LowerCase,
}

#[derive(Debug, Clone, Copy, Hash, PartialEq, Eq, Default)]
pub enum CSharpFramework {
    #[default]
    NewtonSoft,
    SystemTextJson,
}

#[derive(Debug, Clone, Copy, Hash, PartialEq, Eq, Default)]
pub enum CSharpNumberType {
    #[default]
    Double,
    Decimal,
}

#[derive(Debug, Clone, Copy, Hash, PartialEq, Eq, Default)]
pub enum CSharpAnyType {
    #[default]
    Object,
    Dynamic,
}

#[derive(Debug, Clone, Copy, Hash, PartialEq, Eq, Default)]
pub enum CSharpVersion {
    V5,
    #[default]
    V6,
}

#[derive(Debug, Clone, Copy, Hash, PartialEq, Eq, Default)]
pub enum CSharpFeatures {
    #[default]
    Complete,
    AttributesOnly,
    JustTypesAndNamespace,
    JustTypes,
}

#[derive(Debug, Clone, Copy, Hash, PartialEq, Eq, Default)]
pub enum CSharpBaseClass {
    EntityData,
    #[default]
    Object,
}

#[derive(Debug, Clone, Copy, Hash, PartialEq, Eq, Default)]
pub enum PythonVersion {
    V3_5,
    #[default]
    V3_6,
    V3_7,
}

#[derive(Debug, Clone, Copy, Hash, PartialEq, Eq, Default)]
pub enum RubyStrictness {
    #[default]
    Strict,
    Coercible,
    NoChecks,
}

#[derive(Debug, Clone, Copy, Hash, PartialEq, Eq, Default)]
pub enum RustVisibility {
    #[default]
    Private,
    Crate,
    Public,
}

#[derive(Debug, Clone, Copy, Hash, PartialEq, Eq, Default)]
pub enum SmithyFramework {
    #[default]
    JustTypes,
}

#[derive(Debug, Clone, Copy, Hash, PartialEq, Eq, Default)]
pub enum SwiftAccessLevel {
    #[default]
    Internal,
    Public,
}

#[derive(Debug, Clone, Copy, Hash, PartialEq, Eq, Default)]
pub enum SwiftProtocol {
    #[default]
    NoProtocol,
    Equatable,
    Hashable,
}

impl CliEnum for ArrayOrList {
    open spec fn emitted(&self) -> bool {
        !(*self == ArrayOrList::Array)
    }

    open spec fn text(&self) -> Seq<char> {
        match *self {
            ArrayOrList::Array => "array"@,
            ArrayOrList::List => "list"@,
        }
    }

    fn is_emitted(&self) -> (r: bool) {
        match self {
            ArrayOrList::Array => false,
            ArrayOrList::List => true,
        }
    }

    fn as_str(&self) -> (r: &'static str) {
        match self {
            ArrayOrList::Array => "array",
            ArrayOrList::List => "list",
        }
    }
}

impl CliEnum for StructOrClass {
    open spec fn emitted(&self) -> bool {
        !(*self == StructOrClass::Struct)
    }

    open spec fn text(&self) -> Seq<char> {
        match *self {
            StructOrClass::Struct => "struct"@,
            StructOrClass::Class => "class"@,
        }
    }

    fn is_emitted(&self) -> (r: bool) {
        match self {
            StructOrClass::Struct => false,
            StructOrClass::Class => true,
        }
    }

    fn as_str(&self) -> (r: &'static str) {
        match self {
            StructOrClass::Struct => "struct",
            StructOrClass::Class => "class",
        }
    }
}

impl CliEnum for Density {
    open spec fn emitted(&self) -> bool {
        !(*self == Density::Normal)
    }

    open spec fn text(&self) -> Seq<char> {
        match *self {
            Density::Normal => "normal"@,
            Density::Dense => "dense"@,
        }
    }

    fn is_emitted(&self) -> (r: bool) {
        match self {
            Density::Normal => false,
            Density::Dense => true,
        }
    }

    fn as_str(&self) -> (r: &'static str) {
        match self {
            Density::Normal => "normal",
            Density::Dense => "dense",
        }
    }
}

impl CliEnum for AcronymStyle {
    open spec fn emitted(&self) -> bool {
        !(*self == AcronymStyle::Original)
    }

    open spec fn text(&self) -> Seq<char> {
        match *self {
            AcronymStyle::Original => "original"@,
            AcronymStyle::Pascal => "pascal"@,
            AcronymStyle::Camel => "camel"@,
            AcronymStyle::LowerCase => "lowercase"@,
        }
    }

    fn is_emitted(&self) -> (r: bool) {
        match self {
            AcronymStyle::Original => false,
            _ => true,
        }
    }

    fn as_str(&self) -> (r: &'static str) {
        match self {
            AcronymStyle::Original => "original",
            AcronymStyle::Pascal => "pascal",
            AcronymStyle::Camel => "camel",
            AcronymStyle::LowerCase => "lowercase",
        }
    }
}

impl CliEnum for CSharpFramework {
    open spec fn emitted(&self) -> bool {
        !(*self == CSharpFramework::NewtonSoft)
    }

    open spec fn text(&self) -> Seq<char> {
        match *self {
            CSharpFramework::NewtonSoft => "NetwonSoft"@,
            CSharpFramework::SystemTextJson => "SystemTextJson"@,
        }
    }

    fn is_emitted(&self) -> (r: bool) {
        match self {
            CSharpFramework::NewtonSoft => false,
            CSharpFramework::SystemTextJson => true,
        }
    }

    fn as_str(&self) -> (r: &'static str) {
        match self {
            CSharpFramework::NewtonSoft => "NetwonSoft",
            CSharpFramework::SystemTextJson => "SystemTextJson",
        }
    }
}

impl CliEnum for CSharpNumberType {
    open spec fn emitted(&self) -> bool {
        !(*self == CSharpNumberType::Double)
    }

    open spec fn text(&self) -> Seq<char> {
        match *self {
            CSharpNumberType::Double => "double"@,
            CSharpNumberType::Decimal => "decimal"@,
        }
    }

    fn is_emitted(&self) -> (r: bool) {
        match self {
            CSharpNumberType::Double => false,
            CSharpNumberType::Decimal => true,
        }
    }

    fn as_str(&self) -> (r: &'static str) {
        match self {
            CSharpNumberType::Double => "double",
            CSharpNumberType::Decimal => "decimal",
        }
    }
}

impl CliEnum for CSharpAnyType {
    open spec fn emitted(&self) -> bool {
        !(*self == CSharpAnyType::Object)
    }

    open spec fn text(&self) -> Seq<char> {
        match *self {
            CSharpAnyType::Object => "object"@,
            CSharpAnyType::Dynamic => "dynamic"@,
        }
    }

    fn is_emitted(&self) -> (r: bool) {
        match self {
            CSharpAnyType::Object => false,
            CSharpAnyType::Dynamic => true,
        }
    }

    fn as_str(&self) -> (r: &'static str) {
        match self {
            CSharpAnyType::Object => "object",
            CSharpAnyType::Dynamic => "dynamic",
        }
    }
}

impl CliEnum for CSharpVersion {
    open spec fn emitted(&self) -> bool {
        !(*self == CSharpVersion::V6)
    }

    open spec fn text(&self) -> Seq<char> {
        match *self {
            CSharpVersion::V5 => "5"@,
            CSharpVersion::V6 => "6"@,
        }
    }

    fn is_emitted(&self) -> (r: bool) {
        match self {
            CSharpVersion::V5 => true,
            CSharpVersion::V6 => false,
        }
    }

    fn as_str(&self) -> (r: &'static str) {
        match self {
            CSharpVersion::V5 => "5",
            CSharpVersion::V6 => "6",
        }
    }
}

impl CliEnum for CSharpFeatures {
    open spec fn emitted(&self) -> bool {
        !(*self == CSharpFeatures::Complete)
    }

    open spec fn text(&self) -> Seq<char> {
        match *self {
            CSharpFeatures::Complete => "complete"@,
            CSharpFeatures::AttributesOnly => "attributes-only"@,
            CSharpFeatures::JustTypesAndNamespace => "just-types-and-namespace"@,
            CSharpFeatures::JustTypes => "just-types"@,
        }
    }

    fn is_emitted(&self) -> (r: bool) {
        match self {
            CSharpFeatures::Complete => false,
            _ => true,
        }
    }

    fn as_str(&self) -> (r: &'static str) {
        match self {
            CSharpFeatures::Complete => "complete",
            CSharpFeatures::AttributesOnly => "attributes-only",
            CSharpFeatures::JustTypesAndNamespace => "just-types-and-namespace",
            CSharpFeatures::JustTypes => "just-types",
        }
    }
}

impl CliEnum for CSharpBaseClass {
    open spec fn emitted(&self) -> bool {
        !(*self == CSharpBaseClass::Object)
    }

    open spec fn text(&self) -> Seq<char> {
        match *self {
            CSharpBaseClass::EntityData => "EntityData"@,
            CSharpBaseClass::Object => "Object"@,
        }
    }

    fn is_emitted(&self) -> (r: bool) {
        match self {
            CSharpBaseClass::EntityData => true,
            CSharpBaseClass::Object => false,
        }
    }

    fn as_str(&self) -> (r: &'static str) {
        match self {
            CSharpBaseClass::EntityData => "EntityData",
            CSharpBaseClass::Object => "Object",
        }
    }
}

impl CliEnum for PythonVersion {
    open spec fn emitted(&self) -> bool {
        !(*self == PythonVersion::V3_6)
    }

    open spec fn text(&self) -> Seq<char> {
        match *self {
            PythonVersion::V3_5 => "3.5"@,
            PythonVersion::V3_6 => "3.6"@,
            PythonVersion::V3_7 => "3.7"@,
        }
    }

    fn is_emitted(&self) -> (r: bool) {
        match self {
            PythonVersion::V3_6 => false,
            _ => true,
        }
    }

    fn as_str(&self) -> (r: &'static str) {
        match self {
            PythonVersion::V3_5 => "3.5",
            PythonVersion::V3_6 => "3.6",
            PythonVersion::V3_7 => "3.7",
        }
    }
}

impl CliEnum for RubyStrictness {
    open spec fn emitted(&self) -> bool {
        !(*self == RubyStrictness::Strict)
    }

    open spec fn text(&self) -> Seq<char> {
        match *self {
            RubyStrictness::Strict => "strict"@,
            RubyStrictness::Coercible => "coercible"@,
            RubyStrictness::NoChecks => "none"@,
        }
    }

    fn is_emitted(&self) -> (r: bool) {
        match self {
            RubyStrictness::Strict => false,
            _ => true,
        }
    }

    fn as_str(&self) -> (r: &'static str) {
        match self {
            RubyStrictness::Strict => "strict",
            RubyStrictness::Coercible => "coercible",
            RubyStrictness::NoChecks => "none",
        }
    }
}

impl CliEnum for RustVisibility {
    open spec fn emitted(&self) -> bool {
        !(*self == RustVisibility::Private)
    }

    open spec fn text(&self) -> Seq<char> {
        match *self {
            RustVisibility::Private => "private"@,
            RustVisibility::Crate => "crate"@,
            RustVisibility::Public => "public"@,
        }
    }

    fn is_emitted(&self) -> (r: bool) {
        match self {
            RustVisibility::Private => false,
            _ => true,
        }
    }

    fn as_str(&self) -> (r: &'static str) {
        match self {
            RustVisibility::Private => "private",
            RustVisibility::Crate => "crate",
            RustVisibility::Public => "public",
        }
    }
}

impl CliEnum for SmithyFramework {
    /// A mandatory sub-mode selector: every variant is the declared default,
    /// so the flag is always emitted.
    open spec fn emitted(&self) -> bool {
        true
    }

    open spec fn text(&self) -> Seq<char> {
        match *self {
            SmithyFramework::JustTypes => "just-types"@,
        }
    }

    fn is_emitted(&self) -> (r: bool) {
        true
    }

    fn as_str(&self) -> (r: &'static str) {
        match self {
            SmithyFramework::JustTypes => "just-types",
        }
    }
}

impl CliEnum for SwiftAccessLevel {
    open spec fn emitted(&self) -> bool {
        !(*self == SwiftAccessLevel::Internal)
    }

    open spec fn text(&self) -> Seq<char> {
        match *self {
            SwiftAccessLevel::Internal => "internal"@,
            SwiftAccessLevel::Public => "public"@,
        }
    }

    fn is_emitted(&self) -> (r: bool) {
        match self {
            SwiftAccessLevel::Internal => false,
            SwiftAccessLevel::Public => true,
        }
    }

    fn as_str(&self) -> (r: &'static str) {
        match self {
            SwiftAccessLevel::Internal => "internal",
            SwiftAccessLevel::Public => "public",
        }
    }
}

impl CliEnum for SwiftProtocol {
    open spec fn emitted(&self) -> bool {
        !(*self == SwiftProtocol::NoProtocol)
    }

    open spec fn text(&self) -> Seq<char> {
        match *self {
            SwiftProtocol::NoProtocol => "none"@,
            SwiftProtocol::Equatable => "equatable"@,
            SwiftProtocol::Hashable => "hashable"@,
        }
    }

    fn is_emitted(&self) -> (r: bool) {
        match self {
            SwiftProtocol::NoProtocol => false,
            _ => true,
        }
    }

    fn as_str(&self) -> (r: &'static str) {
        match self {
            SwiftProtocol::NoProtocol => "none",
            SwiftProtocol::Equatable => "equatable",
            SwiftProtocol::Hashable => "hashable",
        }
    }
}

/// The tag that selects `l` on the generator's command line.
pub open spec fn name_spec(l: Language) -> Seq<char> {
    match l {
        Language::Typescript(_) => "typescript"@,
        Language::JsonSchema(_) => "schema"@,
        Language::CSharp(_) => "csharp"@,
        Language::Crystal(_) => "crystal"@,
        Language::Dart(_) => "dart"@,
        Language::Elm(_) => "elm"@,
        Language::Go(_) => "go"@,
        Language::Haskell(_) => "haskell"@,
        Language::Python(_) => "python"@,
        Language::Ruby(_) => "ruby"@,
        Language::Rust(_) => "rust"@,
        Language::Smithy(_) => "smithy"@,
        Language::Swift(_) => "swift"@,
    }
}

/// The exact argument list for `l`: the fixed `-l <tag>` prefix, then each of
/// the language's options in its fixed, documented order.
pub open spec fn args_of(l: Language) -> Seq<Seq<char>> {
    let prefix = seq!["-l"@, name_spec(l)];
    match l {
        Language::Typescript(o) => {
            let a = bool_opt(prefix, "--just-types"@, o.just_types);
            let a = bool_opt(a, "--nice-property-names"@, o.nice_property_names);
            let a = bool_opt(a, "--explicit-unions"@, o.explicit_unions);
            let a = bool_opt(a, "--prefer-unions"@, o.prefer_unions);
            let a = bool_opt(a, "--prefer-types"@, o.prefer_types);
            let a = bool_opt(a, "--prefer-const-values"@, o.prefer_const_values);
            let a = bool_opt(a, "--readonly"@, o.readonly);
            a
        },
        Language::JsonSchema(_) => prefix,
        Language::CSharp(o) => {
            let a = enum_opt(prefix, "--framework"@, o.framework.emitted(), o.framework.text());
            let a = enum_opt(a, "--array-type"@, o.array_type.emitted(), o.array_type.text());
            let a = enum_opt(a, "--density"@, o.density.emitted(), o.density.text());
            let a = string_opt(a, "--namespace"@, o.namespace@);
            let a = enum_opt(
                a,
                "--csharp-version"@,
                o.csharp_version.emitted(),
                o.csharp_version.text(),
            );
            let a = bool_opt(a, "--virtual"@, o.virtual_props);
            let a = enum_opt(a, "--any-type"@, o.any_type.emitted(), o.any_type.text());
            let a = enum_opt(a, "--number-type"@, o.number_type.emitted(), o.number_type.text());
            let a = enum_opt(a, "--features"@, o.features.emitted(), o.features.text());
            let a = enum_opt(a, "--base-class"@, o.base_class.emitted(), o.base_class.text());
            let a = bool_opt(a, "--check-required"@, o.check_required);
            let a = bool_opt(a, "--keep-property-name"@, o.keep_property_name);
            a
        },
        Language::Crystal(_) => prefix,
        Language::Dart(o) => {
            let a = bool_opt(prefix, "--null-safety"@, o.null_safety);
            let a = bool_opt(a, "--just-types"@, o.just_types);
            let a = bool_opt(a, "--coders-in-class"@, o.coders_in_class);
            let a = bool_opt(a, "--from-map"@, o.from_map);
            let a = bool_opt(a, "--required-props"@, o.required_props);
            let a = bool_opt(a, "--copy-with"@, o.copy_with);
            let a = bool_opt(a, "--use-freezed"@, o.use_freezed);
            let a = bool_opt(a, "--use-hive"@, o.use_hive);
            let a = bool_opt(a, "--use-json-annotation"@, o.use_json_annotation);
            let a = string_opt(a, "--part-name"@, o.part_name@);
            a
        },
        Language::Elm(o) => {
            let a = bool_opt(prefix, "--just-types"@, o.just_types);
            let a = enum_opt(a, "--array-type"@, o.array_type.emitted(), o.array_type.text());
            let a = string_opt(a, "--module"@, o.module@);
            a
        },
        Language::Go(o) => {
            let a = bool_opt(prefix, "--just-types"@, o.just_types);
            let a = bool_opt(a, "--just-types-and-package"@, o.just_types_and_package);
            let a = string_opt(a, "--package"@, o.package@);
            let a = string_opt(a, "--field-tags"@, o.field_tags@);
            let a = bool_opt(a, "--omit-empty"@, o.omit_empty);
            a
        },
        Language::Haskell(o) => {
            let a = bool_opt(prefix, "--just-types"@, o.just_types);
            let a = enum_opt(a, "--array-type"@, o.array_type.emitted(), o.array_type.text());
            let a = string_opt(a, "--module"@, o.module@);
            a
        },
        Language::Python(o) => {
            let a = enum_opt(
                prefix,
                "--python-version"@,
                o.python_version.emitted(),
                o.python_version.text(),
            );
            let a = bool_opt(a, "--just-types"@, o.just_types);
            let a = bool_opt(a, "--nice-property-names"@, o.nice_property_names);
            a
        },
        Language::Ruby(o) => {
            let a = bool_opt(prefix, "--just-types"@, o.just_types);
            let a = enum_opt(a, "--strictness"@, o.strictness.emitted(), o.strictness.text());
            let a = string_opt(a, "--namespace"@, o.namespace@);
            a
        },
        Language::Rust(o) => {
            let a = enum_opt(prefix, "--density"@, o.density.emitted(), o.density.text());
            let a = enum_opt(a, "--visibility"@, o.visibility.emitted(), o.visibility.text());
            let a = bool_opt(a, "--derive-debug"@, o.derive_debug);
            let a = bool_opt(a, "--derive-clone"@, o.derive_clone);
            let a = bool_opt(a, "--derive-partial-eq"@, o.derive_partial_eq);
            let a = bool_opt(a, "--skip-seriaziling-none"@, o.skip_serializing_none);
            let a = bool_opt(a, "--edition-2018"@, o.edition_2018);
            let a = bool_opt(a, "--leading-comments"@, o.leading_comments);
            a
        },
        Language::Smithy(o) => {
            let a = enum_opt(prefix, "--framework"@, o.framework.emitted(), o.framework.text());
            let a = string_opt(a, "--package"@, o.package@);
            a
        },
        Language::Swift(o) => {
            let a = bool_opt(prefix, "--just-types"@, o.just_types);
            let a = bool_opt(a, "--initializers"@, o.convience_initializers);
            let a = bool_opt(a, "--coding-keys"@, o.explicit_coding_keys);
            let a = string_opt(a, "--coding-keys-protocol"@, o.coding_keys_protocol@);
            let a = bool_opt(a, "--alamofire"@, o.alamofire);
            let a = string_opt(a, "--type-prefix"@, o.type_prefix@);
            let a = enum_opt(
                a,
                "--struct-or-class"@,
                o.struct_or_class.emitted(),
                o.struct_or_class.text(),
            );
            let a = bool_opt(a, "--mutable-properties"@, o.mutable_properties);
            let a = enum_opt(
                a,
                "--acronym-style"@,
                o.acronym_style.emitted(),
                o.acronym_style.text(),
            );
            let a = enum_opt(a, "--density"@, o.density.emitted(), o.density.text());
            let a = bool_opt(a, "--support-linux"@, o.support_linux);
            let a = bool_opt(a, "--objective-c-support"@, o.objective_c_support);
            let a = bool_opt(a, "--optional-enums"@, o.optional_enums);
            let a = bool_opt(a, "--swift-5-support"@, o.swift_5_support);
            let a = bool_opt(a, "--sendable"@, o.sendable);
            let a = enum_opt(
                a,
                "--access-level"@,
                o.access_level.emitted(),
                o.access_level.text(),
            );
            let a = enum_opt(a, "--protocol"@, o.protocol.emitted(), o.protocol.text());
            a
        },
    }
}

impl Language {
    /// The exact command-line argument list for this selection: the fixed
    /// `-l <tag>` prefix, then each option in this language's fixed order.
    /// Pure: the same selection always yields the same list.
    pub fn get_args(&self) -> (r: Vec<String>)
        ensures
            arg_views(r@) == args_of(*self),
    {
        match self {
            Language::Typescript(opt) => CliBuilder::new(self)
                .opt_bool("--just-types", opt.just_types)
                .opt_bool("--nice-property-names", opt.nice_property_names)
                .opt_bool("--explicit-unions", opt.explicit_unions)
                .opt_bool("--prefer-unions", opt.prefer_unions)
                .opt_bool("--prefer-types", opt.prefer_types)
                .opt_bool("--prefer-const-values", opt.prefer_const_values)
                .opt_bool("--readonly", opt.readonly)
                .build(),
            Language::JsonSchema(_) => CliBuilder::new(self).build(),
            Language::CSharp(opt) => CliBuilder::new(self)
                .opt_enum("--framework", &opt.framework)
                .opt_enum("--array-type", &opt.array_type)
                .opt_enum("--density", &opt.density)
                .opt_string("--namespace", opt.namespace.as_str())
                .opt_enum("--csharp-version", &opt.csharp_version)
                .opt_bool("--virtual", opt.virtual_props)
                .opt_enum("--any-type", &opt.any_type)
                .opt_enum("--number-type", &opt.number_type)
                .opt_enum("--features", &opt.features)
                .opt_enum("--base-class", &opt.base_class)
                .opt_bool("--check-required", opt.check_required)
                .opt_bool("--keep-property-name", opt.keep_property_name)
                .build(),
            Language::Crystal(_) => CliBuilder::new(self).build(),
            Language::Dart(opt) => CliBuilder::new(self)
                .opt_bool("--null-safety", opt.null_safety)
                .opt_bool("--just-types", opt.just_types)
                .opt_bool("--coders-in-class", opt.coders_in_class)
                .opt_bool("--from-map", opt.from_map)
                .opt_bool("--required-props", opt.required_props)
                .opt_bool("--copy-with", opt.copy_with)
                .opt_bool("--use-freezed", opt.use_freezed)
                .opt_bool("--use-hive", opt.use_hive)
                .opt_bool("--use-json-annotation", opt.use_json_annotation)
                .opt_string("--part-name", opt.part_name.as_str())
                .build(),
            Language::Elm(opt) => CliBuilder::new(self)
                .opt_bool("--just-types", opt.just_types)
                .opt_enum("--array-type", &opt.array_type)
                .opt_string("--module", opt.module.as_str())
                .build(),
            Language::Go(opt) => CliBuilder::new(self)
                .opt_bool("--just-types", opt.just_types)
                .opt_bool("--just-types-and-package", opt.just_types_and_package)
                .opt_string("--package", opt.package.as_str())
                .opt_string("--field-tags", opt.field_tags.as_str())
                .opt_bool("--omit-empty", opt.omit_empty)
                .build(),
            Language::Haskell(opt) => CliBuilder::new(self)
                .opt_bool("--just-types", opt.just_types)
                .opt_enum("--array-type", &opt.array_type)
                .opt_string("--module", opt.module.as_str())
                .build(),
            Language::Python(opt) => CliBuilder::new(self)
                .opt_enum("--python-version", &opt.python_version)
                .opt_bool("--just-types", opt.just_types)
                .opt_bool("--nice-property-names", opt.nice_property_names)
                .build(),
            Language::Ruby(opt) => CliBuilder::new(self)
                .opt_bool("--just-types", opt.just_types)
                .opt_enum("--strictness", &opt.strictness)
                .opt_string("--namespace", opt.namespace.as_str())
                .build(),
            Language::Rust(opt) => CliBuilder::new(self)
                .opt_enum("--density", &opt.density)
                .opt_enum("--visibility", &opt.visibility)
                .opt_bool("--derive-debug", opt.derive_debug)
                .opt_bool("--derive-clone", opt.derive_clone)
                .opt_bool("--derive-partial-eq", opt.derive_partial_eq)
                .opt_bool("--skip-seriaziling-none", opt.skip_serializing_none)
                .opt_bool("--edition-2018", opt.edition_2018)
                .opt_bool("--leading-comments", opt.leading_comments)
                .build(),
            Language::Smithy(opt) => CliBuilder::new(self)
                .opt_enum("--framework", &opt.framework)
                .opt_string("--package", opt.package.as_str())
                .build(),
            Language::Swift(opt) => CliBuilder::new(self)
                .opt_bool("--just-types", opt.just_types)
                .opt_bool("--initializers", opt.convience_initializers)
                .opt_bool("--coding-keys", opt.explicit_coding_keys)
                .opt_string("--coding-keys-protocol", opt.coding_keys_protocol.as_str())
                .opt_bool("--alamofire", opt.alamofire)
                .opt_string("--type-prefix", opt.type_prefix.as_str())
                .opt_enum("--struct-or-class", &opt.struct_or_class)
                .opt_bool("--mutable-properties", opt.mutable_properties)
                .opt_enum("--acronym-style", &opt.acronym_style)
                .opt_enum("--density", &opt.density)
                .opt_bool("--support-linux", opt.support_linux)
                .opt_bool("--objective-c-support", opt.objective_c_support)
                .opt_bool("--optional-enums", opt.optional_enums)
                .opt_bool("--swift-5-support", opt.swift_5_support)
                .opt_bool("--sendable", opt.sendable)
                .opt_enum("--access-level", &opt.access_level)
                .opt_enum("--protocol", &opt.protocol)
                .build(),
        }
    }

    /// The language tag handed to the generator after `-l`.
    pub fn name(&self) -> (r: &str)
        ensures
            r@ == name_spec(*self),
    {
        match self {
            Language::Typescript(_) => "typescript",
            Language::JsonSchema(_) => "schema",
            Language::CSharp(_) => "csharp",
            Language::Crystal(_) => "crystal",
            Language::Dart(_) => "dart",
            Language::Elm(_) => "elm",
            Language::Go(_) => "go",
            Language::Haskell(_) => "haskell",
            Language::Python(_) => "python",
            Language::Ruby(_) => "ruby",
            Language::Rust(_) => "rust",
            Language::Smithy(_) => "smithy",
            Language::Swift(_) => "swift",
        }
    }
}

impl Default for CSharpOptions {
    fn default() -> (r: Self)
        ensures
            r.framework == CSharpFramework::NewtonSoft,
            r.array_type == ArrayOrList::Array,
            r.density == Density::Normal,
            r.namespace@ == "QuickType"@,
            r.csharp_version == CSharpVersion::V6,
            !r.virtual_props,
            r.any_type == CSharpAnyType::Object,
            r.number_type == CSharpNumberType::Double,
            r.features == CSharpFeatures::Complete,
            r.base_class == CSharpBaseClass::Object,
            !r.check_required,
            !r.keep_property_name,
    {
        Self {
            framework: CSharpFramework::NewtonSoft,
            array_type: ArrayOrList::Array,
            density: Density::Normal,
            namespace: "QuickType".to_owned(),
            csharp_version: CSharpVersion::V6,
            virtual_props: false,
            any_type: CSharpAnyType::Object,
            number_type: CSharpNumberType::Double,
            features: CSharpFeatures::Complete,
            base_class: CSharpBaseClass::Object,
            check_required: false,
            keep_property_name: false,
        }
    }
}

impl Default for DartOptions {
    fn default() -> (r: Self)
        ensures
            r.null_safety,
            !r.just_types,
            !r.coders_in_class,
            !r.from_map,
            !r.required_props,
            !r.copy_with,
            !r.use_freezed,
            !r.use_hive,
            !r.use_json_annotation,
            r.part_name@ == Seq::<char>::empty(),
    {
        Self {
            null_safety: true,
            just_types: false,
            coders_in_class: false,
            from_map: false,
            required_props: false,
            copy_with: false,
            use_freezed: false,
            use_hive: false,
            use_json_annotation: false,
            part_name: String::new(),
        }
    }
}

impl Default for ElmOptions {
    fn default() -> (r: Self)
        ensures
            !r.just_types,
            r.array_type == ArrayOrList::Array,
            r.module@ == "QuickType"@,
    {
        Self { just_types: false, array_type: ArrayOrList::Array, module: "QuickType".to_owned() }
    }
}

impl Default for GoOptions {
    fn default() -> (r: Self)
        ensures
            !r.just_types,
            !r.just_types_and_package,
            r.package@ == "main"@,
            r.field_tags@ == "json"@,
            !r.omit_empty,
    {
        Self {
            just_types: false,
            just_types_and_package: false,
            package: "main".to_owned(),
            field_tags: "json".to_owned(),
            omit_empty: false,
        }
    }
}

impl Default for HaskellOptions {
    fn default() -> (r: Self)
        ensures
            !r.just_types,
            r.array_type == ArrayOrList::Array,
            r.module@ == "QuickType"@,
    {
        Self { just_types: false, array_type: ArrayOrList::Array, module: "QuickType".to_owned() }
    }
}

impl Default for RustOptions {
    fn default() -> (r: Self)
        ensures
            r.density == Density::Normal,
            r.visibility == RustVisibility::Private,
            !r.derive_debug,
            !r.derive_clone,
            !r.derive_partial_eq,
            !r.skip_serializing_none,
            r.edition_2018,
            r.leading_comments,
    {
        Self {
            density: Density::Normal,
            visibility: RustVisibility::Private,
            derive_debug: false,
            derive_clone: false,
            derive_partial_eq: false,
            skip_serializing_none: false,
            edition_2018: true,
            leading_comments: true,
        }
    }
}

impl Default for SmithyOptions {
    fn default() -> (r: Self)
        ensures
            r.framework == SmithyFramework::JustTypes,
            r.package@ == "quicktype"@,
    {
        Self { framework: SmithyFramework::JustTypes, package: "quicktype".to_owned() }
    }
}

impl Default for SwiftOptions {
    fn default() -> (r: Self)
        ensures
            !r.just_types,
            r.convience_initializers,
            r.explicit_coding_keys,
            r.coding_keys_protocol@ == Seq::<char>::empty(),
            !r.alamofire,
            r.type_prefix@ == Seq::<char>::empty(),
            r.struct_or_class == StructOrClass::Struct,
            !r.mutable_properties,
            r.acronym_style == AcronymStyle::Pascal,
            r.density == Density::Normal,
            !r.support_linux,
            !r.objective_c_support,
            !r.optional_enums,
            !r.swift_5_support,
            !r.sendable,
            r.access_level == SwiftAccessLevel::Internal,
            r.protocol == SwiftProtocol::NoProtocol,
    {
        Self {
            just_types: false,
            convience_initializers: true,
            explicit_coding_keys: true,
            coding_keys_protocol: String::new(),
            alamofire: false,
            type_prefix: String::new(),
            struct_or_class: StructOrClass::Struct,
            mutable_properties: false,
            acronym_style: AcronymStyle::Pascal,
            density: Density::Normal,
            support_linux: false,
            objective_c_support: false,
            optional_enums: false,
            swift_5_support: false,
            sendable: false,
            access_level: SwiftAccessLevel::Internal,
            protocol: SwiftProtocol::NoProtocol,
        }
    }
}

/// The translation is deterministic: any two argument lists obtained for the
/// same selection are the same list. (`Language::get_args` promises its result
/// equals `args_of` of the selection, so two calls can never disagree.)
pub proof fn lemma_args_deterministic(l: Language, a: Seq<Seq<char>>, b: Seq<Seq<char>>)
    requires
        a == args_of(l),
        b == args_of(l),
    ensures
        a == b,
{
}

/// A boolean-option language record with every option off yields only the
/// fixed `-l <tag>` prefix.
pub proof fn lemma_all_off_yields_prefix(o: TypescriptOptions)
    requires
        !o.just_types,
        !o.nice_property_names,
        !o.explicit_unions,
        !o.prefer_unions,
        !o.prefer_types,
        !o.prefer_const_values,
        !o.readonly,
    ensures
        args_of(Language::Typescript(o)) =~= seq!["-l"@, "typescript"@],
{
}

/// An enumerated option at a non-default value appears exactly once, at the
/// position fixed for the language: for Elm with the array representation set
/// to `list`, the flag follows the prefix and the one boolean option before
/// it. (The one excluded input: a module name spelled exactly like the flag
/// itself, which would echo the flag's text as a value.)
pub proof fn lemma_enum_flag_once(o: ElmOptions)
    requires
        o.array_type == ArrayOrList::List,
        o.module@ != "--array-type"@,
    ensures
        ({
            let args = args_of(Language::Elm(o));
            let p: int = if o.just_types {
                3
            } else {
                2
            };
            &&& args.len() >= p + 2
            &&& args[p] == "--array-type"@
            &&& args[p + 1] == "list"@
            &&& forall|j: int| 0 <= j < args.len() && j != p ==> args[j] != "--array-type"@
        }),
{
    reveal_strlit("-l");
    reveal_strlit("elm");
    reveal_strlit("--just-types");
    reveal_strlit("--array-type");
    reveal_strlit("list");
    reveal_strlit("--module");
    assert("-l"@.len() == 2);
    assert("elm"@.len() == 3);
    assert("list"@.len() == 4);
    assert("--module"@.len() == 8);
    assert("--array-type"@.len() == 12);
    assert("--just-types"@[2] == 'j');
    assert("--array-type"@[2] == 'a');
}

} // verus!
