//! Drives an external multi-language code generator: schema fragments are
//! accumulated into one merged JSON-Schema document, and a language selection
//! is translated into the exact command-line arguments the generator expects.

pub mod cli_builder;
pub mod langs;
pub mod schema;

pub use langs::{
    AcronymStyle, ArrayOrList, CSharpAnyType, CSharpBaseClass, CSharpFeatures, CSharpFramework,
    CSharpNumberType, CSharpOptions, CSharpVersion, CrystalOptions, DartOptions, Density,
    ElmOptions, GoOptions, HaskellOptions, JsonSchemaOptions, Language, PythonOptions,
    PythonVersion, RubyOptions, RubyStrictness, RustOptions, RustVisibility, SmithyFramework,
    SmithyOptions, StructOrClass, SwiftAccessLevel, SwiftOptions, SwiftProtocol,
    TypescriptOptions,
};
pub use schema::{Fragment, Schema, SchemaParseError};

use vstd::prelude::*;

verus! {

use crate::cli_builder::arg_views;
use crate::langs::args_of;
use crate::langs::name_spec;
use crate::schema::SchemaModel;
use crate::schema::dec_chars;
use crate::schema::document_text;
use crate::schema::empty_model;
use crate::schema::fragment_nested;
use crate::schema::fragment_text;
use crate::schema::fragment_title;
use crate::schema::push_dec;
use crate::schema::push_model;

/// The fixed flags every generator invocation starts with: quiet mode, the
/// base type name, the output path, and the schema input.
pub open spec fn fixed_invocation_prefix(
    base: Seq<char>,
    out_path: Seq<char>,
    schema_path: Seq<char>,
) -> Seq<Seq<char>> {
    seq!["--quiet"@, "-t"@, base, "-o"@, out_path, "--src-lang"@, "schema"@, schema_path]
}

/// The whole argument list of one invocation: the fixed prefix, then either
/// the caller's override, verbatim, or the translated language arguments.
pub open spec fn invocation_args_of(
    base: Seq<char>,
    out_path: Seq<char>,
    schema_path: Seq<char>,
    lang: Language,
    override_args: Option<Seq<Seq<char>>>,
) -> Seq<Seq<char>> {
    fixed_invocation_prefix(base, out_path, schema_path) + match override_args {
        Some(o) => o,
        None => args_of(lang),
    }
}

/// One code-generation session: the base type name handed to the generator,
/// the accumulating schema, and an optional caller-supplied argument list
/// that replaces the translated language-specific arguments entirely.
#[derive(Debug, Clone)]
pub struct CodegenContext {
    base_name: String,
    schema: Schema,
    override_quicktype_args: Option<Vec<String>>,
}

impl CodegenContext {
    /// The base type name, as characters.
    pub closed spec fn base_name_spec(&self) -> Seq<char> {
        self.base_name@
    }

    /// The abstract state of the accumulating schema.
    pub closed spec fn schema_model(&self) -> SchemaModel {
        self.schema@
    }

    /// The caller's override argument list, if one was supplied.
    pub closed spec fn override_spec(&self) -> Option<Seq<Seq<char>>> {
        match self.override_quicktype_args {
            Some(v) => Some(arg_views(v@)),
            None => None,
        }
    }

    /// The accumulating schema is well formed.
    pub closed spec fn wf(&self) -> bool {
        self.schema.wf()
    }

    /// A fresh session: empty schema, and the override argument list copied
    /// if one is given.
    pub fn new(base_name: &str, override_quicktype_args: Option<&[&str]>) -> (r: Self)
        ensures
            r.wf(),
            r.base_name_spec() == base_name@,
            r.schema_model() == empty_model(),
            match override_quicktype_args {
                Some(o) => r.override_spec() == Some(o@.map_values(|s: &str| s@)),
                None => r.override_spec() is None,
            },
    {
        let override_args: Option<Vec<String>> = match override_quicktype_args {
            Some(o) => {
                let ghost views = o@.map_values(|s: &str| s@);
                let mut v: Vec<String> = Vec::new();
                let mut i: usize = 0;
                while i < o.len()
                    invariant
                        i <= o@.len(),
                        views == o@.map_values(|s: &str| s@),
                        views.len() == o@.len(),
                        arg_views(v@) == views.take(i as int),
                    decreases o@.len() - i,
                {
                    let ghost prev = v@;
                    v.push(o[i].to_owned());
                    proof {
                        assert(arg_views(v@) =~= arg_views(prev).push(o@[i as int]@));
                        assert(views[i as int] == o@[i as int]@);
                        assert(views.take(i as int).push(views[i as int]) =~= views.take(
                            i as int + 1,
                        ));
                    }
                    i += 1;
                }
                proof {
                    assert(views.take(o@.len() as int) =~= views);
                }
                Some(v)
            },
            None => None,
        };
        CodegenContext {
            base_name: base_name.to_owned(),
            schema: Schema::new(),
            override_quicktype_args: override_args,
        }
    }

    /// Parses one fragment and merges it into the session's schema. Fails,
    /// leaving the session untouched, exactly when the text is not valid JSON
    /// or carries no string `title`.
    pub fn add_schema(&mut self, schema: &str) -> (r: Result<(), SchemaParseError>)
        requires
            old(self).wf(),
        ensures
            final(self).wf(),
            final(self).base_name_spec() == old(self).base_name_spec(),
            final(self).override_spec() == old(self).override_spec(),
            (r is Ok) == (fragment_title(schema@) is Some),
            r is Ok ==> final(self).schema_model() == push_model(
                old(self).schema_model(),
                fragment_title(schema@).unwrap(),
                fragment_text(schema@),
                fragment_nested(schema@),
                schema@,
            ),
            r is Err ==> *final(self) == *old(self),
    {
        self.schema.push_schema_str(schema)
    }

    /// The merged document's JSON text, as it is written for the generator.
    pub fn document_string(&self) -> (r: String)
        ensures
            r@ == document_text(self.schema_model()),
    {
        self.schema.document_string()
    }

    /// Read access to the accumulating schema.
    pub fn schema(&self) -> (r: &Schema)
        ensures
            r@ == self.schema_model(),
    {
        &self.schema
    }

    /// The base type name handed to the generator after `-t`.
    pub fn base_name(&self) -> (r: &str)
        ensures
            r@ == self.base_name_spec(),
    {
        self.base_name.as_str()
    }

    /// The full argument list of one generator invocation for `lang`, writing
    /// its output to `out_path` and reading the schema from `schema_path`.
    pub fn invocation_args(&self, lang: &Language, out_path: &str, schema_path: &str) -> (r: Vec<
        String,
    >)
        ensures
            arg_views(r@) == invocation_args_of(
                self.base_name_spec(),
                out_path@,
                schema_path@,
                *lang,
                self.override_spec(),
            ),
    {
        let ghost prefix = fixed_invocation_prefix(self.base_name@, out_path@, schema_path@);
        let mut args: Vec<String> = Vec::new();
        args.push("--quiet".to_owned());
        args.push("-t".to_owned());
        args.push(self.base_name.clone());
        args.push("-o".to_owned());
        args.push(out_path.to_owned());
        args.push("--src-lang".to_owned());
        args.push("schema".to_owned());
        args.push(schema_path.to_owned());
        proof {
            assert(arg_views(args@) =~= prefix);
        }
        match &self.override_quicktype_args {
            Some(o) => {
                let ghost tail = arg_views(o@);
                let mut i: usize = 0;
                while i < o.len()
                    invariant
                        i <= o@.len(),
                        tail == arg_views(o@),
                        tail.len() == o@.len(),
                        arg_views(args@) == prefix + tail.take(i as int),
                    decreases o@.len() - i,
                {
                    let ghost prev = args@;
                    args.push(o[i].clone());
                    proof {
                        assert(arg_views(args@) =~= arg_views(prev).push(o@[i as int]@));
                        assert(tail[i as int] == o@[i as int]@);
                        assert(tail.take(i as int).push(tail[i as int]) =~= tail.take(i as int + 1));
                        assert((prefix + tail.take(i as int)).push(tail[i as int]) =~= prefix
                            + tail.take(i as int + 1));
                    }
                    i += 1;
                }
                proof {
                    assert(tail.take(o@.len() as int) =~= tail);
                }
            },
            None => {
                let mut tail = lang.get_args();
                let ghost tail_views = arg_views(tail@);
                args.append(&mut tail);
                proof {
                    assert(arg_views(args@) =~= prefix + tail_views);
                }
            },
        }
        args
    }
}

/// The temporary file name the merged schema is written under for process
/// `pid`.
pub fn schema_file_name(pid: u64) -> (r: String)
    ensures
        r@ == "quick-type-schema-"@ + dec_chars(pid as nat) + ".json"@,
{
    let mut out = String::new();
    out.append("quick-type-schema-");
    push_dec(&mut out, pid);
    out.append(".json");
    proof {
        assert(out@ =~= "quick-type-schema-"@ + dec_chars(pid as nat) + ".json"@);
    }
    out
}

/// The temporary file name the generated code is read back from, for `lang`
/// and process `pid`.
pub fn code_file_name(lang: &Language, pid: u64) -> (r: String)
    ensures
        r@ == "quick-type-code-"@ + name_spec(*lang) + "-"@ + dec_chars(pid as nat),
{
    let mut out = String::new();
    out.append("quick-type-code-");
    out.append(lang.name());
    out.append("-");
    push_dec(&mut out, pid);
    proof {
        assert(out@ =~= "quick-type-code-"@ + name_spec(*lang) + "-"@ + dec_chars(pid as nat));
    }
    out
}

} // verus!
