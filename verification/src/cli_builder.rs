//! A small builder for the generator's argument list.
//!
//! Every list starts with the fixed pair `-l <tag>`; the `opt_*` methods then
//! append one option each, in the order they are called, exactly when the
//! option's value asks for it.

use vstd::prelude::*;

verus! {

use crate::langs::Language;
use crate::langs::name_spec;

/// The character sequences of a list of argument strings.
pub open spec fn arg_views(args: Seq<String>) -> Seq<Seq<char>> {
    args.map_values(|a: String| a@)
}

/// A boolean option: the flag alone, present exactly when the option is on.
pub open spec fn bool_opt(args: Seq<Seq<char>>, flag: Seq<char>, on: bool) -> Seq<Seq<char>> {
    if on {
        args.push(flag)
    } else {
        args
    }
}

/// An enumerated option: flag and value, present exactly when the option is
/// marked as emitted.
pub open spec fn enum_opt(
    args: Seq<Seq<char>>,
    flag: Seq<char>,
    emit: bool,
    value: Seq<char>,
) -> Seq<Seq<char>> {
    if emit {
        args.push(flag).push(value)
    } else {
        args
    }
}

/// A string option: flag and value, present exactly when the string is
/// non-empty.
pub open spec fn string_opt(args: Seq<Seq<char>>, flag: Seq<char>, value: Seq<char>) -> Seq<
    Seq<char>,
> {
    if value.len() == 0 {
        args
    } else {
        args.push(flag).push(value)
    }
}

/// An enumerated option value: it renders as a fixed string, and it knows
/// whether its flag is emitted at all (a value equal to the option's declared
/// default is left out; an enumeration with a single mandatory value is always
/// emitted).
pub trait CliEnum {
    /// Whether the flag for this value appears on the command line.
    spec fn emitted(&self) -> bool;

    /// The value's fixed command-line rendering.
    spec fn text(&self) -> Seq<char>;

    /// Exec query for `emitted`.
    fn is_emitted(&self) -> (r: bool)
        ensures
            r == self.emitted(),
    ;

    /// Exec rendering of the value.
    fn as_str(&self) -> (r: &'static str)
        ensures
            r@ == self.text(),
    ;
}

/// Accumulates the command-line arguments for one generator invocation.
#[derive(Debug, Clone)]
pub struct CliBuilder {
    args: Vec<String>,
}

impl View for CliBuilder {
    type V = Seq<Seq<char>>;

    closed spec fn view(&self) -> Seq<Seq<char>> {
        arg_views(self.args@)
    }
}

impl CliBuilder {
    /// Starts the list with the fixed `-l <tag>` prefix for `lang`.
    pub fn new(lang: &Language) -> (r: Self)
        ensures
            r@ == seq!["-l"@, name_spec(*lang)],
    {
        let mut args: Vec<String> = Vec::new();
        args.push("-l".to_owned());
        args.push(lang.name().to_owned());
        proof {
            assert(arg_views(args@) =~= seq!["-l"@, name_spec(*lang)]);
        }
        CliBuilder { args }
    }

    /// Appends `arg` exactly when `cond` holds.
    pub fn opt_bool(self, arg: &str, cond: bool) -> (r: Self)
        ensures
            r@ == bool_opt(self@, arg@, cond),
    {
        let mut b = self;
        if cond {
            b.args.push(arg.to_owned());
        }
        proof {
            assert(arg_views(b.args@) =~= bool_opt(self@, arg@, cond));
        }
        b
    }

    /// Appends `arg` followed by `opt` exactly when `opt` is non-empty.
    pub fn opt_string(self, arg: &str, opt: &str) -> (r: Self)
        ensures
            r@ == string_opt(self@, arg@, opt@),
    {
        let mut b = self;
        if !opt.is_empty() {
            b.args.push(arg.to_owned());
            b.args.push(opt.to_owned());
        }
        proof {
            assert(arg_views(b.args@) =~= string_opt(self@, arg@, opt@));
        }
        b
    }

    /// Appends `arg` followed by the value's rendering exactly when the value
    /// is marked as emitted.
    pub fn opt_enum<E: CliEnum>(self, arg: &str, opt: &E) -> (r: Self)
        ensures
            r@ == enum_opt(self@, arg@, opt.emitted(), opt.text()),
    {
        let mut b = self;
        if opt.is_emitted() {
            b.args.push(arg.to_owned());
            b.args.push(opt.as_str().to_owned());
        }
        proof {
            assert(arg_views(b.args@) =~= enum_opt(self@, arg@, opt.emitted(), opt.text()));
        }
        b
    }

    /// Hands the finished argument list out.
    pub fn build(self) -> (r: Vec<String>)
        ensures
            arg_views(r@) == self@,
    {
        self.args
    }
}

} // verus!
