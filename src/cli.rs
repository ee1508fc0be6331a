//! The command's grammar, read by clap, and the resolution of what it matched.
//!
//! clap's values are opaque to the library. Each one is described by plain
//! values: an argument by an `ArgDecl`, a command by a `CommandDecl`, and a
//! match by the command and the tokens it was made from.

use vstd::prelude::*;
use clap::{App, Arg, ArgMatches};
use crate::config::{files_view, outcome_view, resolve, resolved, text_view, texts_view, Config};
use crate::error::HeadError;

verus! {

#[verifier::external_type_specification]
#[verifier::external_body]
pub struct ExClapError(clap::Error);

#[verifier::external_type_specification]
#[verifier::external_body]
pub struct ExApp<'a, 'b>(App<'a, 'b>) where 'a: 'b;

#[verifier::external_type_specification]
#[verifier::external_body]
pub struct ExArg<'a, 'b>(Arg<'a, 'b>) where 'a: 'b;

#[verifier::external_type_specification]
#[verifier::external_body]
pub struct ExArgMatches<'a>(ArgMatches<'a>);

/// What a declared argument says: how it is looked up, how it is written on
/// the command line, and what values it takes. One with neither a short nor a
/// long form is positional.
pub struct ArgDecl {
    pub name: Seq<char>,
    pub short: Option<char>,
    pub long: Option<Seq<char>>,
    pub value_names: Seq<Seq<char>>,
    pub takes_value: bool,
    pub default_value: Option<Seq<char>>,
    pub multiple: bool,
}

/// What a declared command says: its name, the texts that `--help` and
/// `--version` print, and its arguments in the order they were added.
pub struct CommandDecl {
    pub name: Seq<char>,
    pub version: Option<Seq<char>>,
    pub about: Option<Seq<char>>,
    pub author: Option<Seq<char>>,
    pub args: Seq<ArgDecl>,
}

pub open spec fn is_positional(a: ArgDecl) -> bool {
    a.short is None && a.long is None
}

/// An argument that can join the command: its name, long form and short form
/// are not already taken.
pub open spec fn can_add(c: CommandDecl, a: ArgDecl) -> bool {
    forall|i: int|
        0 <= i < c.args.len() ==> {
            &&& (#[trigger] c.args[i]).name != a.name
            &&& (a.long is Some ==> c.args[i].long != a.long)
            &&& (a.short is Some ==> c.args[i].short != a.short)
        }
}

/// A command whose positional arguments clap can lay out: at most one.
pub open spec fn positionals_fit(c: CommandDecl) -> bool {
    forall|i: int, j: int|
        0 <= i < c.args.len() && 0 <= j < c.args.len() && is_positional(#[trigger] c.args[i])
            && is_positional(#[trigger] c.args[j]) ==> i == j
}

/// The declaration of a clap argument.
pub uninterp spec fn arg_decl(a: Arg<'static, 'static>) -> ArgDecl;

/// The declaration of a clap command.
pub uninterp spec fn command_decl(app: App<'static, 'static>) -> CommandDecl;

/// The command and the tokens that a clap match was made from.
pub uninterp spec fn match_source(m: ArgMatches<'static>) -> (CommandDecl, Seq<Seq<char>>);

/// Whether clap matches the tokens against the command (rather than failing,
/// or stopping at `--help` or `--version`).
pub uninterp spec fn clap_accepts(c: CommandDecl, tokens: Seq<Seq<char>>) -> bool;

/// The values that clap matched for the named argument, its default where it
/// was not given; `None` where it has neither.
pub uninterp spec fn clap_values(c: CommandDecl, tokens: Seq<Seq<char>>, name: Seq<char>) -> Option<
    Seq<Seq<char>>,
>;

/// The first of the values matched, if any.
pub open spec fn first_value(v: Option<Seq<Seq<char>>>) -> Option<Seq<char>> {
    match v {
        Some(s) if s.len() > 0 => Some(s[0]),
        _ => None,
    }
}

/// Relies on clap's `Arg::with_name`: an argument that is looked up by that
/// name, with no other setting.
#[verifier::external_body]
fn named_arg(name: &'static str) -> (r: Arg<'static, 'static>)
    ensures
        arg_decl(r) == (ArgDecl {
            name: name@,
            short: None,
            long: None,
            value_names: Seq::empty(),
            takes_value: false,
            default_value: None,
            multiple: false,
        }),
{
    Arg::with_name(name)
}

/// Relies on clap's `Arg::short`: the one-letter form of an option, the
/// first character after any leading dashes.
#[verifier::external_body]
fn with_short(arg: Arg<'static, 'static>, s: &'static str) -> (r: Arg<'static, 'static>)
    requires
        s@.len() == 1,
        s@[0] != '-',
    ensures
        arg_decl(r) == (ArgDecl { short: Some(s@[0]), ..arg_decl(arg) }),
{
    arg.short(s)
}

/// Relies on clap's `Arg::long`: the long form of an option, leading dashes
/// removed.
#[verifier::external_body]
fn with_long(arg: Arg<'static, 'static>, l: &'static str) -> (r: Arg<'static, 'static>)
    requires
        l@.len() > 0,
        l@[0] != '-',
    ensures
        arg_decl(r) == (ArgDecl { long: Some(l@), ..arg_decl(arg) }),
{
    arg.long(l)
}

/// Relies on clap's `Arg::value_name`: adds a placeholder that usage text
/// shows, and makes the argument take a value.
#[verifier::external_body]
fn with_value_name(arg: Arg<'static, 'static>, name: &'static str) -> (r: Arg<'static, 'static>)
    ensures
        arg_decl(r) == (ArgDecl {
            value_names: arg_decl(arg).value_names.push(name@),
            takes_value: true,
            ..arg_decl(arg)
        }),
{
    arg.value_name(name)
}

/// Relies on clap's `Arg::takes_value`: whether the option is followed by a value.
#[verifier::external_body]
fn with_takes_value(arg: Arg<'static, 'static>, tv: bool) -> (r: Arg<'static, 'static>)
    ensures
        arg_decl(r) == (ArgDecl { takes_value: tv, ..arg_decl(arg) }),
{
    arg.takes_value(tv)
}

/// Relies on clap's `Arg::default_value`: the value matched when none is
/// given; it makes the argument take a value.
#[verifier::external_body]
fn with_default_value(arg: Arg<'static, 'static>, val: &'static str) -> (r: Arg<'static, 'static>)
    ensures
        arg_decl(r) == (ArgDecl { default_value: Some(val@), takes_value: true, ..arg_decl(arg) }),
{
    arg.default_value(val)
}

/// Relies on clap's `Arg::multiple`: whether the argument may take several values.
#[verifier::external_body]
fn with_multiple(arg: Arg<'static, 'static>, multi: bool) -> (r: Arg<'static, 'static>)
    ensures
        arg_decl(r) == (ArgDecl { multiple: multi, ..arg_decl(arg) }),
{
    arg.multiple(multi)
}

/// Relies on clap's `App::new`: a command of that name, with no arguments yet.
#[verifier::external_body]
fn new_command(name: &'static str) -> (r: App<'static, 'static>)
    ensures
        command_decl(r) == (CommandDecl {
            name: name@,
            version: None,
            about: None,
            author: None,
            args: Seq::empty(),
        }),
{
    App::new(name)
}

/// Relies on clap's `App::version`: the version that `--version` prints.
#[verifier::external_body]
fn with_version(app: App<'static, 'static>, v: &'static str) -> (r: App<'static, 'static>)
    ensures
        command_decl(r) == (CommandDecl { version: Some(v@), ..command_decl(app) }),
{
    app.version(v)
}

/// Relies on clap's `App::author`: the author that `--help` prints.
#[verifier::external_body]
fn with_author(app: App<'static, 'static>, a: &'static str) -> (r: App<'static, 'static>)
    ensures
        command_decl(r) == (CommandDecl { author: Some(a@), ..command_decl(app) }),
{
    app.author(a)
}

/// Relies on clap's `App::about`: the description that `--help` prints.
#[verifier::external_body]
fn with_about(app: App<'static, 'static>, about: &'static str) -> (r: App<'static, 'static>)
    ensures
        command_decl(r) == (CommandDecl { about: Some(about@), ..command_decl(app) }),
{
    app.about(about)
}

/// Relies on clap's `App::arg`: adds an argument to the command. In a debug
/// build clap panics on a name, long form or short form already in use.
#[verifier::external_body]
fn with_arg(app: App<'static, 'static>, arg: Arg<'static, 'static>) -> (r: App<'static, 'static>)
    requires
        can_add(command_decl(app), arg_decl(arg)),
    ensures
        command_decl(r) == (CommandDecl {
            args: command_decl(app).args.push(arg_decl(arg)),
            ..command_decl(app)
        }),
{
    app.arg(arg)
}

/// Relies on clap's `App::get_matches_from_safe`: matches the tokens, the
/// first of which names the program, against the command; the outcome
/// depends on the command and the tokens alone. For `--version` clap prints
/// the version itself. In a debug build clap panics on a command whose
/// positional arguments it cannot lay out.
#[verifier::external_body]
fn match_tokens(app: App<'static, 'static>, tokens: &Vec<String>) -> (r: Result<
    ArgMatches<'static>,
    clap::Error,
>)
    requires
        positionals_fit(command_decl(app)),
    ensures
        r is Ok <==> clap_accepts(command_decl(app), texts_view(tokens@)),
        r matches Ok(m) ==> match_source(m) == (command_decl(app), texts_view(tokens@)),
{
    app.get_matches_from_safe(tokens.iter())
}

/// Relies on clap's `ArgMatches::value_of_lossy`: the first value matched for
/// an argument. The tokens are text, so nothing is lost.
#[verifier::external_body]
fn value_of(m: &ArgMatches<'static>, name: &str) -> (r: Option<String>)
    ensures
        text_view(r) == first_value(clap_values(match_source(*m).0, match_source(*m).1, name@)),
{
    m.value_of_lossy(name).map(|v| v.into_owned())
}

/// Relies on clap's `ArgMatches::values_of_lossy`: the values matched for an
/// argument. The tokens are text, so nothing is lost.
#[verifier::external_body]
fn values_of(m: &ArgMatches<'static>, name: &str) -> (r: Option<Vec<String>>)
    ensures
        files_view(r) == clap_values(match_source(*m).0, match_source(*m).1, name@),
{
    m.values_of_lossy(name)
}

/// The declaration of the `headr` command:
/// `headr [FILE...] [-n|--lines LINES] [-c|--bytes BYTES]`.
pub open spec fn headr_decl() -> CommandDecl {
    CommandDecl {
        name: "headr"@,
        version: Some("0.1.0"@),
        about: Some("Rust head"@),
        author: Some("Ken Youens-Clark <kyclark@gmail.com>"@),
        args: seq![
            ArgDecl {
                name: "files"@,
                short: None,
                long: None,
                value_names: seq!["FILE"@],
                takes_value: true,
                default_value: Some("-"@),
                multiple: true,
            },
            ArgDecl {
                name: "lines"@,
                short: Some('n'),
                long: Some("lines"@),
                value_names: seq!["LINES"@],
                takes_value: true,
                default_value: None,
                multiple: false,
            },
            ArgDecl {
                name: "bytes"@,
                short: Some('c'),
                long: Some("bytes"@),
                value_names: seq!["BYTES"@],
                takes_value: true,
                default_value: None,
                multiple: false,
            },
        ],
    }
}

fn command() -> (r: App<'static, 'static>)
    ensures
        command_decl(r) == headr_decl(),
{
    proof {
        reveal_strlit("files");
        reveal_strlit("lines");
        reveal_strlit("bytes");
        reveal_strlit("n");
        reveal_strlit("c");
        assert("files"@[0] != "lines"@[0]);
        assert("files"@[0] != "bytes"@[0]);
        assert("lines"@[0] != "bytes"@[0]);
    }
    let files = named_arg("files");
    let files = with_value_name(files, "FILE");
    let files = with_default_value(files, "-");
    let files = with_multiple(files, true);

    let lines = named_arg("lines");
    let lines = with_short(lines, "n");
    let lines = with_long(lines, "lines");
    let lines = with_value_name(lines, "LINES");
    let lines = with_takes_value(lines, true);

    let bytes = named_arg("bytes");
    let bytes = with_short(bytes, "c");
    let bytes = with_long(bytes, "bytes");
    let bytes = with_takes_value(bytes, true);
    let bytes = with_value_name(bytes, "BYTES");

    let app = new_command("headr");
    let app = with_version(app, "0.1.0");
    let app = with_author(app, "Ken Youens-Clark <kyclark@gmail.com>");
    let app = with_about(app, "Rust head");
    let app = with_arg(app, files);
    assert(command_decl(app).args.len() == 1);
    let app = with_arg(app, lines);
    assert(command_decl(app).args.len() == 2);
    let app = with_arg(app, bytes);
    assert(command_decl(app).args =~= headr_decl().args);
    app
}

/// Builds the configuration from the command line's tokens, the first of
/// which names the program. Where clap matches them against the command, the
/// outcome is what `resolved` gives for the matched values: the files, and the
/// `--lines` and `--bytes` values. Where it does not (an unknown option, a
/// missing value, `--help`, `--version`), the outcome is clap's error; for
/// `--version` clap has printed the version.
pub fn get_args(tokens: Vec<String>) -> (r: Result<Config, HeadError>)
    ensures
        (r matches Err(HeadError::CommandLine(_))) <==> !clap_accepts(
            headr_decl(),
            texts_view(tokens@),
        ),
        clap_accepts(headr_decl(), texts_view(tokens@)) ==> outcome_view(r) == resolved(
            clap_values(headr_decl(), texts_view(tokens@), "files"@),
            first_value(clap_values(headr_decl(), texts_view(tokens@), "lines"@)),
            first_value(clap_values(headr_decl(), texts_view(tokens@), "bytes"@)),
        ),
        r matches Ok(c) ==> c@.wf(),
{
    let app = command();
    proof {
        let c = headr_decl();
        assert(is_positional(c.args[0]));
        assert(!is_positional(c.args[1]));
        assert(!is_positional(c.args[2]));
    }
    match match_tokens(app, &tokens) {
        Err(e) => Err(HeadError::CommandLine(e)),
        Ok(m) => {
            let files = values_of(&m, "files");
            let lines = value_of(&m, "lines");
            let bytes = value_of(&m, "bytes");
            resolve(files, lines, bytes)
        },
    }
}

} // verus!
