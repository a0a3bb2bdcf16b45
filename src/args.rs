//! The command line: which invocation was asked for, and its arguments.

use vstd::prelude::*;

verus! {

/// The command-line grammar.
pub const USAGE: &'static str = "
Backup Tool

Usage:
  backup-tool
  backup-tool schedule <time>
  backup-tool test
  backup-tool zip <src> <dst>
  backup-tool (-h | --help)

Options:
  -h --help     Show this screen.
";

/// `docopt::Docopt`, a usage grammar ready to match arguments.
#[verifier::external_type_specification]
#[verifier::external_body]
pub struct ExDocopt(docopt::Docopt);

/// `docopt::ArgvMap`, the values of a successful match, by key.
#[verifier::external_type_specification]
#[verifier::external_body]
pub struct ExArgvMap(docopt::ArgvMap);

/// `docopt::Error`, why a usage text or a command line was not matched.
#[verifier::external_type_specification]
#[verifier::external_body]
pub struct ExDocoptError(docopt::Error);

/// The keys of a docopt match whose values read as true (`Value::as_bool`:
/// a present switch or command, a given argument).
pub uninterp spec fn argv_switches(m: docopt::ArgvMap) -> Set<Seq<char>>;

/// The keys of a docopt match with the text of each value (`Value::as_str`:
/// a given argument's text, else empty).
pub uninterp spec fn argv_texts(m: docopt::ArgvMap) -> Map<Seq<char>, Seq<char>>;

/// Relies on `Docopt::new`: the grammar read from a usage text.
#[verifier::external_body]
fn docopt_new(usage: &str) -> (r: Result<docopt::Docopt, docopt::Error>) {
    docopt::Docopt::new(usage)
}

/// Relies on `Docopt::argv`: the same grammar, set to match `argv` (the
/// program name first) instead of the process's arguments.
#[verifier::external_body]
fn docopt_argv(d: docopt::Docopt, argv: &Vec<String>) -> (r: docopt::Docopt) {
    d.argv(argv.iter())
}

/// Relies on `Docopt::parse`: the match of the arguments against the grammar,
/// or why there is none (including a request for help).
#[verifier::external_body]
fn docopt_parse(d: &docopt::Docopt) -> (r: Result<docopt::ArgvMap, docopt::Error>) {
    d.parse()
}

/// Relies on `ArgvMap::get_bool`: whether the value of `key` reads as true;
/// false for a key the match does not have.
#[verifier::external_body]
fn argv_bool(m: &docopt::ArgvMap, key: &str) -> (r: bool)
    ensures
        r == argv_switches(*m).contains(key@),
{
    m.get_bool(key)
}

/// Relies on `ArgvMap::get_str`: the text of the value of `key`; empty for a
/// key the match does not have.
#[verifier::external_body]
fn argv_str(m: &docopt::ArgvMap, key: &str) -> (r: String)
    ensures
        r@ == (if argv_texts(*m).contains_key(key@) {
            argv_texts(*m)[key@]
        } else {
            Seq::empty()
        }),
{
    m.get_str(key).to_string()
}

/// Relies on `docopt::Error::fatal`: false for a request for help or for the
/// version, true otherwise.
#[verifier::external_body]
fn docopt_error_fatal(e: &docopt::Error) -> (r: bool) {
    e.fatal()
}

/// Relies on docopt's `Display` for its errors: the text to show the user.
#[verifier::external_body]
fn docopt_error_text(e: &docopt::Error) -> (r: String) {
    e.to_string()
}

/// The command line could not be matched, or help was asked for.
#[derive(Clone, Debug)]
pub struct ArgsError {
    /// What to show the user.
    pub message: String,
    /// False for a request for help, which is no failure.
    pub fatal: bool,
}

/// The invocation asked for on the command line.
#[derive(Clone, Debug)]
pub struct Args {
    pub cmd_test: bool,
    pub cmd_zip: bool,
    pub cmd_schedule: bool,
    pub arg_src: Option<String>,
    pub arg_dst: Option<String>,
    pub arg_time: Option<String>,
}

/// The argument `key` of a match: its text when it was given, else nothing.
pub open spec fn argument_of(m: docopt::ArgvMap, key: Seq<char>) -> Option<Seq<char>> {
    if argv_switches(m).contains(key) {
        Some(
            if argv_texts(m).contains_key(key) {
                argv_texts(m)[key]
            } else {
                Seq::empty()
            },
        )
    } else {
        None
    }
}

pub open spec fn opt_view(o: Option<String>) -> Option<Seq<char>> {
    match o {
        Some(s) => Some(s@),
        None => None,
    }
}

impl Args {
    /// Whether these are the arguments that the match `m` holds.
    pub open spec fn read_from(&self, m: docopt::ArgvMap) -> bool {
        &&& self.cmd_test == argv_switches(m).contains("test"@)
        &&& self.cmd_zip == argv_switches(m).contains("zip"@)
        &&& self.cmd_schedule == argv_switches(m).contains("schedule"@)
        &&& opt_view(self.arg_src) == argument_of(m, "<src>"@)
        &&& opt_view(self.arg_dst) == argument_of(m, "<dst>"@)
        &&& opt_view(self.arg_time) == argument_of(m, "<time>"@)
    }

    fn argument(m: &docopt::ArgvMap, key: &str) -> (r: Option<String>)
        ensures
            opt_view(r) == argument_of(*m, key@),
    {
        if argv_bool(m, key) {
            Some(argv_str(m, key))
        } else {
            None
        }
    }

    /// The arguments that a docopt match holds.
    pub fn from_matches(m: &docopt::ArgvMap) -> (r: Args)
        ensures
            r.read_from(*m),
    {
        Args {
            cmd_test: argv_bool(m, "test"),
            cmd_zip: argv_bool(m, "zip"),
            cmd_schedule: argv_bool(m, "schedule"),
            arg_src: Args::argument(m, "<src>"),
            arg_dst: Args::argument(m, "<dst>"),
            arg_time: Args::argument(m, "<time>"),
        }
    }

    /// Matches `argv` (the program name first) against `USAGE`. On a match the
    /// arguments are those the match holds; otherwise the error says what to
    /// show.
    pub fn parse(argv: &Vec<String>) -> (r: Result<Args, ArgsError>)
        ensures
            r matches Ok(a) ==> exists|m: docopt::ArgvMap| a.read_from(m),
    {
        let d = match docopt_new(USAGE) {
            Ok(d) => d,
            Err(e) => {
                return Err(ArgsError { message: docopt_error_text(&e), fatal: docopt_error_fatal(&e) });
            },
        };
        let d = docopt_argv(d, argv);
        match docopt_parse(&d) {
            Ok(m) => Ok(Args::from_matches(&m)),
            Err(e) => Err(ArgsError { message: docopt_error_text(&e), fatal: docopt_error_fatal(&e) }),
        }
    }
}

} // verus!
