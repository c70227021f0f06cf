//! The command line: what the arguments ask for, and what the program
//! writes in answer.

use vstd::prelude::*;
use crate::resolver::{answer, Failure, ToolchainError};
use crate::text::same_text;

verus! {

/// The usage text.
pub const HELP_MESSAGE: &'static str = "
Prints the currently active rustup toolchain

USAGE:
    cargo toolchain [OPTIONS]

OPTIONS:
    -d, --directory\tprint the default toolchain for the directory rather than the currently active one
    -h, --help\tprint this message and exit
";

/// What the command line asks for.
#[derive(Debug, PartialEq, Eq)]
pub enum Invocation {
    /// Print the toolchain: the directory's default where `directory` is
    /// set, else the active one.
    Print { directory: bool },
    /// Print the usage text.
    Help,
    /// Nothing that can be done: the argument held here is not known.
    Unrecognized(String),
}

/// An `Invocation` with its argument as a sequence of characters.
pub enum Request {
    Print { directory: bool },
    Help,
    Unrecognized(Seq<char>),
}

impl View for Invocation {
    type V = Request;

    open spec fn view(&self) -> Request {
        match self {
            Invocation::Print { directory } => Request::Print { directory: *directory },
            Invocation::Help => Request::Help,
            Invocation::Unrecognized(argument) => Request::Unrecognized(argument@),
        }
    }
}

/// Whether `argument` asks for the directory's default toolchain.
pub open spec fn asks_for_directory(argument: Seq<char>) -> bool {
    argument == "-d"@ || argument == "--directory"@
}

/// Whether `argument` asks for the usage text.
pub open spec fn asks_for_help(argument: Seq<char>) -> bool {
    argument == "-h"@ || argument == "--help"@
}

/// Whether `argument` is the subcommand's own name, which cargo passes on
/// when it runs the program as `cargo toolchain`.
pub open spec fn is_subcommand_name(argument: Seq<char>) -> bool {
    argument == "toolchain"@
}

/// Whether reading goes on behind `argument`: it does behind the directory
/// flag and the subcommand's name, and stops at anything else.
pub open spec fn reads_on(argument: Seq<char>) -> bool {
    asks_for_directory(argument) || is_subcommand_name(argument)
}

/// `request` once the directory flag was seen.
pub open spec fn with_directory(request: Request) -> Request {
    match request {
        Request::Print { .. } => Request::Print { directory: true },
        other => other,
    }
}

/// What the arguments ask for. They are read from the first on; reading
/// stops at a help flag and at an argument that is not known.
pub open spec fn parsed(arguments: Seq<Seq<char>>) -> Request
    decreases arguments.len(),
{
    if arguments.len() == 0 {
        Request::Print { directory: false }
    } else if asks_for_help(arguments.first()) {
        Request::Help
    } else if asks_for_directory(arguments.first()) {
        with_directory(parsed(arguments.drop_first()))
    } else if is_subcommand_name(arguments.first()) {
        parsed(arguments.drop_first())
    } else {
        Request::Unrecognized(arguments.first())
    }
}

/// The arguments as sequences of characters.
pub open spec fn texts(arguments: Seq<String>) -> Seq<Seq<char>> {
    arguments.map_values(|argument: String| argument@)
}

/// Reads the program's arguments, the program's own name left out.
pub fn parse_args(arguments: &[String]) -> (invocation: Invocation)
    ensures
        invocation@ == parsed(texts(arguments@)),
{
    let ghost all = texts(arguments@);
    let mut directory: bool = false;
    let mut i: usize = 0;
    assert(all.skip(0) =~= all);
    while i < arguments.len()
        invariant
            i <= arguments.len(),
            all == texts(arguments@),
            parsed(all) == if directory {
                with_directory(parsed(all.skip(i as int)))
            } else {
                parsed(all.skip(i as int))
            },
        decreases arguments.len() - i,
    {
        let ghost rest = all.skip(i as int);
        assert(rest.first() == arguments@[i as int]@);
        assert(rest.drop_first() =~= all.skip(i + 1));
        let argument: &String = &arguments[i];
        if same_text(argument.as_str(), "-h") || same_text(argument.as_str(), "--help") {
            return Invocation::Help;
        } else if same_text(argument.as_str(), "-d") || same_text(argument.as_str(), "--directory") {
            directory = true;
        } else if !same_text(argument.as_str(), "toolchain") {
            return Invocation::Unrecognized(argument.clone());
        }
        i += 1;
    }
    Invocation::Print { directory }
}

/// No flag is the subcommand's name, and no help flag is a directory flag.
proof fn known_arguments_differ(argument: Seq<char>)
    ensures
        !(asks_for_help(argument) && reads_on(argument)),
        !(asks_for_directory(argument) && is_subcommand_name(argument)),
{
    reveal_strlit("-h");
    reveal_strlit("--help");
    reveal_strlit("-d");
    reveal_strlit("--directory");
    reveal_strlit("toolchain");
    assert("-h"@[1] != "-d"@[1]);
    assert("-h"@.len() == 2 && "-d"@.len() == 2);
    assert("--help"@.len() == 6);
    assert("toolchain"@.len() == 9);
    assert("--directory"@.len() == 11);
}

/// The subcommand's name counts for nothing, wherever it stands: with it put
/// in at any place, the arguments ask for what they asked for without it.
pub proof fn subcommand_name_is_ignored(arguments: Seq<Seq<char>>, at: int)
    requires
        0 <= at <= arguments.len(),
    ensures
        parsed(arguments.insert(at, "toolchain"@)) == parsed(arguments),
    decreases at,
{
    let longer = arguments.insert(at, "toolchain"@);
    if at == 0 {
        known_arguments_differ(longer.first());
        assert(longer.drop_first() =~= arguments);
    } else {
        assert(longer.first() == arguments.first());
        assert(longer.drop_first() =~= arguments.drop_first().insert(at - 1, "toolchain"@));
        subcommand_name_is_ignored(arguments.drop_first(), at - 1);
    }
}

/// Reading stops at the first argument that is neither a directory flag nor
/// the subcommand's name, and that argument decides: a help flag asks for the
/// usage text, anything else is not known. Where reading comes to the end,
/// the toolchain is to be printed, the directory's default if a directory
/// flag was among the arguments.
pub proof fn first_foreign_argument_decides(arguments: Seq<Seq<char>>, stop: int)
    requires
        0 <= stop <= arguments.len(),
        forall|i: int| 0 <= i < stop ==> reads_on(#[trigger] arguments[i]),
        stop < arguments.len() ==> !reads_on(arguments[stop]),
    ensures
        parsed(arguments) == if stop == arguments.len() {
            Request::Print {
                directory: exists|i: int|
                    0 <= i < arguments.len() && asks_for_directory(#[trigger] arguments[i]),
            }
        } else if asks_for_help(arguments[stop]) {
            Request::Help
        } else {
            Request::Unrecognized(arguments[stop])
        },
    decreases stop,
{
    if stop > 0 {
        let rest = arguments.drop_first();
        known_arguments_differ(arguments.first());
        assert(reads_on(arguments[0]));
        assert forall|i: int| 0 <= i < stop - 1 implies reads_on(#[trigger] rest[i]) by {
            assert(rest[i] == arguments[i + 1]);
        }
        first_foreign_argument_decides(rest, stop - 1);
        if stop == arguments.len() {
            let among = exists|i: int|
                0 <= i < arguments.len() && asks_for_directory(#[trigger] arguments[i]);
            let among_rest = exists|i: int|
                0 <= i < rest.len() && asks_for_directory(#[trigger] rest[i]);
            if among_rest {
                let i = choose|i: int| 0 <= i < rest.len() && asks_for_directory(#[trigger] rest[i]);
                assert(asks_for_directory(arguments[i + 1]));
            }
            if among && !asks_for_directory(arguments[0]) {
                let i = choose|i: int|
                    0 <= i < arguments.len() && asks_for_directory(#[trigger] arguments[i]);
                assert(asks_for_directory(rest[i - 1]));
            }
        }
    }
}

/// What the program writes, and the status with which it exits.
#[derive(Debug, PartialEq, Eq)]
pub struct Output {
    /// The text for standard output.
    pub stdout: String,
    /// The text for standard error.
    pub stderr: String,
    /// The exit status.
    pub code: i32,
}

/// An `Output` with its texts as sequences of characters.
pub struct Written {
    pub stdout: Seq<char>,
    pub stderr: Seq<char>,
    pub code: i32,
}

impl View for Output {
    type V = Written;

    open spec fn view(&self) -> Written {
        Written { stdout: self.stdout@, stderr: self.stderr@, code: self.code }
    }
}

/// The usage text as it is written: with the end of its last line.
pub open spec fn usage() -> Seq<char> {
    HELP_MESSAGE@ + "\n"@
}

/// The lines that name an argument which is not known.
pub open spec fn complaint(argument: Seq<char>) -> Seq<char> {
    "\nUnrecognized argument '"@ + argument + "'\n"@
}

/// What is written at once, with no lookup: the usage text for a help flag,
/// with status 0; for an argument that is not known a complaint and the usage
/// text, with status 1. Both go to standard error. Nothing where the
/// toolchain is to be printed.
pub open spec fn written_at_once(request: Request) -> Option<Written> {
    match request {
        Request::Print { .. } => None,
        Request::Help => Some(Written { stdout: Seq::empty(), stderr: usage(), code: 0 }),
        Request::Unrecognized(argument) => Some(
            Written { stdout: Seq::empty(), stderr: complaint(argument) + usage(), code: 1 },
        ),
    }
}

/// What is written once the lookup has ended: the name alone on a line of
/// standard output, with status 0, or the error's message on standard error,
/// with status 1.
pub open spec fn written_for(found: Result<Seq<char>, Failure>) -> Written {
    match found {
        Ok(name) => Written { stdout: name + "\n"@, stderr: Seq::empty(), code: 0 },
        Err(failure) => Written {
            stdout: Seq::empty(),
            stderr: "error: "@ + failure.message() + "\n"@,
            code: 1,
        },
    }
}

/// An argument at which reading stops is answered at once: a help flag with
/// the usage text and status 0, anything else with a complaint that names it,
/// the usage text and status 1. Either way nothing goes to standard output.
pub proof fn stopping_argument_is_answered_at_once(arguments: Seq<Seq<char>>, stop: int)
    requires
        0 <= stop < arguments.len(),
        forall|i: int| 0 <= i < stop ==> reads_on(#[trigger] arguments[i]),
        !reads_on(arguments[stop]),
    ensures
        written_at_once(parsed(arguments)) == Some(
            if asks_for_help(arguments[stop]) {
                Written { stdout: Seq::empty(), stderr: usage(), code: 0 }
            } else {
                Written {
                    stdout: Seq::empty(),
                    stderr: complaint(arguments[stop]) + usage(),
                    code: 1,
                }
            },
        ),
{
    first_foreign_argument_decides(arguments, stop);
}

/// What the program does once its arguments are read.
#[derive(Debug, PartialEq, Eq)]
pub enum Action {
    /// Write this and exit.
    Exit(Output),
    /// Look the toolchain up, the directory's default where `directory` is
    /// set, and `report` what the lookup gave.
    Resolve { directory: bool },
}

/// What to do about an invocation: answer at once where no lookup is
/// needed, else look the toolchain up.
pub fn action_for(invocation: &Invocation) -> (action: Action)
    ensures
        match action {
            Action::Exit(output) => written_at_once(invocation@) == Some(output@),
            Action::Resolve { directory } => invocation@ == (Request::Print { directory }),
        },
{
    match invocation {
        Invocation::Print { directory } => Action::Resolve { directory: *directory },
        Invocation::Help => {
            let mut stderr = String::from_str(HELP_MESSAGE);
            stderr.append("\n");
            Action::Exit(Output { stdout: String::new(), stderr, code: 0 })
        },
        Invocation::Unrecognized(argument) => {
            let mut stderr = String::from_str("\nUnrecognized argument '");
            stderr.append(argument.as_str());
            stderr.append("'\n");
            stderr.append(HELP_MESSAGE);
            stderr.append("\n");
            assert(stderr@ =~= complaint(argument@) + usage());
            Action::Exit(Output { stdout: String::new(), stderr, code: 1 })
        },
    }
}

/// Renders what the lookup gave.
pub fn report(found: Result<String, ToolchainError>) -> (output: Output)
    ensures
        output@ == written_for(answer(found)),
{
    match found {
        Ok(name) => {
            let mut stdout = name;
            stdout.append("\n");
            Output { stdout, stderr: String::new(), code: 0 }
        },
        Err(error) => {
            let mut stderr = String::from_str("error: ");
            stderr.append(error.message().as_str());
            stderr.append("\n");
            Output { stdout: String::new(), stderr, code: 1 }
        },
    }
}

} // verus!
