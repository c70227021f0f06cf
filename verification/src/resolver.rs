//! Which toolchain is in effect, decided step by step.
//!
//! A lookup needs up to two things from the outside: the value of the
//! override variable, and what `rustup show active-toolchain` prints. The
//! functions here never fetch them. Each takes what the caller fetched last
//! and says what to fetch next, or gives the name.

use vstd::prelude::*;
use vstd::utf8::{decode_utf8, valid_utf8};
use crate::channel::{truncate_toolchain, truncated};
use crate::text::{trim_end, trimmed};

verus! {

/// The variable in which rustup's proxies pass on the toolchain that they
/// selected for this invocation.
pub const RUSTUP_TOOLCHAIN_VAR: &'static str = "RUSTUP_TOOLCHAIN";

/// The toolchain manager's executable.
pub const MANAGER: &'static str = "rustup";

/// The arguments with which the manager names the toolchain of the current
/// directory. It must run without `RUSTUP_TOOLCHAIN_VAR` in its environment,
/// or it would only repeat the override.
pub const MANAGER_ARGS: [&'static str; 2] = ["show", "active-toolchain"];

/// The message of the error for a manager that ran and reported failure.
pub const MANAGER_FAILED: &'static str = "rustup did not exit successfully";

/// What came of running the manager.
#[derive(Debug, PartialEq, Eq)]
pub enum ManagerOutcome {
    /// It could not be started; the text says why.
    NotStarted(String),
    /// It ran to its end: whether it reported success, and what it wrote to
    /// its standard output.
    Exited { success: bool, stdout: Vec<u8> },
}

/// Why a lookup gave no name. Each variant holds the message for the user.
#[derive(Debug, PartialEq, Eq)]
pub enum ToolchainError {
    /// The manager could not be started, or it reported failure.
    Subprocess(String),
    /// The manager's output was not UTF-8.
    Encoding(String),
}

/// A `ToolchainError` with its message as a sequence of characters.
pub enum Failure {
    Subprocess(Seq<char>),
    Encoding(Seq<char>),
}

impl View for ToolchainError {
    type V = Failure;

    open spec fn view(&self) -> Failure {
        match self {
            ToolchainError::Subprocess(why) => Failure::Subprocess(why@),
            ToolchainError::Encoding(why) => Failure::Encoding(why@),
        }
    }
}

impl Failure {
    /// The message for the user.
    pub open spec fn message(self) -> Seq<char> {
        match self {
            Failure::Subprocess(why) => why,
            Failure::Encoding(why) => why,
        }
    }
}

impl ToolchainError {
    /// The message for the user.
    pub fn message(&self) -> (message: String)
        ensures
            message@ == self@.message(),
    {
        match self {
            ToolchainError::Subprocess(why) => why.clone(),
            ToolchainError::Encoding(why) => why.clone(),
        }
    }
}

/// What a lookup gave, over sequences of characters.
pub open spec fn answer(found: Result<String, ToolchainError>) -> Result<Seq<char>, Failure> {
    match found {
        Ok(name) => Ok(name@),
        Err(error) => Err(error@),
    }
}

/// The text with which `String::from_utf8`'s error describes what is wrong
/// with `bytes`.
pub uninterp spec fn utf8_error_text(bytes: Seq<u8>) -> Seq<char>;

/// Decodes `bytes` with `String::from_utf8` and turns its error into the
/// error's own text.
///
/// Taken on trust: the call succeeds exactly on well-formed UTF-8 and then
/// gives the characters that the bytes encode; the text of a failure depends
/// on the bytes alone.
#[verifier::external_body]
fn decode(bytes: Vec<u8>) -> (text: Result<String, String>)
    ensures
        text is Ok <==> valid_utf8(bytes@),
        text matches Ok(decoded) ==> decoded@ == decode_utf8(bytes@),
        text matches Err(why) ==> why@ == utf8_error_text(bytes@),
{
    match String::from_utf8(bytes) {
        Ok(decoded) => Ok(decoded),
        Err(error) => Err(error.to_string()),
    }
}

/// The toolchain that the manager's output names: the output without the
/// white space at its end, cut down to a default channel where it begins
/// with one.
pub open spec fn named_in(output: Seq<char>) -> Seq<char> {
    truncated(trimmed(output))
}

/// The toolchain that the manager's output names.
pub fn toolchain_from_output(output: &str) -> (name: String)
    ensures
        name@ == named_in(output@),
{
    truncate_toolchain(String::from_str(trim_end(output)))
}

/// What the directory's default toolchain is, given what came of running the
/// manager.
pub open spec fn directory_answer(outcome: ManagerOutcome) -> Result<Seq<char>, Failure> {
    match outcome {
        ManagerOutcome::NotStarted(why) => Err(Failure::Subprocess(why@)),
        ManagerOutcome::Exited { success, stdout } => {
            if !success {
                Err(Failure::Subprocess(MANAGER_FAILED@))
            } else if !valid_utf8(stdout@) {
                Err(Failure::Encoding(utf8_error_text(stdout@)))
            } else {
                Ok(named_in(decode_utf8(stdout@)))
            }
        },
    }
}

/// Get the default rustup toolchain for the current directory.
///
/// Affected by directory overrides, but not command line flags (e.g. `cargo
/// +nightly ...`). `outcome` is what came of running `MANAGER` with
/// `MANAGER_ARGS`, without `RUSTUP_TOOLCHAIN_VAR` in its environment.
///
/// # Errors
///
/// `Subprocess` if the manager could not be started or reported failure,
/// `Encoding` if what it printed is not UTF-8.
pub fn get_directory_toolchain(outcome: ManagerOutcome) -> (found: Result<String, ToolchainError>)
    ensures
        answer(found) == directory_answer(outcome),
{
    match outcome {
        ManagerOutcome::NotStarted(why) => Err(ToolchainError::Subprocess(why)),
        ManagerOutcome::Exited { success, stdout } => {
            if !success {
                return Err(ToolchainError::Subprocess(String::from_str(MANAGER_FAILED)));
            }
            match decode(stdout) {
                Ok(output) => Ok(toolchain_from_output(output.as_str())),
                Err(why) => Err(ToolchainError::Encoding(why)),
            }
        },
    }
}

/// What a lookup needs next from its caller, or the name that it found.
#[derive(Debug, PartialEq, Eq)]
pub enum Lookup {
    /// Read `RUSTUP_TOOLCHAIN_VAR` and hand what it holds to
    /// `get_active_toolchain`.
    ReadOverride,
    /// Run the manager and hand what came of it to `get_directory_toolchain`.
    RunManager,
    /// Nothing more is needed: this is the toolchain.
    Found(String),
}

/// A `Lookup` with its name as a sequence of characters.
pub enum Step {
    ReadOverride,
    RunManager,
    Found(Seq<char>),
}

impl View for Lookup {
    type V = Step;

    open spec fn view(&self) -> Step {
        match self {
            Lookup::ReadOverride => Step::ReadOverride,
            Lookup::RunManager => Step::RunManager,
            Lookup::Found(name) => Step::Found(name@),
        }
    }
}

/// How a lookup begins: with the manager where the directory's default is
/// asked for, else with the override variable.
pub open spec fn first_step(directory_default: bool) -> Step {
    if directory_default {
        Step::RunManager
    } else {
        Step::ReadOverride
    }
}

/// How a lookup goes on once the override variable was read: a value that
/// was set is the toolchain, in its short form; without one the manager has
/// to be asked.
pub open spec fn step_after_override(value: Option<Seq<char>>) -> Step {
    match value {
        Some(toolchain) => Step::Found(truncated(toolchain)),
        None => Step::RunManager,
    }
}

/// What a caller ends with who does what each step asks, in a world where
/// the override variable holds `value` and running the manager gives
/// `outcome`.
pub open spec fn resolved(
    directory_default: bool,
    value: Option<Seq<char>>,
    outcome: ManagerOutcome,
) -> Result<Seq<char>, Failure> {
    let second = match first_step(directory_default) {
        Step::ReadOverride => step_after_override(value),
        other => other,
    };
    match second {
        Step::Found(name) => Ok(name),
        _ => directory_answer(outcome),
    }
}

/// Starts a lookup: of the directory's default toolchain if
/// `directory_default` is set, else of the toolchain that is active for this
/// invocation.
pub fn get_toolchain(directory_default: bool) -> (next: Lookup)
    ensures
        next@ == first_step(directory_default),
{
    if directory_default {
        return Lookup::RunManager;
    }
    Lookup::ReadOverride
}

/// Get the profile that was used to call the current executable.
///
/// Affected by directory overrides and command line flags (e.g. `cargo
/// +nightly ...`). `value` is what `RUSTUP_TOOLCHAIN_VAR` holds, `None` if it
/// is not set. Where it is not set, the lookup falls back to the directory's
/// default, for which the manager has to run.
pub fn get_active_toolchain(value: Option<String>) -> (next: Lookup)
    ensures
        next@ == step_after_override(
            match value {
                Some(toolchain) => Some(toolchain@),
                None => None,
            },
        ),
{
    match value {
        Some(toolchain) => Lookup::Found(truncate_toolchain(toolchain)),
        None => Lookup::RunManager,
    }
}

/// With the override variable set, the active toolchain is the variable's
/// value in its short form, whatever the manager would say: the lookup ends
/// after the variable was read and never asks for the manager.
pub proof fn override_decides(value: Seq<char>, outcome: ManagerOutcome)
    ensures
        first_step(false) == Step::ReadOverride,
        step_after_override(Some(value)) == Step::Found(truncated(value)),
        resolved(false, Some(value), outcome) == Ok::<Seq<char>, Failure>(truncated(value)),
{
}

/// With the override variable unset, the active toolchain is the directory's
/// default: the two lookups end alike, whatever came of running the manager.
/// The directory's default does not depend on the variable at all.
pub proof fn unset_override_gives_directory_default(
    value: Option<Seq<char>>,
    outcome: ManagerOutcome,
)
    ensures
        resolved(false, None, outcome) == resolved(true, value, outcome),
        resolved(true, value, outcome) == directory_answer(outcome),
{
}

} // verus!
