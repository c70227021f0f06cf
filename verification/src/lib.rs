//! # cargo-toolchain
//!
//! `cargo-toolchain` is a utility to get the currently active and default
//! [rustup toolchains](https://doc.rust-lang.org/stable/book/appendix-07-nightly-rust.html#rustup-and-the-role-of-rust-nightly).
//!
//! This crate decides and computes; it never touches the process itself. A
//! lookup goes step by step: the caller reads the override variable or runs
//! `rustup` when a step asks for it, and hands over what came back. The
//! command line is read and answered in the same way: arguments in, the texts
//! for the two output streams and the exit status out.
//!
//! ```text
//! get_toolchain(false)              -> Lookup::ReadOverride
//! get_active_toolchain(None)        -> Lookup::RunManager
//! get_directory_toolchain(outcome)  -> Ok("stable")
//! ```

pub mod channel;
pub mod cli;
pub mod resolver;
pub mod text;

pub use channel::{truncate_toolchain, DEFAULT_PROFILES};
pub use cli::{action_for, parse_args, report, Action, Invocation, Output, HELP_MESSAGE};
pub use resolver::{
    get_active_toolchain, get_directory_toolchain, get_toolchain, toolchain_from_output, Lookup,
    ManagerOutcome, ToolchainError, MANAGER, MANAGER_ARGS, MANAGER_FAILED, RUSTUP_TOOLCHAIN_VAR,
};
