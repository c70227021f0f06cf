use cargo_toolchain::cli::{action_for, parse_args, report, Action, Invocation, Output, HELP_MESSAGE};
use cargo_toolchain::resolver::ToolchainError;

fn arguments(list: &[&str]) -> Vec<String> {
    list.iter().map(|argument| String::from(*argument)).collect()
}

fn run(list: &[&str]) -> Action {
    action_for(&parse_args(&arguments(list)))
}

#[test]
fn no_arguments_print_the_active_toolchain() {
    assert_eq!(parse_args(&[]), Invocation::Print { directory: false });
}

#[test]
fn directory_flags_ask_for_the_directory_default() {
    assert_eq!(parse_args(&arguments(&["-d"])), Invocation::Print { directory: true });
    assert_eq!(parse_args(&arguments(&["--directory"])), Invocation::Print { directory: true });
    assert_eq!(parse_args(&arguments(&["-d", "-d"])), Invocation::Print { directory: true });
}

#[test]
fn help_flags_ask_for_help() {
    assert_eq!(parse_args(&arguments(&["-h"])), Invocation::Help);
    assert_eq!(parse_args(&arguments(&["--help"])), Invocation::Help);
    assert_eq!(parse_args(&arguments(&["-d", "-h"])), Invocation::Help);
    assert_eq!(parse_args(&arguments(&["toolchain", "--help", "-d"])), Invocation::Help);
}

#[test]
fn subcommand_name_is_skipped() {
    assert_eq!(parse_args(&arguments(&["toolchain"])), Invocation::Print { directory: false });
    assert_eq!(
        parse_args(&arguments(&["toolchain", "-d"])),
        parse_args(&arguments(&["-d"]))
    );
    assert_eq!(parse_args(&arguments(&["toolchain", "-d"])), Invocation::Print { directory: true });
    assert_eq!(parse_args(&arguments(&["-d", "toolchain"])), Invocation::Print { directory: true });
    assert_eq!(run(&["toolchain", "-d"]), run(&["-d"]));
}

#[test]
fn subcommand_name_changes_nothing_wherever_it_stands() {
    let lines: [&[&str]; 6] =
        [&[], &["-d"], &["-h"], &["--bogus"], &["-d", "x", "-h"], &["--directory", "--help"]];
    for line in lines {
        let plain = parse_args(&arguments(line));
        for at in 0..=line.len() {
            let mut longer = arguments(line);
            longer.insert(at, String::from("toolchain"));
            assert_eq!(parse_args(&longer), plain);
        }
    }
}

#[test]
fn unknown_argument_is_named() {
    assert_eq!(
        parse_args(&arguments(&["--bogus"])),
        Invocation::Unrecognized(String::from("--bogus"))
    );
    assert_eq!(parse_args(&arguments(&["-d", "x"])), Invocation::Unrecognized(String::from("x")));
    assert_eq!(parse_args(&arguments(&[""])), Invocation::Unrecognized(String::new()));
    assert_eq!(parse_args(&arguments(&["-D"])), Invocation::Unrecognized(String::from("-D")));
    assert_eq!(
        parse_args(&arguments(&["Toolchain"])),
        Invocation::Unrecognized(String::from("Toolchain"))
    );
    assert_eq!(parse_args(&arguments(&["-dh"])), Invocation::Unrecognized(String::from("-dh")));
}

#[test]
fn first_stopping_argument_decides() {
    assert_eq!(
        parse_args(&arguments(&["--bogus", "-h"])),
        Invocation::Unrecognized(String::from("--bogus"))
    );
    assert_eq!(parse_args(&arguments(&["-h", "--bogus"])), Invocation::Help);
    assert_eq!(
        parse_args(&arguments(&["a", "b"])),
        Invocation::Unrecognized(String::from("a"))
    );
}

#[test]
fn help_exits_with_0_and_writes_nothing_to_stdout() {
    match run(&["-h"]) {
        Action::Exit(output) => {
            assert_eq!(output.code, 0);
            assert_eq!(output.stdout, "");
            assert_eq!(output.stderr, format!("{}\n", HELP_MESSAGE));
        }
        other => panic!("{:?}", other),
    }
}

#[test]
fn unknown_argument_exits_with_1_and_writes_error_and_usage_to_stderr() {
    match run(&["--bogus"]) {
        Action::Exit(output) => {
            assert_eq!(output.code, 1);
            assert_eq!(output.stdout, "");
            assert_eq!(
                output.stderr,
                format!("\nUnrecognized argument '--bogus'\n{}\n", HELP_MESSAGE)
            );
        }
        other => panic!("{:?}", other),
    }
}

#[test]
fn printing_needs_a_lookup() {
    assert_eq!(run(&[]), Action::Resolve { directory: false });
    assert_eq!(run(&["-d"]), Action::Resolve { directory: true });
    assert_eq!(run(&["toolchain", "--directory"]), Action::Resolve { directory: true });
}

#[test]
fn usage_text() {
    assert_eq!(
        HELP_MESSAGE,
        "\nPrints the currently active rustup toolchain\n\nUSAGE:\n    cargo toolchain [OPTIONS]\n\nOPTIONS:\n    -d, --directory\tprint the default toolchain for the directory rather than the currently active one\n    -h, --help\tprint this message and exit\n"
    );
}

#[test]
fn found_toolchain_is_one_line_on_stdout() {
    assert_eq!(
        report(Ok(String::from("stable"))),
        Output { stdout: String::from("stable\n"), stderr: String::new(), code: 0 }
    );
}

#[test]
fn subprocess_error_goes_to_stderr_with_1() {
    assert_eq!(
        report(Err(ToolchainError::Subprocess(String::from("No such file or directory (os error 2)")))),
        Output {
            stdout: String::new(),
            stderr: String::from("error: No such file or directory (os error 2)\n"),
            code: 1,
        }
    );
}

#[test]
fn encoding_error_goes_to_stderr_with_1() {
    assert_eq!(
        report(Err(ToolchainError::Encoding(String::from("invalid utf-8 sequence of 1 bytes from index 0")))),
        Output {
            stdout: String::new(),
            stderr: String::from("error: invalid utf-8 sequence of 1 bytes from index 0\n"),
            code: 1,
        }
    );
}
