//! The broker's command line.

use fpsmaxxing::args::{looks_like_flag, parse_args, ArgError, Argument, Invocation, Options};

fn parse(arguments: &[&str]) -> Result<Invocation, ArgError> {
    parse_args(
        &arguments
            .iter()
            .map(|argument| Argument::Text((*argument).to_owned()))
            .collect(),
    )
}

/// The [`Options`] a command line that asks for a run resolves to.
fn run_options(arguments: &[&str]) -> Options {
    match parse(arguments).expect("the command line should parse") {
        Invocation::Run(options) => options,
        Invocation::Help => panic!("{arguments:?} should not ask for usage"),
    }
}

#[test]
fn both_flag_forms_are_accepted() {
    assert_eq!(
        run_options(&["--socket", "/run/b.sock", "--journal=/var/j.sqlite"]),
        Options {
            socket: Some("/run/b.sock".to_owned()),
            journal: Some("/var/j.sqlite".to_owned()),
        }
    );
    assert_eq!(run_options(&[]), Options::default());
}

#[test]
fn a_flag_shaped_value_needs_the_inline_form() {
    assert!(matches!(
        parse(&["--socket", "--journal", "/var/j.sqlite"])
            .expect_err("a swallowed flag must not become the socket path"),
        ArgError::MissingValue(_)
    ));
    let options = run_options(&["--socket=--journal"]);
    assert_eq!(options.socket.as_deref(), Some("--journal"));
}

#[test]
fn a_mistyped_command_line_is_fatal() {
    assert!(matches!(
        parse(&["--socket"]).expect_err("a trailing flag must not fall back to the default"),
        ArgError::MissingValue(_)
    ));
    assert!(matches!(
        parse(&["--socket="]).expect_err("an empty value must be refused"),
        ArgError::MissingValue(_)
    ));
    assert!(matches!(
        parse(&["--sockett", "/run/b.sock"]).expect_err("a typo must be refused"),
        ArgError::Unrecognized { .. }
    ));
    assert!(matches!(
        parse(&["/run/b.sock"]).expect_err("a positional argument must be refused"),
        ArgError::Unrecognized { .. }
    ));
    assert!(matches!(
        parse(&["--socket", "/a", "--socket", "/b"]).expect_err("a repeated flag must be refused"),
        ArgError::Repeated(_)
    ));
}

#[test]
fn a_non_utf8_argument_is_a_typed_error_not_a_panic() {
    let invalid = Argument::NotUnicode("/\u{fffd}x".to_owned());
    for arguments in [
        vec![invalid.clone()],
        vec![Argument::Text("--socket".to_owned()), invalid.clone()],
    ] {
        let error = parse_args(&arguments).expect_err("a non-UTF-8 argument must be refused");
        assert!(matches!(error, ArgError::NotUnicode { .. }));
        assert_eq!(error.message(), "argument /\u{fffd}x is not valid UTF-8");
    }
}

#[test]
fn a_help_flag_is_recognized_only_in_flag_position() {
    for flag in ["--help", "-h"] {
        assert_eq!(
            parse(&[flag]).expect("a help flag should parse"),
            Invocation::Help,
            "{flag} should ask for usage"
        );
        assert_eq!(
            parse(&["--journal", "/var/j.sqlite", flag])
                .expect("a help flag should parse anywhere a flag may stand"),
            Invocation::Help
        );
        assert!(
            matches!(parse(&["--socket", flag]), Err(ArgError::MissingValue(_))),
            "{flag} in value position is a mistyped command line, not usage"
        );
    }
}

#[test]
fn refusals_name_what_was_wrong() {
    let message = |arguments: &[&str]| parse(arguments).expect_err("refused").message();
    assert_eq!(message(&["--socket"]), "--socket requires a value");
    assert_eq!(
        message(&["--journal=/a", "--journal", "/b"]),
        "--journal was given more than once"
    );
    assert_eq!(
        message(&["--sockett=/a"]),
        "unrecognized argument --sockett=/a; expected one of --socket, --journal"
    );
}

#[test]
fn only_the_first_equals_sign_splits() {
    let options = run_options(&["--socket=/a=b", "--journal", "-x"]);
    assert_eq!(options.socket.as_deref(), Some("/a=b"));
    assert_eq!(options.journal.as_deref(), Some("-x"));
    assert!(looks_like_flag("--") && looks_like_flag("-h") && !looks_like_flag("-x"));
}

#[test]
fn the_two_forms_of_a_flag_give_the_same() {
    for flag in ["--socket", "--journal"] {
        for value in ["/a", "a=b", "-", "-x", ""] {
            let joined = format!("{flag}={value}");
            for rest in [&[][..], &["--socket", "/b"], &["--help"], &["x"]] {
                let mut apart = vec![flag, value];
                apart.extend(rest);
                let mut together = vec![joined.as_str()];
                together.extend(rest);
                assert_eq!(
                    format!("{:?}", parse(&apart)),
                    format!("{:?}", parse(&together))
                );
            }
        }
    }
}
