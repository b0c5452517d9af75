//! The broker's command line.
//!
//! A privileged daemon must not silently relocate its socket or journal because
//! an argument was mistyped, so every parse failure is fatal.
use vstd::prelude::*;

use crate::text::same_text;

verus! {

/// One argument of the command line.
#[derive(Clone, Debug)]
pub enum Argument {
    /// An argument that is text.
    Text(String),
    /// An argument that is not valid UTF-8, with each invalid sequence replaced.
    NotUnicode(String),
}

/// What an argument says.
pub enum ArgumentView {
    /// An argument that is text.
    Text(Seq<char>),
    /// An argument that is not valid UTF-8.
    NotUnicode(Seq<char>),
}

impl View for Argument {
    type V = ArgumentView;

    open spec fn view(&self) -> ArgumentView {
        match self {
            Argument::Text(text) => ArgumentView::Text(text@),
            Argument::NotUnicode(text) => ArgumentView::NotUnicode(text@),
        }
    }
}

/// Why the command line was refused.
#[derive(Clone, Debug)]
pub enum ArgError {
    /// A recognized flag was given without a value.
    MissingValue(String),
    /// A recognized flag was given more than once.
    Repeated(String),
    /// An argument is neither a flag nor a help flag.
    Unrecognized {
        /// The rejected argument, verbatim.
        argument: String,
    },
    /// An argument is not valid UTF-8.
    NotUnicode {
        /// The rejected argument, with each invalid sequence replaced.
        argument: String,
    },
}

impl ArgError {
    /// The sentence that describes the refusal.
    pub fn message(&self) -> (text: String)
        ensures
            text@ == match self {
                ArgError::MissingValue(flag) => flag@ + " requires a value"@,
                ArgError::Repeated(flag) => flag@ + " was given more than once"@,
                ArgError::Unrecognized { argument } => "unrecognized argument "@ + argument@
                    + "; expected one of --socket, --journal"@,
                ArgError::NotUnicode { argument } => "argument "@ + argument@ + " is not valid UTF-8"@,
            },
    {
        match self {
            ArgError::MissingValue(flag) => flag.clone().concat(" requires a value"),
            ArgError::Repeated(flag) => flag.clone().concat(" was given more than once"),
            ArgError::Unrecognized { argument } => "unrecognized argument ".to_owned()
                .concat(argument.as_str())
                .concat("; expected one of --socket, --journal"),
            ArgError::NotUnicode { argument } => "argument ".to_owned()
                .concat(argument.as_str())
                .concat(" is not valid UTF-8"),
        }
    }
}

/// Socket and journal locations given on the command line.
#[derive(Debug, Default, PartialEq, Eq)]
pub struct Options {
    /// Value of `--socket`, when supplied.
    pub socket: Option<String>,
    /// Value of `--journal`, when supplied.
    pub journal: Option<String>,
}

/// What a parsed command line asks the binary to do.
#[derive(Debug, PartialEq, Eq)]
pub enum Invocation {
    /// Serve with these locations.
    Run(Options),
    /// Print the usage and exit successfully.
    Help,
}

/// What a command line comes to.
#[verifier::ext_equal]
pub enum CommandLine {
    /// Serve with these locations.
    Run {
        /// Value of `--socket`, when supplied.
        socket: Option<Seq<char>>,
        /// Value of `--journal`, when supplied.
        journal: Option<Seq<char>>,
    },
    /// Print the usage.
    Help,
    /// A flag has no value.
    MissingValue(Seq<char>),
    /// A flag is given more than once.
    Repeated(Seq<char>),
    /// An argument is not known.
    Unrecognized(Seq<char>),
    /// An argument is not valid UTF-8.
    NotUnicode(Seq<char>),
}

/// Whether an argument asks for the usage.
pub open spec fn asks_for_help(argument: Seq<char>) -> bool {
    argument == "--help"@ || argument == "-h"@
}

/// Whether a value is shaped like a flag: every value-taking flag is long, and
/// the help flags add the one short flag.
pub open spec fn flag_shaped(value: Seq<char>) -> bool {
    (value.len() >= 2 && value[0] == '-' && value[1] == '-') || asks_for_help(value)
}

/// Where the first equals sign at or after `from` stands.
pub open spec fn equals_sign(argument: Seq<char>, from: int) -> Option<int>
    decreases argument.len() - from,
{
    if from < 0 || from >= argument.len() {
        None
    } else if argument[from] == '=' {
        Some(from)
    } else {
        equals_sign(argument, from + 1)
    }
}

/// The flag that an argument names: all of it up to the first equals sign.
pub open spec fn flag_of(argument: Seq<char>) -> Seq<char> {
    match equals_sign(argument, 0) {
        Some(at) => argument.take(at),
        None => argument,
    }
}

/// The value that an argument carries after its first equals sign.
pub open spec fn inline_value(argument: Seq<char>) -> Option<Seq<char>> {
    match equals_sign(argument, 0) {
        Some(at) => Some(argument.skip(at + 1)),
        None => None,
    }
}

/// What a command line comes to, after the locations it has given so far.
///
/// In the separated form the value may not itself look like a flag, and a help
/// flag is recognized only where a flag is expected, so a mistyped command line
/// stays fatal.
pub open spec fn read(
    arguments: Seq<ArgumentView>,
    socket: Option<Seq<char>>,
    journal: Option<Seq<char>>,
) -> CommandLine
    decreases arguments.len(), 0int,
{
    if arguments.len() == 0 {
        CommandLine::Run { socket, journal }
    } else {
        match arguments[0] {
            ArgumentView::NotUnicode(argument) => CommandLine::NotUnicode(argument),
            ArgumentView::Text(argument) => {
                let flag = flag_of(argument);
                if asks_for_help(argument) {
                    CommandLine::Help
                } else if flag != "--socket"@ && flag != "--journal"@ {
                    CommandLine::Unrecognized(argument)
                } else if (flag == "--socket"@ && socket is Some) || (flag == "--journal"@ && journal is Some) {
                    CommandLine::Repeated(flag)
                } else {
                    match inline_value(argument) {
                        Some(value) => if value.len() == 0 {
                            CommandLine::MissingValue(flag)
                        } else {
                            read_on(arguments.skip(1), flag, value, socket, journal)
                        },
                        None => if arguments.len() == 1 {
                            CommandLine::MissingValue(flag)
                        } else {
                            match arguments[1] {
                                ArgumentView::NotUnicode(next) => CommandLine::NotUnicode(next),
                                ArgumentView::Text(value) => if flag_shaped(value) || value.len() == 0 {
                                    CommandLine::MissingValue(flag)
                                } else {
                                    read_on(arguments.skip(2), flag, value, socket, journal)
                                },
                            }
                        },
                    }
                }
            },
        }
    }
}

/// What the rest of a command line comes to once a flag has been given a value.
pub open spec fn read_on(
    rest: Seq<ArgumentView>,
    flag: Seq<char>,
    value: Seq<char>,
    socket: Option<Seq<char>>,
    journal: Option<Seq<char>>,
) -> CommandLine
    decreases rest.len(), 1int,
{
    if flag == "--socket"@ {
        read(rest, Some(value), journal)
    } else {
        read(rest, socket, Some(value))
    }
}

/// Whether an argument asks for the usage.
fn is_help(argument: &str) -> (yes: bool)
    ensures
        yes == asks_for_help(argument@),
{
    same_text(argument, "--help") || same_text(argument, "-h")
}

/// Whether an argument standing in value position is really a flag.
pub fn looks_like_flag(value: &str) -> (yes: bool)
    ensures
        yes == flag_shaped(value@),
{
    (value.unicode_len() >= 2 && value.get_char(0) == '-' && value.get_char(1) == '-') || is_help(value)
}

/// Splits an argument at its first equals sign.
fn split_flag(argument: &str) -> (parts: (String, Option<String>))
    ensures
        parts.0@ == flag_of(argument@),
        match (parts.1, inline_value(argument@)) {
            (Some(value), Some(expected)) => value@ == expected,
            (None, None) => true,
            _ => false,
        },
{
    let count: usize = argument.unicode_len();
    let mut i: usize = 0;
    while i < count
        invariant
            i <= count,
            count == argument@.len(),
            equals_sign(argument@, 0) == equals_sign(argument@, i as int),
        decreases count - i,
    {
        if argument.get_char(i) == '=' {
            let flag = argument.substring_char(0, i);
            let value = argument.substring_char(i + 1, count);
            assert(flag@ =~= argument@.take(i as int));
            assert(value@ =~= argument@.skip(i + 1));
            return (flag.to_owned(), Some(value.to_owned()));
        }
        i = i + 1;
    }
    (argument.to_owned(), None)
}

/// The text that an optional location holds.
pub open spec fn text_of(location: Option<String>) -> Option<Seq<char>> {
    match location {
        Some(text) => Some(text@),
        None => None,
    }
}

/// Whether the outcome of parsing is what the command line comes to.
pub open spec fn parsed(outcome: Result<Invocation, ArgError>, reading: CommandLine) -> bool {
    match (outcome, reading) {
        (Ok(Invocation::Run(options)), CommandLine::Run { socket, journal }) => text_of(options.socket) == socket
            && text_of(options.journal) == journal,
        (Ok(Invocation::Help), CommandLine::Help) => true,
        (Err(ArgError::MissingValue(flag)), CommandLine::MissingValue(expected)) => flag@ == expected,
        (Err(ArgError::Repeated(flag)), CommandLine::Repeated(expected)) => flag@ == expected,
        (Err(ArgError::Unrecognized { argument }), CommandLine::Unrecognized(expected)) => argument@ == expected,
        (Err(ArgError::NotUnicode { argument }), CommandLine::NotUnicode(expected)) => argument@ == expected,
        _ => false,
    }
}

/// The arguments as they read.
pub open spec fn views(arguments: Seq<Argument>) -> Seq<ArgumentView> {
    arguments.map_values(|argument: Argument| argument@)
}

/// Parses `--flag value` and `--flag=value` pairs, rejecting anything else.
pub fn parse_args(arguments: &Vec<Argument>) -> (outcome: Result<Invocation, ArgError>)
    ensures
        parsed(outcome, read(views(arguments@), None, None)),
{
    let mut socket: Option<String> = None;
    let mut journal: Option<String> = None;
    let ghost all = views(arguments@);
    let mut i: usize = 0;
    assert(all.skip(0) =~= all);
    while i < arguments.len()
        invariant
            i <= arguments.len(),
            all == views(arguments@),
            read(all, None, None) == read(all.skip(i as int), text_of(socket), text_of(journal)),
        decreases arguments.len() - i,
    {
        let ghost rest = all.skip(i as int);
        proof {
            assert(rest[0] == arguments[i as int]@);
            assert(rest.skip(1) =~= all.skip(i + 1));
            if i + 1 < arguments.len() {
                assert(rest[1] == arguments[i + 1]@);
                assert(rest.skip(2) =~= all.skip(i + 2));
            }
        }
        let argument = match &arguments[i] {
            Argument::NotUnicode(argument) => {
                return Err(ArgError::NotUnicode { argument: argument.clone() });
            },
            Argument::Text(argument) => argument,
        };
        if is_help(argument.as_str()) {
            return Ok(Invocation::Help);
        }
        let (flag, inline) = split_flag(argument.as_str());
        let names_socket = same_text(flag.as_str(), "--socket");
        if !names_socket && !same_text(flag.as_str(), "--journal") {
            return Err(ArgError::Unrecognized { argument: argument.clone() });
        }
        proof {
            reveal_strlit("--socket");
            reveal_strlit("--journal");
            assert("--socket"@.len() == 8 && "--journal"@.len() == 9);
        }
        if (names_socket && socket.is_some()) || (!names_socket && journal.is_some()) {
            return Err(ArgError::Repeated(flag));
        }
        let value = match inline {
            Some(value) => {
                i = i + 1;
                value
            },
            None => {
                if i + 1 >= arguments.len() {
                    return Err(ArgError::MissingValue(flag));
                }
                match &arguments[i + 1] {
                    Argument::NotUnicode(argument) => {
                        return Err(ArgError::NotUnicode { argument: argument.clone() });
                    },
                    Argument::Text(value) => {
                        if looks_like_flag(value.as_str()) {
                            return Err(ArgError::MissingValue(flag));
                        }
                        i = i + 2;
                        value.clone()
                    },
                }
            },
        };
        if value.as_str().unicode_len() == 0 {
            return Err(ArgError::MissingValue(flag));
        }
        if names_socket {
            socket = Some(value);
        } else {
            journal = Some(value);
        }
    }
    assert(all.skip(i as int).len() == 0);
    Ok(Invocation::Run(Options { socket, journal }))
}

/// A command line that is accepted never takes a flag for a value: a separated
/// value that is shaped like a flag is refused.
pub proof fn a_swallowed_flag_is_refused(
    argument: Seq<char>,
    next: Seq<char>,
    rest: Seq<ArgumentView>,
    socket: Option<Seq<char>>,
    journal: Option<Seq<char>>,
)
    requires
        argument == "--socket"@ && socket is None || argument == "--journal"@ && journal is None,
        flag_shaped(next),
    ensures
        read(
            seq![ArgumentView::Text(argument), ArgumentView::Text(next)] + rest,
            socket,
            journal,
        ) == CommandLine::MissingValue(argument),
{
    reveal_strlit("--socket");
    reveal_strlit("--journal");
    reveal_strlit("--help");
    reveal_strlit("-h");
    reveal_with_fuel(equals_sign, 12);
    assert("--socket"@.len() == 8 && "--journal"@.len() == 9 && "--help"@.len() == 6 && "-h"@.len() == 2);
    assert(equals_sign(argument, 0) is None);
}

/// The first equals sign stands behind a text that has none.
proof fn lemma_first_equals_sign(flag: Seq<char>, value: Seq<char>, from: int)
    requires
        0 <= from <= flag.len(),
        forall|i: int| 0 <= i < flag.len() ==> (#[trigger] flag[i]) != '=',
    ensures
        equals_sign(flag.push('=') + value, from) == Some(flag.len() as int),
    decreases flag.len() - from,
{
    let argument = flag.push('=') + value;
    if from < flag.len() {
        assert(argument[from] == flag[from]);
        lemma_first_equals_sign(flag, value, from + 1);
    } else {
        assert(argument[from] == '=');
    }
}

/// The two forms of a flag agree: a value behind an equals sign is taken as the
/// same value in the next argument is, unless that looks like a flag.
pub proof fn the_two_forms_of_a_flag_agree(
    flag: Seq<char>,
    value: Seq<char>,
    rest: Seq<ArgumentView>,
    socket: Option<Seq<char>>,
    journal: Option<Seq<char>>,
)
    requires
        flag == "--socket"@ || flag == "--journal"@,
        !flag_shaped(value),
    ensures
        read(seq![ArgumentView::Text(flag), ArgumentView::Text(value)] + rest, socket, journal) == read(
            seq![ArgumentView::Text(flag.push('=') + value)] + rest,
            socket,
            journal,
        ),
{
    reveal_strlit("--socket");
    reveal_strlit("--journal");
    reveal_strlit("--help");
    reveal_strlit("-h");
    assert("--socket"@.len() == 8 && "--journal"@.len() == 9 && "--help"@.len() == 6 && "-h"@.len() == 2);
    let joined = flag.push('=') + value;
    assert(forall|i: int| 0 <= i < flag.len() ==> (#[trigger] flag[i]) != '=');
    lemma_first_equals_sign(flag, value, 0);
    assert(joined.take(flag.len() as int) =~= flag);
    assert(joined.skip(flag.len() as int + 1) =~= value);
    reveal_with_fuel(equals_sign, 12);
    assert(equals_sign(flag, 0) is None);
    let apart = seq![ArgumentView::Text(flag), ArgumentView::Text(value)] + rest;
    let together = seq![ArgumentView::Text(joined)] + rest;
    assert(apart.skip(2) =~= rest);
    assert(together.skip(1) =~= rest);
    assert(apart[0] == ArgumentView::Text(flag) && apart[1] == ArgumentView::Text(value));
    assert(together[0] == ArgumentView::Text(joined));
}

} // verus!
