//! Compile errors and their display text; session-name validation.
use vstd::prelude::*;
use vstd::string::*;
use crate::text::{joined, views, join_from, owned};

verus! {

/// Why an argument vector did not compile.
#[derive(Debug)]
pub enum ParseError {
    /// The command word is not known.
    UnknownCommand { command: String },
    /// The command is known but its subcommand is not.
    UnknownSubcommand { subcommand: String, valid_options: Vec<String> },
    /// A required argument is missing.
    MissingArguments { context: String, usage: String },
    /// An argument is present but its value is not acceptable.
    InvalidValue { message: String, usage: String },
    /// A session name holds characters outside the allowed set.
    InvalidSessionName { name: String },
}

pub enum ParseErrorModel {
    UnknownCommand { command: Seq<char> },
    UnknownSubcommand { subcommand: Seq<char>, valid_options: Seq<Seq<char>> },
    MissingArguments { context: Seq<char>, usage: Seq<char> },
    InvalidValue { message: Seq<char>, usage: Seq<char> },
    InvalidSessionName { name: Seq<char> },
}

impl View for ParseError {
    type V = ParseErrorModel;

    open spec fn view(&self) -> ParseErrorModel {
        match self {
            ParseError::UnknownCommand { command } => ParseErrorModel::UnknownCommand {
                command: command@,
            },
            ParseError::UnknownSubcommand { subcommand, valid_options } =>
                ParseErrorModel::UnknownSubcommand {
                subcommand: subcommand@,
                valid_options: views(valid_options@),
            },
            ParseError::MissingArguments { context, usage } => ParseErrorModel::MissingArguments {
                context: context@,
                usage: usage@,
            },
            ParseError::InvalidValue { message, usage } => ParseErrorModel::InvalidValue {
                message: message@,
                usage: usage@,
            },
            ParseError::InvalidSessionName { name } => ParseErrorModel::InvalidSessionName {
                name: name@,
            },
        }
    }
}

pub open spec fn missing(context: Seq<char>, usage: Seq<char>) -> ParseErrorModel {
    ParseErrorModel::MissingArguments { context, usage }
}

pub open spec fn invalid(message: Seq<char>, usage: Seq<char>) -> ParseErrorModel {
    ParseErrorModel::InvalidValue { message, usage }
}

/// A `MissingArguments` error.
pub fn missing_args(context: &str, usage: &str) -> (e: ParseError)
    ensures
        e@ == missing(context@, usage@),
{
    ParseError::MissingArguments { context: owned(context), usage: owned(usage) }
}

/// An `InvalidValue` error.
pub fn invalid_value(message: String, usage: &str) -> (e: ParseError)
    ensures
        e@ == invalid(message@, usage@),
{
    ParseError::InvalidValue { message, usage: owned(usage) }
}

/// An `UnknownSubcommand` error listing the accepted words.
pub fn unknown_subcommand(sub: &str, valid: Vec<String>) -> (e: ParseError)
    ensures
        e@ == (ParseErrorModel::UnknownSubcommand { subcommand: sub@, valid_options: views(valid@) }),
{
    ParseError::UnknownSubcommand { subcommand: owned(sub), valid_options: valid }
}

pub open spec fn session_name_char(c: char) -> bool {
    ('a' <= c && c <= 'z') || ('A' <= c && c <= 'Z') || ('0' <= c && c <= '9') || c == '-' || c
        == '_'
}

/// A session name is one or more ASCII letters, digits, `-` or `_`: no
/// path separator, dot or space can occur in it.
pub open spec fn valid_session_name(s: Seq<char>) -> bool {
    s.len() > 0 && forall|i: int| 0 <= i < s.len() ==> session_name_char(#[trigger] s[i])
}

/// Whether `name` is a valid session name.
pub fn is_valid_session_name(name: &str) -> (r: bool)
    ensures
        r == valid_session_name(name@),
{
    let n = name.unicode_len();
    if n == 0 {
        return false;
    }
    let mut i: usize = 0;
    while i < n
        invariant
            n == name@.len(),
            i <= n,
            forall|j: int| 0 <= j < i ==> session_name_char(#[trigger] name@[j]),
        decreases n - i,
    {
        let c = name.get_char(i);
        if !(('a' <= c && c <= 'z') || ('A' <= c && c <= 'Z') || ('0' <= c && c <= '9') || c == '-'
            || c == '_') {
            return false;
        }
        i += 1;
    }
    true
}

pub open spec fn session_name_message(name: Seq<char>) -> Seq<char> {
    "Invalid session name: "@ + name
        + "\nSession names may only contain letters, digits, '-' and '_'"@
}

pub open spec fn usage_line(usage: Seq<char>) -> Seq<char> {
    "\nUsage: agent-browser "@ + usage
}

/// The display text of an error.
pub open spec fn format_spec(e: ParseErrorModel) -> Seq<char> {
    match e {
        ParseErrorModel::UnknownCommand { command } => "Unknown command: "@ + command,
        ParseErrorModel::UnknownSubcommand { subcommand, valid_options } => "Unknown subcommand: "@
            + subcommand + "\nValid options: "@ + joined(valid_options, ", "@),
        ParseErrorModel::MissingArguments { context, usage } => "Missing arguments for: "@
            + context + usage_line(usage),
        ParseErrorModel::InvalidValue { message, usage } => message + usage_line(usage),
        ParseErrorModel::InvalidSessionName { name } => session_name_message(name),
    }
}

impl ParseError {
    /// The human-readable message for this error.
    pub fn format(&self) -> (r: String)
        ensures
            r@ == format_spec(self@),
    {
        match self {
            ParseError::UnknownCommand { command } => {
                let mut r = owned("Unknown command: ");
                r.append(command.as_str());
                r
            },
            ParseError::UnknownSubcommand { subcommand, valid_options } => {
                let mut r = owned("Unknown subcommand: ");
                r.append(subcommand.as_str());
                r.append("\nValid options: ");
                let list = join_from(valid_options, 0, ", ");
                assert(views(valid_options@).subrange(0, valid_options@.len() as int) =~= views(
                    valid_options@,
                ));
                r.append(list.as_str());
                r
            },
            ParseError::MissingArguments { context, usage } => {
                let mut r = owned("Missing arguments for: ");
                r.append(context.as_str());
                r.append("\nUsage: agent-browser ");
                r.append(usage.as_str());
                r
            },
            ParseError::InvalidValue { message, usage } => {
                let mut r = owned(message.as_str());
                r.append("\nUsage: agent-browser ");
                r.append(usage.as_str());
                r
            },
            ParseError::InvalidSessionName { name } => {
                let mut r = owned("Invalid session name: ");
                r.append(name.as_str());
                r.append("\nSession names may only contain letters, digits, '-' and '_'");
                r
            },
        }
    }
}

} // verus!
