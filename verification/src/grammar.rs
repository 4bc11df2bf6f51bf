//! The command grammar: from the token stream to command intents.
//!
//! A command line is a row of commands. `search` takes one value, the term to
//! search for. `getactivewindow` takes nothing. A verb of the catalog may be
//! followed by arguments that look like options, which are passed over, and
//! then by one value, its selector. The first thing that fits none of these
//! ends the whole compilation.

use vstd::prelude::*;
use crate::actions::{action_named, lemma_lookup_is_exact, lookup, name_of, Action};
use crate::error::{CompileError, Failure};
use crate::selector::{
    all_digits,
    decimal_value,
    default_selector,
    default_target,
    lemma_selector_forms,
    parse_selector,
    selector_of,
    Selector,
    Target,
};
use crate::text::{has_prefix, str_eq};
use crate::tokens::{is_option_like, lex, next_arg_is_option, Lexeme, Token, TokenStream};

verus! {

/// What one command asks for.
#[derive(Debug, Clone, PartialEq, Eq)]
pub enum Intent {
    /// Replace the window stack with the windows that match `term`.
    Search { term: String },
    /// Replace the window stack with the active window alone.
    GetActiveWindow,
    /// Carry `verb` out on the windows that `selector` picks.
    Action { verb: Action, selector: Selector },
}

/// An [`Intent`] with its text as character sequences.
pub enum Command {
    Search { term: Seq<char> },
    GetActiveWindow,
    Action { verb: Action, target: Target },
}

impl View for Intent {
    type V = Command;

    open spec fn view(&self) -> Command {
        match self {
            Intent::Search { term } => Command::Search { term: term@ },
            Intent::GetActiveWindow => Command::GetActiveWindow,
            Intent::Action { verb, selector } => Command::Action {
                verb: *verb,
                target: selector@,
            },
        }
    }
}

impl DeepView for Intent {
    type V = Command;

    open spec fn deep_view(&self) -> Command {
        self@
    }
}

/// Whether a command is a query: it replaces the window stack.
pub open spec fn is_query(command: Command) -> bool {
    command is Search || command is GetActiveWindow
}

impl Intent {
    /// Whether this intent is a query: it replaces the window stack.
    pub fn is_query(&self) -> (query: bool)
        ensures
            query == is_query(self@),
    {
        match self {
            Intent::Search { .. } => true,
            Intent::GetActiveWindow => true,
            Intent::Action { .. } => false,
        }
    }
}

/// `args` without the arguments at its front that look like options.
pub open spec fn without_leading_options(args: Seq<Seq<char>>) -> Seq<Seq<char>>
    decreases args.len(),
{
    if args.len() > 0 && is_option_like(args[0]) {
        without_leading_options(args.skip(1))
    } else {
        args
    }
}

/// What the front of a command line holds.
pub enum Parsed {
    /// Nothing: the command line is at its end.
    End,
    /// A command, with the arguments behind it and whether a `--` was passed.
    Command { command: Command, unread: Seq<Seq<char>>, options_ended: bool },
    /// Something that is no command.
    Failed(Failure),
}

/// The command at the front of the unread arguments.
pub open spec fn parse_command(unread: Seq<Seq<char>>, options_ended: bool) -> Parsed {
    let first = lex(unread, options_ended);
    match first.token {
        None => Parsed::End,
        Some(Lexeme::Value(word)) => {
            if word == "search"@ {
                let second = lex(first.unread, first.options_ended);
                match second.token {
                    Some(Lexeme::Value(term)) => Parsed::Command {
                        command: Command::Search { term },
                        unread: second.unread,
                        options_ended: second.options_ended,
                    },
                    _ => Parsed::Failed(Failure::MissingSearchTerm),
                }
            } else if word == "getactivewindow"@ {
                Parsed::Command {
                    command: Command::GetActiveWindow,
                    unread: first.unread,
                    options_ended: first.options_ended,
                }
            } else {
                match action_named(word) {
                    Some(verb) => {
                        let rest = without_leading_options(first.unread);
                        if rest.len() == 0 {
                            Parsed::Command {
                                command: Command::Action { verb, target: default_target() },
                                unread: rest,
                                options_ended: first.options_ended,
                            }
                        } else {
                            match selector_of(rest[0]) {
                                Ok(target) => Parsed::Command {
                                    command: Command::Action { verb, target },
                                    unread: rest.skip(1),
                                    options_ended: first.options_ended,
                                },
                                Err(failure) => Parsed::Failed(failure),
                            }
                        }
                    },
                    None => Parsed::Failed(Failure::UnknownCommand(word)),
                }
            }
        },
        Some(_) => Parsed::Failed(Failure::UnexpectedOption),
    }
}

/// Every command of the unread arguments, in order, or the first failure.
pub open spec fn parse_commands(unread: Seq<Seq<char>>, options_ended: bool) -> Result<
    Seq<Command>,
    Failure,
>
    decreases unread.len(),
{
    match parse_command(unread, options_ended) {
        Parsed::End => Ok(Seq::empty()),
        Parsed::Failed(failure) => Err(failure),
        Parsed::Command { command, unread: rest, options_ended: ended } => {
            if rest.len() < unread.len() {
                match parse_commands(rest, ended) {
                    Ok(more) => Ok(seq![command] + more),
                    Err(failure) => Err(failure),
                }
            } else {
                // Not reached: see `lemma_command_takes_arguments`.
                Err(Failure::MalformedArgument)
            }
        },
    }
}

/// The view of what [`TokenStream`]-level parsing of one command returns.
pub open spec fn parsed_outcome(
    outcome: Result<Option<Intent>, CompileError>,
    stream: TokenStream,
) -> Parsed {
    match outcome {
        Ok(None) => Parsed::End,
        Ok(Some(intent)) => Parsed::Command {
            command: intent@,
            unread: stream.unread(),
            options_ended: stream.options_ended(),
        },
        Err(error) => Parsed::Failed(error@),
    }
}

/// The view of the outcome of parsing a whole command line.
pub open spec fn commands_outcome(outcome: Result<Vec<Intent>, CompileError>) -> Result<
    Seq<Command>,
    Failure,
> {
    match outcome {
        Ok(intents) => Ok(intents.deep_view()),
        Err(error) => Err(error@),
    }
}

proof fn lemma_leading_options(args: Seq<Seq<char>>)
    ensures
        without_leading_options(args).len() <= args.len(),
    decreases args.len(),
{
    if args.len() > 0 && is_option_like(args[0]) {
        lemma_leading_options(args.skip(1));
    }
}

/// A command takes at least one argument: behind it the command line is
/// shorter than before it.
pub proof fn lemma_command_takes_arguments(unread: Seq<Seq<char>>, options_ended: bool)
    ensures
        parse_command(unread, options_ended) matches Parsed::Command { unread: rest, .. }
            ==> rest.len() < unread.len(),
{
    let first = lex(unread, options_ended);
    lemma_leading_options(first.unread);
}

/// An argument that does not look like an option is lexed as itself.
proof fn lemma_value_is_lexed_whole(unread: Seq<Seq<char>>, options_ended: bool)
    requires
        unread.len() > 0,
        !is_option_like(unread[0]),
    ensures
        lex(unread, options_ended).token == Some(Lexeme::Value(unread[0])),
        lex(unread, options_ended).unread == unread.skip(1),
        lex(unread, options_ended).options_ended == options_ended,
        !lex(unread, options_ended).mid_argument,
{
    reveal_strlit("--");
    if has_prefix(unread[0], "--"@) {
        assert(unread[0].subrange(0, 2)[0] == unread[0][0]);
    }
}

/// Reads the selector of an action: passes over what looks like an option,
/// then takes one value if there is one.
fn parse_operand(stream: &mut TokenStream) -> (outcome: Result<Selector, CompileError>)
    ensures
        !old(stream).mid_argument() ==> {
            let rest = without_leading_options(old(stream).unread());
            &&& !final(stream).mid_argument()
            &&& final(stream).options_ended() == old(stream).options_ended()
            &&& if rest.len() == 0 {
                &&& outcome matches Ok(selector) && selector@ == default_target()
                &&& final(stream).unread() == rest
            } else {
                match selector_of(rest[0]) {
                    Ok(target) => {
                        &&& outcome matches Ok(selector) && selector@ == target
                        &&& final(stream).unread() == rest.skip(1)
                    },
                    Err(failure) => outcome matches Err(error) && error@ == failure,
                }
            }
        },
{
    loop
        invariant
            stream.mid_argument() == old(stream).mid_argument(),
            stream.options_ended() == old(stream).options_ended(),
            without_leading_options(stream.unread()) == without_leading_options(
                old(stream).unread(),
            ),
        ensures
            stream.mid_argument() == old(stream).mid_argument(),
            stream.options_ended() == old(stream).options_ended(),
            !stream.mid_argument() ==> stream.unread() == without_leading_options(
                old(stream).unread(),
            ),
            stream.unread().len() > 0 && !stream.mid_argument() ==> !is_option_like(
                stream.unread()[0],
            ),
        decreases stream.unread().len(),
    {
        if !next_arg_is_option(stream) {
            break ;
        }
        stream.skip_argument();
    }
    proof {
        if stream.unread().len() > 0 && !stream.mid_argument() {
            lemma_value_is_lexed_whole(stream.unread(), stream.options_ended());
        }
    }
    match stream.next_token() {
        Ok(None) => Ok(default_selector()),
        Ok(Some(Token::Value(text))) => parse_selector(text.as_str()),
        Ok(Some(_)) => Err(CompileError::UnexpectedOption),
        Err(error) => Err(error),
    }
}

/// Reads one command from the stream; `Ok(None)` at the end of the command
/// line. After a failure the stream is of no further use.
///
/// The contract is for a stream that stands between two arguments, as a new
/// one does, and as this function leaves it behind a command.
pub fn parse_intent(stream: &mut TokenStream) -> (outcome: Result<Option<Intent>, CompileError>)
    ensures
        !old(stream).mid_argument() ==> {
            &&& parsed_outcome(outcome, *final(stream)) == parse_command(
                old(stream).unread(),
                old(stream).options_ended(),
            )
            &&& outcome is Ok ==> !final(stream).mid_argument()
        },
{
    let first = stream.next_token();
    match first {
        Err(error) => Err(error),
        Ok(None) => Ok(None),
        Ok(Some(Token::Value(word))) => {
            if str_eq(word.as_str(), "search") {
                match stream.next_token() {
                    Ok(Some(Token::Value(term))) => Ok(Some(Intent::Search { term })),
                    Ok(_) => Err(CompileError::MissingSearchTerm),
                    Err(error) => Err(error),
                }
            } else if str_eq(word.as_str(), "getactivewindow") {
                Ok(Some(Intent::GetActiveWindow))
            } else {
                match lookup(word.as_str()) {
                    Some(verb) => {
                        match parse_operand(stream) {
                            Ok(selector) => Ok(Some(Intent::Action { verb, selector })),
                            Err(error) => Err(error),
                        }
                    },
                    None => Err(CompileError::UnknownCommand(word)),
                }
            }
        },
        Ok(Some(_)) => Err(CompileError::UnexpectedOption),
    }
}

/// `done`, then what `rest` holds, if it holds commands.
pub open spec fn followed_by(done: Seq<Command>, rest: Result<Seq<Command>, Failure>) -> Result<
    Seq<Command>,
    Failure,
> {
    match rest {
        Ok(more) => Ok(done + more),
        Err(failure) => Err(failure),
    }
}

/// Parses a whole command line, given without the program's name: every
/// command in order, or the first failure and nothing else.
pub fn parse(args: &Vec<String>) -> (outcome: Result<Vec<Intent>, CompileError>)
    ensures
        commands_outcome(outcome) == parse_commands(args.deep_view(), false),
{
    let mut stream = TokenStream::new(args);
    let mut intents: Vec<Intent> = Vec::new();
    loop
        invariant
            !stream.mid_argument(),
            followed_by(
                intents.deep_view(),
                parse_commands(stream.unread(), stream.options_ended()),
            ) == parse_commands(args.deep_view(), false),
        decreases stream.unread().len(),
    {
        let ghost unread = stream.unread();
        let ghost ended = stream.options_ended();
        let ghost done = intents.deep_view();
        proof {
            lemma_command_takes_arguments(unread, ended);
        }
        match parse_intent(&mut stream) {
            Ok(None) => {
                return Ok(intents);
            },
            Ok(Some(intent)) => {
                intents.push(intent);
                proof {
                    assert(intents.deep_view() =~= done.push(intent@));
                    match parse_commands(stream.unread(), stream.options_ended()) {
                        Ok(more) => {
                            assert(done.push(intent@) + more =~= done + (seq![intent@] + more));
                        },
                        Err(_) => {},
                    }
                }
            },
            Err(error) => {
                return Err(error);
            },
        }
    }
}

/// A verb of the catalog is a value, and neither `search` nor
/// `getactivewindow`.
proof fn lemma_verb_is_a_plain_word(word: Seq<char>, verb: Action)
    requires
        action_named(word) == Some(verb),
    ensures
        !is_option_like(word),
        word != "search"@,
        word != "getactivewindow"@,
{
    lemma_lookup_is_exact(word, verb);
    reveal_strlit("search");
    reveal_strlit("getactivewindow");
    reveal_strlit("getwindowname");
    reveal_strlit("getwindowclassname");
    reveal_strlit("getwindowgeometry");
    reveal_strlit("getwindowpid");
    reveal_strlit("windowminimize");
    reveal_strlit("windowraise");
    reveal_strlit("windowclose");
    reveal_strlit("windowkill");
    reveal_strlit("windowactivate");
    assert(name_of(verb)[3] != 'a');
}

/// The selector of an action is optional. A verb at the end of the command
/// line is aimed at the top of the window stack. A verb before a value takes
/// that value as its selector, whatever the value is, and fails where the
/// value is no selector.
pub proof fn lemma_selector_is_optional(
    word: Seq<char>,
    verb: Action,
    operand: Seq<char>,
    rest: Seq<Seq<char>>,
)
    requires
        action_named(word) == Some(verb),
        !is_option_like(operand),
    ensures
        parse_command(seq![word], false) == (Parsed::Command {
            command: Command::Action { verb, target: default_target() },
            unread: Seq::empty(),
            options_ended: false,
        }),
        default_target() == Target::StackIndex(1),
        parse_command(seq![word, operand] + rest, false) == match selector_of(operand) {
            Ok(target) => Parsed::Command {
                command: Command::Action { verb, target },
                unread: rest,
                options_ended: false,
            },
            Err(failure) => Parsed::Failed(failure),
        },
{
    lemma_verb_is_a_plain_word(word, verb);
    let alone = seq![word];
    lemma_value_is_lexed_whole(alone, false);
    assert(alone.skip(1) =~= Seq::<Seq<char>>::empty());
    let line = seq![word, operand] + rest;
    lemma_value_is_lexed_whole(line, false);
    let behind = line.skip(1);
    assert(behind.skip(1) =~= rest);
}

/// A stack index is not held against any bound when the command line is
/// compiled: a verb before `%` and digits is one command aimed at the place
/// that the digits write, be it zero or a place that no stack will ever
/// have. Only a number too wide for an `i32` is refused.
pub proof fn lemma_stack_index_is_taken_as_written(
    word: Seq<char>,
    verb: Action,
    digits: Seq<char>,
)
    requires
        action_named(word) == Some(verb),
        digits.len() > 0,
        all_digits(digits),
        decimal_value(digits) <= i32::MAX,
    ensures
        parse_commands(seq![word, seq!['%'] + digits], false) == Ok::<Seq<Command>, Failure>(
            seq![Command::Action { verb, target: Target::StackIndex(decimal_value(digits)) }],
        ),
{
    let operand = seq!['%'] + digits;
    let line = seq![word, operand];
    let command = Command::Action { verb, target: Target::StackIndex(decimal_value(digits)) };
    lemma_selector_forms(digits, Seq::empty());
    lemma_selector_is_optional(word, verb, operand, Seq::empty());
    assert(parse_commands(Seq::<Seq<char>>::empty(), false) == Ok::<Seq<Command>, Failure>(
        Seq::empty(),
    ));
}

} // verus!
