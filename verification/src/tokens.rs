//! The token stream: the command line behind a cursor, read one token at a
//! time, with one argument of lookahead to tell options from values.
//!
//! The cursor is `lexopt::Parser`. Verus sees nothing inside it, so this module
//! names what it holds and states, in the contracts of a few private wrappers,
//! what `lexopt` does to it. Everything else here is proved from those.

use vstd::prelude::*;
use crate::error::CompileError;
use crate::text::{has_prefix, starts_with};

verus! {

/// One token, as the lexer classifies it.
#[derive(Debug, Clone, PartialEq, Eq)]
pub enum Token {
    /// A short option such as `-q`, without its dash.
    Short(char),
    /// A long option such as `--verbose`, without its dashes.
    Long(String),
    /// A free-standing argument.
    Value(String),
}

/// A [`Token`] with its text as a character sequence.
pub enum Lexeme {
    Short(char),
    Long(Seq<char>),
    Value(Seq<char>),
}

impl View for Token {
    type V = Lexeme;

    open spec fn view(&self) -> Lexeme {
        match self {
            Token::Short(c) => Lexeme::Short(*c),
            Token::Long(name) => Lexeme::Long(name@),
            Token::Value(text) => Lexeme::Value(text@),
        }
    }
}

/// The view of a token that may be missing.
pub open spec fn lexeme_of(token: Option<Token>) -> Option<Lexeme> {
    match token {
        Some(token) => Some(token@),
        None => None,
    }
}

/// Whether an argument looks like an option: it starts with a dash.
pub open spec fn is_option_like(arg: Seq<char>) -> bool {
    arg.len() > 0 && arg[0] == '-'
}

/// The characters of `text` before its first `stop`, all of them if it has none.
pub open spec fn text_before(text: Seq<char>, stop: char) -> Seq<char>
    decreases text.len(),
{
    if text.len() == 0 || text[0] == stop {
        Seq::empty()
    } else {
        seq![text[0]] + text_before(text.skip(1), stop)
    }
}

/// What one step of the lexer yields and leaves behind.
pub struct Lexed {
    /// The token, or `None` at the end of the command line.
    pub token: Option<Lexeme>,
    /// The arguments still unread.
    pub unread: Seq<Seq<char>>,
    /// Whether a `--` has been passed.
    pub options_ended: bool,
    /// Whether the lexer stopped inside an argument.
    pub mid_argument: bool,
}

/// One step of the lexer from between two arguments: `unread` is what is left
/// of the command line, `options_ended` whether a `--` has been passed.
///
/// After a `--` every argument is a value. Before it, `--` itself is dropped
/// and ends the options; `--name` and `--name=value` are the long option
/// `name`; a dash and more is a short option, named by the character behind
/// the dash; anything else, a lone `-` too, is a value.
pub open spec fn lex(unread: Seq<Seq<char>>, options_ended: bool) -> Lexed {
    if unread.len() == 0 {
        Lexed { token: None, unread, options_ended, mid_argument: false }
    } else if options_ended {
        Lexed {
            token: Some(Lexeme::Value(unread[0])),
            unread: unread.skip(1),
            options_ended: true,
            mid_argument: false,
        }
    } else if unread[0] == "--"@ {
        if unread.len() == 1 {
            Lexed { token: None, unread: unread.skip(1), options_ended: true, mid_argument: false }
        } else {
            Lexed {
                token: Some(Lexeme::Value(unread[1])),
                unread: unread.skip(2),
                options_ended: true,
                mid_argument: false,
            }
        }
    } else if has_prefix(unread[0], "--"@) {
        Lexed {
            token: Some(Lexeme::Long(text_before(unread[0].skip(2), '='))),
            unread: unread.skip(1),
            options_ended: false,
            mid_argument: unread[0].contains('='),
        }
    } else if unread[0].len() > 1 && unread[0][0] == '-' {
        Lexed {
            token: Some(Lexeme::Short(unread[0][1])),
            unread: unread.skip(1),
            options_ended: false,
            mid_argument: unread[0].len() > 2,
        }
    } else {
        Lexed {
            token: Some(Lexeme::Value(unread[0])),
            unread: unread.skip(1),
            options_ended: false,
            mid_argument: false,
        }
    }
}

/// `lexopt::Parser`, the lexer and its place in the command line. It is
/// carried as it is; what is said of it is said through the three names below.
#[verifier::external_type_specification]
#[verifier::external_body]
pub struct ExParser(lexopt::Parser);

/// `lexopt::Error`, the lexer's complaint. Nothing is read from it.
#[verifier::external_type_specification]
#[verifier::external_body]
pub struct ExLexoptError(lexopt::Error);

/// The arguments that a parser has not taken from its source yet, in order.
pub uninterp spec fn unread_args(parser: lexopt::Parser) -> Seq<Seq<char>>;

/// Whether a parser has passed a `--`, after which every argument is a value.
pub uninterp spec fn options_ended(parser: lexopt::Parser) -> bool;

/// Whether a parser stands inside an argument: behind one of several short
/// options written as one argument, or before the value of `--option=value`.
pub uninterp spec fn mid_argument(parser: lexopt::Parser) -> bool;

/// `lexopt::Parser::from_args`: a parser over `args`, none of them read yet,
/// before any `--` and between arguments.
#[verifier::external_body]
fn parser_over(args: &Vec<String>) -> (parser: lexopt::Parser)
    ensures
        unread_args(parser) == args.deep_view(),
        !options_ended(parser),
        !mid_argument(parser),
{
    lexopt::Parser::from_args(args.iter().map(|arg| arg.as_str()))
}

/// `lexopt::Parser::next`, its result moved into a [`Token`]. Called between
/// two arguments it does not fail, and yields and leaves behind what [`lex`]
/// says, which is the syntax that `lexopt` documents. Nothing is claimed of a
/// call made inside an argument.
#[verifier::external_body]
fn parser_next(parser: &mut lexopt::Parser) -> (next: Result<Option<Token>, lexopt::Error>)
    ensures
        !mid_argument(*old(parser)) ==> {
            let lexed = lex(unread_args(*old(parser)), options_ended(*old(parser)));
            &&& next matches Ok(token) && lexeme_of(token) == lexed.token
            &&& unread_args(*final(parser)) == lexed.unread
            &&& options_ended(*final(parser)) == lexed.options_ended
            &&& mid_argument(*final(parser)) == lexed.mid_argument
        },
{
    Ok(match parser.next()? {
        None => None,
        Some(lexopt::Arg::Short(c)) => Some(Token::Short(c)),
        Some(lexopt::Arg::Long(name)) => Some(Token::Long(name.to_string())),
        Some(lexopt::Arg::Value(text)) => Some(Token::Value(text.to_string_lossy().into_owned())),
    })
}

/// `lexopt::Parser::try_raw_args` and `lexopt::RawArgs::peek`: the next unread
/// argument, which stays unread. There is none to look at inside an argument
/// or at the end of the command line. The parser is left as it was.
#[verifier::external_body]
fn parser_peek(parser: &mut lexopt::Parser) -> (next: Option<String>)
    ensures
        unread_args(*final(parser)) == unread_args(*old(parser)),
        options_ended(*final(parser)) == options_ended(*old(parser)),
        mid_argument(*final(parser)) == mid_argument(*old(parser)),
        match next {
            Some(arg) => !mid_argument(*old(parser)) && unread_args(*old(parser)).len() > 0
                && arg@ == unread_args(*old(parser))[0],
            None => mid_argument(*old(parser)) || unread_args(*old(parser)).len() == 0,
        },
{
    parser.try_raw_args()?.peek().map(|arg| arg.to_string_lossy().into_owned())
}

/// `lexopt::Parser::try_raw_args` and `lexopt::RawArgs::next`: takes the next
/// unread argument as it is written, without lexing it. Inside an argument,
/// and at the end of the command line, nothing is taken.
#[verifier::external_body]
fn parser_take_raw(parser: &mut lexopt::Parser) -> (taken: Option<String>)
    ensures
        options_ended(*final(parser)) == options_ended(*old(parser)),
        mid_argument(*final(parser)) == mid_argument(*old(parser)),
        match taken {
            Some(arg) => !mid_argument(*old(parser)) && unread_args(*old(parser)).len() > 0
                && arg@ == unread_args(*old(parser))[0]
                && unread_args(*final(parser)) == unread_args(*old(parser)).skip(1),
            None => (mid_argument(*old(parser)) || unread_args(*old(parser)).len() == 0)
                && unread_args(*final(parser)) == unread_args(*old(parser)),
        },
{
    parser.try_raw_args()?.next().map(|arg| arg.to_string_lossy().into_owned())
}

/// The command line behind a cursor.
pub struct TokenStream {
    parser: lexopt::Parser,
}

impl TokenStream {
    /// The arguments not read yet, in order.
    pub closed spec fn unread(&self) -> Seq<Seq<char>> {
        unread_args(self.parser)
    }

    /// Whether a `--` has been passed: every argument from here on is a value.
    pub closed spec fn options_ended(&self) -> bool {
        options_ended(self.parser)
    }

    /// Whether the cursor stands inside an argument.
    pub closed spec fn mid_argument(&self) -> bool {
        mid_argument(self.parser)
    }

    /// A stream over `args`, the command line without the program's name.
    pub fn new(args: &Vec<String>) -> (stream: TokenStream)
        ensures
            stream.unread() == args.deep_view(),
            !stream.options_ended(),
            !stream.mid_argument(),
    {
        TokenStream { parser: parser_over(args) }
    }

    /// Reads the next token; `Ok(None)` at the end of the command line.
    ///
    /// Between two arguments this is one step of [`lex`]. Inside an argument
    /// the lexer decides, and may give up with `MalformedArgument`.
    pub fn next_token(&mut self) -> (next: Result<Option<Token>, CompileError>)
        ensures
            !old(self).mid_argument() ==> {
                let lexed = lex(old(self).unread(), old(self).options_ended());
                &&& next matches Ok(token) && lexeme_of(token) == lexed.token
                &&& final(self).unread() == lexed.unread
                &&& final(self).options_ended() == lexed.options_ended
                &&& final(self).mid_argument() == lexed.mid_argument
            },
            next matches Err(e) ==> e == CompileError::MalformedArgument,
    {
        match parser_next(&mut self.parser) {
            Ok(token) => Ok(token),
            Err(_) => Err(CompileError::MalformedArgument),
        }
    }

    /// The next unread argument as it is written, without reading it; `None`
    /// at the end of the command line and inside an argument.
    pub fn peek(&mut self) -> (next: Option<String>)
        ensures
            final(self).unread() == old(self).unread(),
            final(self).options_ended() == old(self).options_ended(),
            final(self).mid_argument() == old(self).mid_argument(),
            match next {
                Some(arg) => !old(self).mid_argument() && old(self).unread().len() > 0 && arg@
                    == old(self).unread()[0],
                None => old(self).mid_argument() || old(self).unread().len() == 0,
            },
    {
        parser_peek(&mut self.parser)
    }

    /// Drops the next unread argument whole, whatever it looks like. At the
    /// end of the command line and inside an argument nothing is dropped.
    pub fn skip_argument(&mut self) -> (skipped: bool)
        ensures
            final(self).options_ended() == old(self).options_ended(),
            final(self).mid_argument() == old(self).mid_argument(),
            skipped == (!old(self).mid_argument() && old(self).unread().len() > 0),
            final(self).unread() == if skipped {
                old(self).unread().skip(1)
            } else {
                old(self).unread()
            },
    {
        parser_take_raw(&mut self.parser).is_some()
    }
}

/// Whether the next unread argument looks like an option, that is, starts
/// with a dash. The stream is left as it was.
pub fn next_arg_is_option(cmdline: &mut TokenStream) -> (option: bool)
    ensures
        final(cmdline).unread() == old(cmdline).unread(),
        final(cmdline).options_ended() == old(cmdline).options_ended(),
        final(cmdline).mid_argument() == old(cmdline).mid_argument(),
        option == (!old(cmdline).mid_argument() && old(cmdline).unread().len() > 0
            && is_option_like(old(cmdline).unread()[0])),
{
    match cmdline.peek() {
        Some(arg) => {
            let option = starts_with(arg.as_str(), "-");
            proof {
                reveal_strlit("-");
                if arg@.len() > 0 {
                    assert(arg@.subrange(0, 1)[0] == arg@[0]);
                    assert(is_option_like(arg@) ==> arg@.subrange(0, 1) =~= "-"@);
                }
            }
            option
        },
        None => false,
    }
}

} // verus!
