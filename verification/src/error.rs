//! Why a command line is not compiled.

use vstd::prelude::*;
use vstd::string::*;

verus! {

/// A command line that cannot be compiled. Every one of these is fatal: no
/// script text comes out beside it.
#[derive(Debug, Clone, PartialEq, Eq)]
pub enum CompileError {
    /// An option stands where a command was expected.
    UnexpectedOption,
    /// `search` is followed by no value to search for.
    MissingSearchTerm,
    /// The word is no command; it is kept as written.
    UnknownCommand(String),
    /// The selector starts with `%` and is neither `%@` nor `%` and a number.
    InvalidSelector(String),
    /// The lexer gave up on an argument.
    MalformedArgument,
    /// The template engine refused one of the script's templates. Nothing is
    /// proved of the engine, so nothing here rules this out.
    Render,
}

/// A [`CompileError`] with its text as a character sequence.
pub enum Failure {
    UnexpectedOption,
    MissingSearchTerm,
    UnknownCommand(Seq<char>),
    InvalidSelector(Seq<char>),
    MalformedArgument,
    Render,
}

impl View for CompileError {
    type V = Failure;

    open spec fn view(&self) -> Failure {
        match self {
            CompileError::UnexpectedOption => Failure::UnexpectedOption,
            CompileError::MissingSearchTerm => Failure::MissingSearchTerm,
            CompileError::UnknownCommand(word) => Failure::UnknownCommand(word@),
            CompileError::InvalidSelector(text) => Failure::InvalidSelector(text@),
            CompileError::MalformedArgument => Failure::MalformedArgument,
            CompileError::Render => Failure::Render,
        }
    }
}

/// The sentence that reports a failure.
pub open spec fn message_of(failure: Failure) -> Seq<char> {
    match failure {
        Failure::UnexpectedOption => "Unexpected option"@,
        Failure::MissingSearchTerm => "Missing search term"@,
        Failure::UnknownCommand(word) => "Unknown command: "@ + word,
        Failure::InvalidSelector(text) => "Invalid window selector: "@ + text,
        Failure::MalformedArgument => "Malformed argument"@,
        Failure::Render => "Script template could not be rendered"@,
    }
}

impl CompileError {
    /// The sentence that reports this error; an unknown command and a bad
    /// selector are named in it as they were written.
    pub fn message(&self) -> (text: String)
        ensures
            text@ == message_of(self@),
    {
        match self {
            CompileError::UnexpectedOption => String::from_str("Unexpected option"),
            CompileError::MissingSearchTerm => String::from_str("Missing search term"),
            CompileError::UnknownCommand(word) => String::from_str("Unknown command: ").concat(
                word.as_str(),
            ),
            CompileError::InvalidSelector(text) => String::from_str(
                "Invalid window selector: ",
            ).concat(text.as_str()),
            CompileError::MalformedArgument => String::from_str("Malformed argument"),
            CompileError::Render => String::from_str("Script template could not be rendered"),
        }
    }
}

} // verus!
