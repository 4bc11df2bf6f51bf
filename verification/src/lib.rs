//! Compiles a row of window-management commands into one script for the
//! window manager's scripting host, and reads back the lines that the script
//! writes to the host's log.
//!
//! The commands work on a window stack. A query (`search`, `getactivewindow`)
//! replaces the stack; an action (`windowclose`, `getwindowname`, ...) is
//! carried out on windows of the stack or on a window named by its identity.
//! [`generate_script`] turns a command line into script text;
//! [`protocol::forward_log`] picks from the log what the script has to say.

use vstd::prelude::*;
use crate::error::{CompileError, Failure};
use crate::grammar::{parse, parse_commands};
use crate::lowering::{lower, lowered};
use crate::render::{render_script, script_text, Context, Settings};
use crate::text::str_eq;

pub mod actions;
pub mod error;
pub mod grammar;
pub mod lowering;
pub mod protocol;
pub mod render;
pub mod selector;
pub mod templates;
pub mod text;
pub mod tokens;

verus! {

/// What compiling a command line comes to: its commands are parsed, lowered
/// to steps and rendered between prologue and epilogue. The first thing that
/// is no command fails the whole, and so does a template that the engine
/// refuses.
pub open spec fn compiled(args: Seq<Seq<char>>, settings: Settings) -> Result<Seq<char>, Failure> {
    match parse_commands(args, false) {
        Ok(commands) => match script_text(lowered(commands), settings) {
            Some(text) => Ok(text),
            None => Err(Failure::Render),
        },
        Err(failure) => Err(failure),
    }
}

/// The view of the outcome of a compilation.
pub open spec fn script_outcome(outcome: Result<String, CompileError>) -> Result<
    Seq<char>,
    Failure,
> {
    match outcome {
        Ok(script) => Ok(script@),
        Err(error) => Err(error@),
    }
}

/// Compiles a command line, given without the program's name and without the
/// program's own options, into the text of one script. On a failure there is
/// no script, not even a part of one.
pub fn generate_script(args: &Vec<String>, context: &Context) -> (outcome: Result<
    String,
    CompileError,
>)
    ensures
        script_outcome(outcome) == compiled(args.deep_view(), context@),
{
    let intents = match parse(args) {
        Ok(intents) => intents,
        Err(error) => {
            return Err(error);
        },
    };
    let steps = lower(&intents);
    render_script(&steps, context)
}

/// Whether a desktop session of this version is one of version 5.
pub fn is_kde5_session(version: &str) -> (kde5: bool)
    ensures
        kde5 == (version@ == "5"@),
{
    str_eq(version, "5")
}

/// Compiling the same command line with the same marker and flags gives the
/// same outcome every time: the same script, character for character, or the
/// same failure.
pub proof fn lemma_compiling_twice_gives_the_same(
    args: Seq<Seq<char>>,
    settings: Settings,
    first: Result<String, CompileError>,
    second: Result<String, CompileError>,
)
    requires
        script_outcome(first) == compiled(args, settings),
        script_outcome(second) == compiled(args, settings),
    ensures
        script_outcome(first) == script_outcome(second),
        first matches Ok(script) ==> second matches Ok(again) && script@ == again@,
{
}

} // verus!
