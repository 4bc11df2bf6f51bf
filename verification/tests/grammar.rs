use kdotool::actions::Action;
use kdotool::error::CompileError;
use kdotool::grammar::{parse, parse_intent, Intent};
use kdotool::selector::Selector;
use kdotool::tokens::TokenStream;

fn args(words: &[&str]) -> Vec<String> {
    words.iter().map(|w| w.to_string()).collect()
}

fn search(term: &str) -> Intent {
    Intent::Search { term: term.to_string() }
}

fn action(verb: Action, selector: Selector) -> Intent {
    Intent::Action { verb, selector }
}

#[test]
fn empty_command_line_has_no_intent() {
    assert_eq!(parse(&args(&[])), Ok(vec![]));
}

#[test]
fn search_then_action_on_first() {
    assert_eq!(
        parse(&args(&["search", "firefox", "getwindowname", "%1"])),
        Ok(vec![search("firefox"), action(Action::GetWindowName, Selector::StackIndex(1))])
    );
}

#[test]
fn search_alone() {
    assert_eq!(parse(&args(&["search", "firefox"])), Ok(vec![search("firefox")]));
}

#[test]
fn action_without_selector_targets_top_of_stack() {
    assert_eq!(
        parse(&args(&["windowclose"])),
        Ok(vec![action(Action::WindowClose, Selector::StackIndex(1))])
    );
}

#[test]
fn action_on_all() {
    assert_eq!(
        parse(&args(&["windowminimize", "%@"])),
        Ok(vec![action(Action::WindowMinimize, Selector::StackAll)])
    );
}

#[test]
fn action_on_window_id() {
    assert_eq!(
        parse(&args(&["windowactivate", "{1234}"])),
        Ok(vec![action(Action::WindowActivate, Selector::WindowId("{1234}".to_string()))])
    );
}

#[test]
fn unknown_command_is_named() {
    let outcome = parse(&args(&["foobar"]));
    assert_eq!(outcome, Err(CompileError::UnknownCommand("foobar".to_string())));
    assert_eq!(outcome.unwrap_err().message(), "Unknown command: foobar");
}

#[test]
fn unknown_command_after_good_ones_fails_the_whole() {
    assert_eq!(
        parse(&args(&["search", "firefox", "windowclose", "%1", "foobar"])),
        Err(CompileError::UnknownCommand("foobar".to_string()))
    );
}

#[test]
fn first_failure_is_reported() {
    assert_eq!(
        parse(&args(&["bogus", "search"])),
        Err(CompileError::UnknownCommand("bogus".to_string()))
    );
    assert_eq!(parse(&args(&["search", "x", "search"])), Err(CompileError::MissingSearchTerm));
}

#[test]
fn search_needs_a_term() {
    assert_eq!(parse(&args(&["search"])), Err(CompileError::MissingSearchTerm));
    assert_eq!(parse(&args(&["getactivewindow", "search"])), Err(CompileError::MissingSearchTerm));
}

#[test]
fn option_is_no_search_term() {
    assert_eq!(parse(&args(&["search", "-x"])), Err(CompileError::MissingSearchTerm));
    assert_eq!(parse(&args(&["search", "--name", "x"])), Err(CompileError::MissingSearchTerm));
    assert_eq!(parse(&args(&["search", "--"])), Err(CompileError::MissingSearchTerm));
}

#[test]
fn search_term_behind_double_dash_may_start_with_a_dash() {
    assert_eq!(parse(&args(&["search", "--", "-x"])), Ok(vec![search("-x")]));
    assert_eq!(parse(&args(&["search", "-"])), Ok(vec![search("-")]));
}

#[test]
fn search_term_may_be_a_verb() {
    assert_eq!(
        parse(&args(&["search", "search", "search", "windowclose"])),
        Ok(vec![search("search"), search("windowclose")])
    );
}

#[test]
fn option_is_no_command() {
    assert_eq!(parse(&args(&["-x"])), Err(CompileError::UnexpectedOption));
    assert_eq!(parse(&args(&["--debug", "search", "x"])), Err(CompileError::UnexpectedOption));
    assert_eq!(
        parse(&args(&["getactivewindow", "-x", "windowclose"])),
        Err(CompileError::UnexpectedOption)
    );
    assert_eq!(CompileError::UnexpectedOption.message(), "Unexpected option");
}

#[test]
fn getactivewindow_takes_no_operand() {
    assert_eq!(parse(&args(&["getactivewindow"])), Ok(vec![Intent::GetActiveWindow]));
    assert_eq!(
        parse(&args(&["getactivewindow", "getwindowpid"])),
        Ok(vec![Intent::GetActiveWindow, action(Action::GetWindowPid, Selector::StackIndex(1))])
    );
    assert_eq!(
        parse(&args(&["getactivewindow", "%1"])),
        Err(CompileError::UnknownCommand("%1".to_string()))
    );
}

#[test]
fn options_before_the_selector_are_passed_over() {
    assert_eq!(
        parse(&args(&["windowclose", "-x", "--sync", "%2"])),
        Ok(vec![action(Action::WindowClose, Selector::StackIndex(2))])
    );
    assert_eq!(
        parse(&args(&["windowclose", "--sync"])),
        Ok(vec![action(Action::WindowClose, Selector::StackIndex(1))])
    );
    assert_eq!(
        parse(&args(&["windowclose", "-", "--", "-abc", "--a=b", "%@"])),
        Ok(vec![action(Action::WindowClose, Selector::StackAll)])
    );
}

#[test]
fn value_behind_a_verb_is_its_selector() {
    assert_eq!(
        parse(&args(&["windowraise", "windowclose"])),
        Ok(vec![action(Action::WindowRaise, Selector::WindowId("windowclose".to_string()))])
    );
    assert_eq!(
        parse(&args(&["windowraise", "%1", "windowclose"])),
        Ok(vec![
            action(Action::WindowRaise, Selector::StackIndex(1)),
            action(Action::WindowClose, Selector::StackIndex(1)),
        ])
    );
}

#[test]
fn bad_selector_fails() {
    assert_eq!(
        parse(&args(&["search", "x", "windowclose", "%abc"])),
        Err(CompileError::InvalidSelector("%abc".to_string()))
    );
    assert_eq!(
        CompileError::InvalidSelector("%abc".to_string()).message(),
        "Invalid window selector: %abc"
    );
}

#[test]
fn stack_index_out_of_any_stack_still_parses() {
    assert_eq!(
        parse(&args(&["windowclose", "%0", "windowkill", "%1000000"])),
        Ok(vec![
            action(Action::WindowClose, Selector::StackIndex(0)),
            action(Action::WindowKill, Selector::StackIndex(1000000)),
        ])
    );
}

#[test]
fn verbs_are_spelled_exactly() {
    assert_eq!(
        parse(&args(&["Search", "x"])),
        Err(CompileError::UnknownCommand("Search".to_string()))
    );
    assert_eq!(
        parse(&args(&["windowClose"])),
        Err(CompileError::UnknownCommand("windowClose".to_string()))
    );
}

#[test]
fn every_verb_of_the_catalog_is_a_command() {
    let verbs = [
        ("getwindowname", Action::GetWindowName),
        ("getwindowclassname", Action::GetWindowClassName),
        ("getwindowgeometry", Action::GetWindowGeometry),
        ("getwindowpid", Action::GetWindowPid),
        ("windowminimize", Action::WindowMinimize),
        ("windowraise", Action::WindowRaise),
        ("windowclose", Action::WindowClose),
        ("windowkill", Action::WindowKill),
        ("windowactivate", Action::WindowActivate),
    ];
    for (word, verb) in verbs {
        assert_eq!(parse(&args(&[word, "%3"])), Ok(vec![action(verb, Selector::StackIndex(3))]));
    }
}

#[test]
fn intents_are_read_one_at_a_time() {
    let mut stream = TokenStream::new(&args(&["search", "a b", "windowkill", "%@", "nope"]));
    assert_eq!(parse_intent(&mut stream), Ok(Some(search("a b"))));
    assert_eq!(parse_intent(&mut stream), Ok(Some(action(Action::WindowKill, Selector::StackAll))));
    assert_eq!(parse_intent(&mut stream), Err(CompileError::UnknownCommand("nope".to_string())));
}

#[test]
fn end_of_stream_is_no_intent() {
    let mut stream = TokenStream::new(&args(&["getactivewindow"]));
    assert_eq!(parse_intent(&mut stream), Ok(Some(Intent::GetActiveWindow)));
    assert_eq!(parse_intent(&mut stream), Ok(None));
    assert_eq!(parse_intent(&mut stream), Ok(None));
}

#[test]
fn queries_are_search_and_getactivewindow() {
    assert!(search("x").is_query());
    assert!(Intent::GetActiveWindow.is_query());
    assert!(!action(Action::GetWindowName, Selector::StackAll).is_query());
}

#[test]
fn messages_of_the_errors() {
    assert_eq!(CompileError::MissingSearchTerm.message(), "Missing search term");
    assert_eq!(CompileError::MalformedArgument.message(), "Malformed argument");
    assert_eq!(CompileError::Render.message(), "Script template could not be rendered");
}
