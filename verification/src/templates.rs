//! The text of the script, as templates for the template engine.
//!
//! `{{{name}}}` stands for a field of the data, `{{#if name}}` for a choice on
//! one. The script talks to the window manager through `workspace`, keeps the
//! window stack in `window_stack`, and writes every line through `print`,
//! behind the marker and the name of a channel.
//!
//! These, and the fragments of the action catalog, are all the templates there
//! are: [`Template`] names each of them, and the engine is handed no other.

use vstd::prelude::*;
use crate::actions::{fragment_of, Action};

verus! {

/// The prologue: announces the start of the run, defines the three writers of
/// the output protocol, and opens the function that holds the steps.
pub const SCRIPT_HEADER: &'static str = r#"
print("{{{marker}}} START");

function output_debug(message) {
    {{#if debug}}
    print("{{{marker}}} DEBUG", message);
    {{/if}}
}

function output_error(message) {
    print("{{{marker}}} ERROR", message);
}

function output_result(message) {
    print("{{{marker}}} RESULT", message);
}

function run() {
    var window_stack = [];
"#;

/// The epilogue: closes the function that holds the steps, runs it, and
/// announces the end of the run.
pub const SCRIPT_FOOTER: &'static str = r#"
}

run();

print("{{{marker}}} FINISH");
"#;

/// A search: fills the window stack with the windows whose title, class, name
/// and role match the term, all of them or, with `match_any`, any of them.
pub const STEP_SEARCH: &'static str = r#"
    output_debug("STEP search {{{search_term}}}")
    const re = new RegExp("{{{search_term}}}", "i");
    {{#if kde5}}
    t = workspace.clientList();
    {{else}}
    t = workspace.windowList();
    {{/if}}
    window_stack = [];
    for (var i=0; i<t.length; i++) {
        var w = t[i];
        var candidates = [w.caption, w.resourceClass, w.resourceName, w.windowRole,];
        output_debug(candidates)
        {{#if match_any}}
        for (var j=0; j<candidates.length; j++) {
            if (candidates[j].search(re) >= 0) {
                window_stack.push(w);
                break;
            }
        }
        {{else}}
        var mismatch = false;
        for (var j=0; j<candidates.length; j++) {
            if (candidates[j].search(re) < 0) {
                mismatch = true;
                break;
            }
        }
        if (!mismatch) {
            window_stack.push(w);
        }
        {{/if}}
    }
"#;

/// Puts the active window alone on the window stack.
pub const STEP_GETACTIVEWINDOW: &'static str = r#"
    output_debug("STEP getactivewindow")
    window_stack = [workspace.activeWindow];
"#;

/// An action on the first window with a given identity.
pub const STEP_ACTION_ON_WINDOW_ID: &'static str = r#"
    output_debug("STEP {{{step_name}}}")
    {{#if kde5}}
    t = workspace.clientList();
    {{else}}
    t = workspace.windowList();
    {{/if}}
    for (var i=0; i<t.length; i++) {
        var w = t[i];
        if (w.internalId == "{{{window_id}}}") {
            {{{action}}}
            break;
        }
    }
"#;

/// An action on one place of the window stack. An index outside the stack
/// is reported on the error channel, and the script goes on.
pub const STEP_ACTION_ON_STACK_ITEM: &'static str = r#"
    output_debug("STEP {{{step_name}}}")
    if (window_stack.length > 0) {
        if ({{{item_index}}} > window_stack.length || {{{item_index}}} < 1) {
            output_error("Invalid window stack selection '{{{item_index}}}' (out of range)");
        } else {
            var w = window_stack[{{{item_index}}}-1];
            {{{action}}}
        }
    }
"#;

/// An action on every window of the window stack.
pub const STEP_ACTION_ON_STACK_ALL: &'static str = r#"
    output_debug("STEP {{{step_name}}}")
    for (var i=0; i<window_stack.length; i++) {
        var w = window_stack[i];
        {{{action}}}
    }
"#;

/// The final output: one result line for each window of the stack.
pub const STEP_LAST_OUTPUT: &'static str = r#"
    for (var i = 0; i < window_stack.length; ++i) {
        output_result(window_stack[i].internalId);
    }
"#;

/// A template of the script, by name.
#[derive(Debug, Clone, Copy, PartialEq, Eq, Structural)]
pub enum Template {
    /// The prologue, [`SCRIPT_HEADER`].
    Header,
    /// The epilogue, [`SCRIPT_FOOTER`].
    Footer,
    /// [`STEP_SEARCH`].
    Search,
    /// [`STEP_GETACTIVEWINDOW`].
    GetActiveWindow,
    /// [`STEP_ACTION_ON_WINDOW_ID`].
    ActionOnWindowId,
    /// [`STEP_ACTION_ON_STACK_ITEM`].
    ActionOnStackItem,
    /// [`STEP_ACTION_ON_STACK_ALL`].
    ActionOnStackAll,
    /// The final output, [`STEP_LAST_OUTPUT`].
    LastOutput,
    /// The fragment of a verb of the catalog.
    Fragment(Action),
}

/// The text of a template.
pub open spec fn template_text(template: Template) -> Seq<char> {
    match template {
        Template::Header => SCRIPT_HEADER@,
        Template::Footer => SCRIPT_FOOTER@,
        Template::Search => STEP_SEARCH@,
        Template::GetActiveWindow => STEP_GETACTIVEWINDOW@,
        Template::ActionOnWindowId => STEP_ACTION_ON_WINDOW_ID@,
        Template::ActionOnStackItem => STEP_ACTION_ON_STACK_ITEM@,
        Template::ActionOnStackAll => STEP_ACTION_ON_STACK_ALL@,
        Template::LastOutput => STEP_LAST_OUTPUT@,
        Template::Fragment(verb) => fragment_of(verb),
    }
}

/// Whether a text is one of the templates of the script.
pub open spec fn is_script_template(text: Seq<char>) -> bool {
    exists|template: Template| text == #[trigger] template_text(template)
}

impl Template {
    /// The text of the template.
    pub fn text(self) -> (text: &'static str)
        ensures
            text@ == template_text(self),
            is_script_template(text@),
    {
        let text = match self {
            Template::Header => SCRIPT_HEADER,
            Template::Footer => SCRIPT_FOOTER,
            Template::Search => STEP_SEARCH,
            Template::GetActiveWindow => STEP_GETACTIVEWINDOW,
            Template::ActionOnWindowId => STEP_ACTION_ON_WINDOW_ID,
            Template::ActionOnStackItem => STEP_ACTION_ON_STACK_ITEM,
            Template::ActionOnStackAll => STEP_ACTION_ON_STACK_ALL,
            Template::LastOutput => STEP_LAST_OUTPUT,
            Template::Fragment(verb) => verb.fragment(),
        };
        assert(text@ == template_text(self));
        text
    }
}

} // verus!
