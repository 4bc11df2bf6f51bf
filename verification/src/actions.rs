//! The action registry: the fixed table from a verb to the script fragment
//! that carries it out on one window, `w`.

use vstd::prelude::*;
use crate::text::str_eq;

verus! {

/// A verb of the catalog.
#[derive(Debug, Clone, Copy, PartialEq, Eq, Structural)]
pub enum Action {
    GetWindowName,
    GetWindowClassName,
    GetWindowGeometry,
    GetWindowPid,
    WindowMinimize,
    WindowRaise,
    WindowClose,
    WindowKill,
    WindowActivate,
}

/// The verb as it is written on the command line.
pub open spec fn name_of(action: Action) -> Seq<char> {
    match action {
        Action::GetWindowName => "getwindowname"@,
        Action::GetWindowClassName => "getwindowclassname"@,
        Action::GetWindowGeometry => "getwindowgeometry"@,
        Action::GetWindowPid => "getwindowpid"@,
        Action::WindowMinimize => "windowminimize"@,
        Action::WindowRaise => "windowraise"@,
        Action::WindowClose => "windowclose"@,
        Action::WindowKill => "windowkill"@,
        Action::WindowActivate => "windowactivate"@,
    }
}

/// The script fragment of a verb.
pub open spec fn fragment_of(action: Action) -> Seq<char> {
    match action {
        Action::GetWindowName => "output_result(w.caption);"@,
        Action::GetWindowClassName => "output_result(w.resourceClass);"@,
        Action::GetWindowGeometry =>
            "output_result(`Window ${w.internalId}`); output_result(`  Position: ${w.x},${w.y}`); output_result(`  Geometry: ${w.width}x${w.height}`);"@,
        Action::GetWindowPid => "output_result(w.pid);"@,
        Action::WindowMinimize => "w.minimized = true;"@,
        Action::WindowRaise => "workspace.raiseWindow(w);"@,
        Action::WindowClose => "w.closeWindow();"@,
        Action::WindowKill => "w.killWindow();"@,
        Action::WindowActivate => "workspace.setActiveWindow(w);"@,
    }
}

/// Whether a verb is a query: it writes results and changes nothing. The
/// others change one thing about the window and write nothing.
pub open spec fn is_query_action(action: Action) -> bool {
    action is GetWindowName || action is GetWindowClassName || action is GetWindowGeometry
        || action is GetWindowPid
}

/// The verb that is written exactly as `word`, if there is one.
pub open spec fn action_named(word: Seq<char>) -> Option<Action> {
    if word == "getwindowname"@ {
        Some(Action::GetWindowName)
    } else if word == "getwindowclassname"@ {
        Some(Action::GetWindowClassName)
    } else if word == "getwindowgeometry"@ {
        Some(Action::GetWindowGeometry)
    } else if word == "getwindowpid"@ {
        Some(Action::GetWindowPid)
    } else if word == "windowminimize"@ {
        Some(Action::WindowMinimize)
    } else if word == "windowraise"@ {
        Some(Action::WindowRaise)
    } else if word == "windowclose"@ {
        Some(Action::WindowClose)
    } else if word == "windowkill"@ {
        Some(Action::WindowKill)
    } else if word == "windowactivate"@ {
        Some(Action::WindowActivate)
    } else {
        None
    }
}

impl Action {
    /// The verb as it is written on the command line.
    pub fn name(self) -> (name: &'static str)
        ensures
            name@ == name_of(self),
    {
        match self {
            Action::GetWindowName => "getwindowname",
            Action::GetWindowClassName => "getwindowclassname",
            Action::GetWindowGeometry => "getwindowgeometry",
            Action::GetWindowPid => "getwindowpid",
            Action::WindowMinimize => "windowminimize",
            Action::WindowRaise => "windowraise",
            Action::WindowClose => "windowclose",
            Action::WindowKill => "windowkill",
            Action::WindowActivate => "windowactivate",
        }
    }

    /// The script fragment that carries the verb out on the window `w`.
    pub fn fragment(self) -> (fragment: &'static str)
        ensures
            fragment@ == fragment_of(self),
    {
        match self {
            Action::GetWindowName => "output_result(w.caption);",
            Action::GetWindowClassName => "output_result(w.resourceClass);",
            Action::GetWindowGeometry =>
                "output_result(`Window ${w.internalId}`); output_result(`  Position: ${w.x},${w.y}`); output_result(`  Geometry: ${w.width}x${w.height}`);",
            Action::GetWindowPid => "output_result(w.pid);",
            Action::WindowMinimize => "w.minimized = true;",
            Action::WindowRaise => "workspace.raiseWindow(w);",
            Action::WindowClose => "w.closeWindow();",
            Action::WindowKill => "w.killWindow();",
            Action::WindowActivate => "workspace.setActiveWindow(w);",
        }
    }

    /// Whether the verb is a query.
    pub fn is_query(self) -> (query: bool)
        ensures
            query == is_query_action(self),
    {
        match self {
            Action::GetWindowName
            | Action::GetWindowClassName
            | Action::GetWindowGeometry
            | Action::GetWindowPid => true,
            _ => false,
        }
    }
}

/// Looks a verb up by its exact spelling.
pub fn lookup(word: &str) -> (found: Option<Action>)
    ensures
        found == action_named(word@),
{
    if str_eq(word, "getwindowname") {
        Some(Action::GetWindowName)
    } else if str_eq(word, "getwindowclassname") {
        Some(Action::GetWindowClassName)
    } else if str_eq(word, "getwindowgeometry") {
        Some(Action::GetWindowGeometry)
    } else if str_eq(word, "getwindowpid") {
        Some(Action::GetWindowPid)
    } else if str_eq(word, "windowminimize") {
        Some(Action::WindowMinimize)
    } else if str_eq(word, "windowraise") {
        Some(Action::WindowRaise)
    } else if str_eq(word, "windowclose") {
        Some(Action::WindowClose)
    } else if str_eq(word, "windowkill") {
        Some(Action::WindowKill)
    } else if str_eq(word, "windowactivate") {
        Some(Action::WindowActivate)
    } else {
        None
    }
}

/// The table is keyed by spelling: a word names a verb exactly when it is that
/// verb's name, so every verb is found under its own name and under no other.
pub proof fn lemma_lookup_is_exact(word: Seq<char>, action: Action)
    ensures
        action_named(word) == Some(action) <==> word == name_of(action),
{
    reveal_strlit("getwindowname");
    reveal_strlit("getwindowclassname");
    reveal_strlit("getwindowgeometry");
    reveal_strlit("getwindowpid");
    reveal_strlit("windowminimize");
    reveal_strlit("windowraise");
    reveal_strlit("windowclose");
    reveal_strlit("windowkill");
    reveal_strlit("windowactivate");
    // Names of one length differ in their seventh or their tenth character.
    if action_named(word) is Some && word.len() == name_of(action).len() {
        assert(word == name_of(action) || word[6] != name_of(action)[6] || word[9] != name_of(
            action,
        )[9]);
    }
}

} // verus!
