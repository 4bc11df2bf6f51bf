//! The lowering engine: from command intents to the steps of the script.
//!
//! Each intent becomes one step, in order. When the last intent is a query,
//! one more step follows, which writes out the window stack that the query
//! left.

use vstd::prelude::*;
use crate::actions::Action;
use crate::grammar::{is_query, Command, Intent};
use crate::selector::{Selector, Target};

verus! {

/// One unit of script logic.
#[derive(Debug, Clone, PartialEq, Eq)]
pub enum Step {
    /// Replace the window stack with the windows that match `term`, in the
    /// order in which the window manager lists them. With `match_any` a
    /// window needs one matching field, without it every field must match.
    Search { term: String, match_any: bool },
    /// Replace the window stack with the active window alone.
    GetActiveWindow,
    /// Carry `verb` out on the first window whose identity is `id`.
    ActionOnId { verb: Action, id: String },
    /// Carry `verb` out on the window at place `index` of the stack, counted
    /// from 1; the running script reports an index that is out of range.
    ActionOnStackItem { verb: Action, index: i32 },
    /// Carry `verb` out on every window of the stack, in order.
    ActionOnStackAll { verb: Action },
    /// Write out the identity of every window of the stack, in order.
    FinalOutput,
}

/// A [`Step`] with its text as character sequences.
pub enum Unit {
    Search { term: Seq<char>, match_any: bool },
    GetActiveWindow,
    ActionOnId { verb: Action, id: Seq<char> },
    ActionOnStackItem { verb: Action, index: int },
    ActionOnStackAll { verb: Action },
    FinalOutput,
}

impl View for Step {
    type V = Unit;

    open spec fn view(&self) -> Unit {
        match self {
            Step::Search { term, match_any } => Unit::Search { term: term@, match_any: *match_any },
            Step::GetActiveWindow => Unit::GetActiveWindow,
            Step::ActionOnId { verb, id } => Unit::ActionOnId { verb: *verb, id: id@ },
            Step::ActionOnStackItem { verb, index } => Unit::ActionOnStackItem {
                verb: *verb,
                index: *index as int,
            },
            Step::ActionOnStackAll { verb } => Unit::ActionOnStackAll { verb: *verb },
            Step::FinalOutput => Unit::FinalOutput,
        }
    }
}

impl DeepView for Step {
    type V = Unit;

    open spec fn deep_view(&self) -> Unit {
        self@
    }
}

/// The step that carries a command out. A search asks for every field of a
/// window to match.
pub open spec fn step_for(command: Command) -> Unit {
    match command {
        Command::Search { term } => Unit::Search { term, match_any: false },
        Command::GetActiveWindow => Unit::GetActiveWindow,
        Command::Action { verb, target } => match target {
            Target::WindowId(id) => Unit::ActionOnId { verb, id },
            Target::StackIndex(index) => Unit::ActionOnStackItem { verb, index },
            Target::StackAll => Unit::ActionOnStackAll { verb },
        },
    }
}

/// Whether the last of the commands is a query.
pub open spec fn ends_with_query(commands: Seq<Command>) -> bool {
    commands.len() > 0 && is_query(commands.last())
}

/// The steps of a row of commands: one for each, and the final output behind
/// them when the last command is a query.
pub open spec fn lowered(commands: Seq<Command>) -> Seq<Unit> {
    let steps = commands.map_values(|command: Command| step_for(command));
    if ends_with_query(commands) {
        steps.push(Unit::FinalOutput)
    } else {
        steps
    }
}

/// Lowers one intent to its step.
pub fn lower_intent(intent: &Intent) -> (step: Step)
    ensures
        step@ == step_for(intent@),
{
    match intent {
        Intent::Search { term } => Step::Search { term: term.clone(), match_any: false },
        Intent::GetActiveWindow => Step::GetActiveWindow,
        Intent::Action { verb, selector } => match selector {
            Selector::WindowId(id) => Step::ActionOnId { verb: *verb, id: id.clone() },
            Selector::StackIndex(index) => Step::ActionOnStackItem { verb: *verb, index: *index },
            Selector::StackAll => Step::ActionOnStackAll { verb: *verb },
        },
    }
}

/// Lowers a row of intents to the steps of the script.
pub fn lower(intents: &Vec<Intent>) -> (steps: Vec<Step>)
    ensures
        steps.deep_view() == lowered(intents.deep_view()),
{
    let ghost commands = intents.deep_view();
    let mut steps: Vec<Step> = Vec::new();
    let mut last_step_is_query: bool = false;
    let mut i: usize = 0;
    while i < intents.len()
        invariant
            i <= intents.len(),
            commands == intents.deep_view(),
            steps.deep_view() == commands.take(i as int).map_values(
                |command: Command| step_for(command),
            ),
            last_step_is_query == ends_with_query(commands.take(i as int)),
        decreases intents.len() - i,
    {
        let ghost before = steps.deep_view();
        let step = lower_intent(&intents[i]);
        last_step_is_query = intents[i].is_query();
        steps.push(step);
        i += 1;
        assert(steps.deep_view() =~= before.push(step@));
    }
    if last_step_is_query {
        let ghost before = steps.deep_view();
        steps.push(Step::FinalOutput);
        assert(steps.deep_view() =~= before.push(Unit::FinalOutput));
    }
    steps
}

/// There is one step for each command, the same place holding the step of the
/// command at that place, and one more when, and only when, the last command
/// is a query.
pub proof fn lemma_one_step_per_command(commands: Seq<Command>)
    ensures
        lowered(commands).len() == commands.len() + if ends_with_query(commands) {
            1int
        } else {
            0int
        },
        forall|i: int| 0 <= i < commands.len() ==> lowered(commands)[i] == step_for(commands[i]),
{
}

/// The final output is the last step exactly when the last command is a
/// search or asks for the active window. It stands nowhere else: no step
/// before the last is the final output, so there is at most one.
pub proof fn lemma_final_output_follows_query(commands: Seq<Command>)
    ensures
        ({
            let steps = lowered(commands);
            &&& (steps.len() > 0 && steps.last() is FinalOutput) <==> (commands.len() > 0 && (
            commands.last() is Search || commands.last() is GetActiveWindow))
            &&& forall|i: int| 0 <= i < steps.len() - 1 ==> !(#[trigger] steps[i] is FinalOutput)
            &&& forall|i: int|
                0 <= i < steps.len() && #[trigger] steps[i] is FinalOutput ==> i == commands.len()
        }),
{
    lemma_one_step_per_command(commands);
}

} // verus!
