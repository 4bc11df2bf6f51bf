//! Rendering: from steps to script text, through the template engine.
//!
//! The engine is `handlebars`. What it makes of a template and its data is a
//! function of the two and nothing else, too long to write down here. So the
//! result has a name, [`rendered`], and every contract below says which
//! template and which data the text came from.
//!
//! The engine is handed the templates of this crate and no other. A template
//! can define a partial that includes itself, and on such a one the engine
//! does not come back; the templates here define no partial at all.

use vstd::prelude::*;
use vstd::string::*;
use crate::actions::{fragment_of, name_of, Action};
use crate::error::CompileError;
use crate::lowering::{Step, Unit};
use crate::templates::{
    is_script_template,
    template_text,
    Template,
    SCRIPT_FOOTER,
    SCRIPT_HEADER,
    STEP_ACTION_ON_STACK_ALL,
    STEP_ACTION_ON_STACK_ITEM,
    STEP_ACTION_ON_WINDOW_ID,
    STEP_GETACTIVEWINDOW,
    STEP_LAST_OUTPUT,
    STEP_SEARCH,
};

verus! {

/// What is fixed before compilation and changes the text of the script.
#[derive(Debug, Clone, PartialEq, Eq)]
pub struct Context {
    /// Whether the script traces its steps on the debug channel.
    pub debug: bool,
    /// Whether the script is for version 5 of the desktop, which lists its
    /// windows by another call.
    pub kde5: bool,
    /// The marker that starts every line the script writes.
    pub marker: String,
}

/// A [`Context`] with its marker as a character sequence.
pub struct Settings {
    pub debug: bool,
    pub kde5: bool,
    pub marker: Seq<char>,
}

impl View for Context {
    type V = Settings;

    open spec fn view(&self) -> Settings {
        Settings { debug: self.debug, kde5: self.kde5, marker: self.marker@ }
    }
}

/// The data of a template: named fields that hold text, a flag or a number.
#[derive(Debug, Clone, PartialEq, Eq)]
pub struct TemplateData {
    pub texts: Vec<(String, String)>,
    pub flags: Vec<(String, bool)>,
    pub numbers: Vec<(String, i32)>,
}

/// A [`TemplateData`] as sequences of names and values.
pub struct Fields {
    pub texts: Seq<(Seq<char>, Seq<char>)>,
    pub flags: Seq<(Seq<char>, bool)>,
    pub numbers: Seq<(Seq<char>, int)>,
}

impl View for TemplateData {
    type V = Fields;

    open spec fn view(&self) -> Fields {
        Fields {
            texts: self.texts@.map_values(|field: (String, String)| (field.0@, field.1@)),
            flags: self.flags@.map_values(|field: (String, bool)| (field.0@, field.1)),
            numbers: self.numbers@.map_values(|field: (String, i32)| (field.0@, field.1 as int)),
        }
    }
}

impl Fields {
    /// No field at all.
    pub open spec fn empty() -> Fields {
        Fields { texts: Seq::empty(), flags: Seq::empty(), numbers: Seq::empty() }
    }

    /// These fields and one more that holds text.
    pub open spec fn text(self, name: Seq<char>, text: Seq<char>) -> Fields {
        Fields { texts: self.texts.push((name, text)), ..self }
    }

    /// These fields and one more that holds a flag.
    pub open spec fn flag(self, name: Seq<char>, flag: bool) -> Fields {
        Fields { flags: self.flags.push((name, flag)), ..self }
    }

    /// These fields and one more that holds a number.
    pub open spec fn number(self, name: Seq<char>, number: int) -> Fields {
        Fields { numbers: self.numbers.push((name, number)), ..self }
    }
}

impl TemplateData {
    /// Data without any field.
    pub fn new() -> (data: TemplateData)
        ensures
            data@ == Fields::empty(),
    {
        let data = TemplateData { texts: Vec::new(), flags: Vec::new(), numbers: Vec::new() };
        assert(data@.texts =~= Seq::empty());
        assert(data@.flags =~= Seq::empty());
        assert(data@.numbers =~= Seq::empty());
        data
    }

    /// Adds a field that holds text.
    pub fn text(&mut self, name: &str, text: &str)
        ensures
            final(self)@ == old(self)@.text(name@, text@),
    {
        self.texts.push((String::from_str(name), String::from_str(text)));
        assert(self@.texts =~= old(self)@.texts.push((name@, text@)));
    }

    /// Adds a field that holds a flag.
    pub fn flag(&mut self, name: &str, flag: bool)
        ensures
            final(self)@ == old(self)@.flag(name@, flag),
    {
        self.flags.push((String::from_str(name), flag));
        assert(self@.flags =~= old(self)@.flags.push((name@, flag)));
    }

    /// Adds a field that holds a number.
    pub fn number(&mut self, name: &str, number: i32)
        ensures
            final(self)@ == old(self)@.number(name@, number as int),
    {
        self.numbers.push((String::from_str(name), number));
        assert(self@.numbers =~= old(self)@.numbers.push((name@, number as int)));
    }
}

/// `handlebars::RenderError`, the engine's refusal. Nothing is read from it.
#[verifier::external_type_specification]
#[verifier::external_body]
pub struct ExRenderError(handlebars::RenderError);

/// The text that the template engine makes of `template`, given as its data
/// one object that holds the text fields, then the flags, then the numbers,
/// each under its name; `None` where the engine refuses.
pub uninterp spec fn rendered(
    template: Seq<char>,
    texts: Seq<(Seq<char>, Seq<char>)>,
    flags: Seq<(Seq<char>, bool)>,
    numbers: Seq<(Seq<char>, int)>,
) -> Option<Seq<char>>;

/// `handlebars::Handlebars::render_template`, on a registry fresh from
/// `Handlebars::new`, with a `serde_json::Map` as data that holds the fields
/// of `data` under their names: the texts, then the flags, then the numbers.
/// Nothing is proved of the engine. The contract claims one thing: that the
/// outcome depends on the template and the fields alone, so that it can be
/// called [`rendered`] of them, `None` standing for the engine's refusal.
///
/// The call is for the templates of the script only. The engine expands a
/// partial that includes itself without end; those templates define none and
/// include none, whatever the data.
#[verifier::external_body]
fn render_template(template: &str, data: &TemplateData) -> (outcome: Result<
    String,
    handlebars::RenderError,
>)
    requires
        is_script_template(template@),
    ensures
        match outcome {
            Ok(text) => rendered(template@, data@.texts, data@.flags, data@.numbers) == Some(
                text@,
            ),
            Err(_) => rendered(template@, data@.texts, data@.flags, data@.numbers) is None,
        },
{
    let texts = data.texts.iter().map(|(name, text)| (name.clone(), text.as_str().into()));
    let flags = data.flags.iter().map(|(name, flag)| (name.clone(), (*flag).into()));
    let numbers = data.numbers.iter().map(|(name, number)| (name.clone(), (*number).into()));
    let object: serde_json::Map<String, serde_json::Value> =
        texts.chain(flags).chain(numbers).collect();
    handlebars::Handlebars::new().render_template(template, &object)
}

/// What the engine makes of `template` with `fields`.
pub open spec fn render_of(template: Seq<char>, fields: Fields) -> Option<Seq<char>> {
    rendered(template, fields.texts, fields.flags, fields.numbers)
}

/// The view of the outcome of a rendering.
pub open spec fn text_outcome(outcome: Result<String, CompileError>) -> Option<Seq<char>> {
    match outcome {
        Ok(text) => Some(text@),
        Err(_) => None,
    }
}

/// Renders one of the templates of the script with `data`. The only failure
/// is `Render`.
pub fn render(template: Template, data: &TemplateData) -> (outcome: Result<String, CompileError>)
    ensures
        text_outcome(outcome) == render_of(template_text(template), data@),
        outcome matches Err(error) ==> error == CompileError::Render,
{
    match render_template(template.text(), data) {
        Ok(text) => Ok(text),
        Err(_) => Err(CompileError::Render),
    }
}

/// The fields that every template is given: the marker and the two flags of
/// the context.
pub open spec fn context_fields(settings: Settings) -> Fields {
    Fields::empty().text("marker"@, settings.marker).flag("debug"@, settings.debug).flag(
        "kde5"@,
        settings.kde5,
    )
}

/// The fields of a step that carries out `verb`, where `action` is the text
/// of the verb's fragment.
pub open spec fn action_fields(settings: Settings, verb: Action, action: Seq<char>) -> Fields {
    context_fields(settings).text("step_name"@, name_of(verb)).text("action"@, action)
}

/// The text of a verb's fragment. The fragment goes through the engine like
/// every other piece of the script.
pub open spec fn fragment_text(verb: Action, settings: Settings) -> Option<Seq<char>> {
    render_of(fragment_of(verb), context_fields(settings))
}

/// The text of one step.
pub open spec fn unit_text(unit: Unit, settings: Settings) -> Option<Seq<char>> {
    match unit {
        Unit::Search { term, match_any } => render_of(
            STEP_SEARCH@,
            context_fields(settings).text("search_term"@, term).flag("match_any"@, match_any),
        ),
        Unit::GetActiveWindow => render_of(STEP_GETACTIVEWINDOW@, context_fields(settings)),
        Unit::ActionOnId { verb, id } => match fragment_text(verb, settings) {
            Some(action) => render_of(
                STEP_ACTION_ON_WINDOW_ID@,
                action_fields(settings, verb, action).text("window_id"@, id),
            ),
            None => None,
        },
        Unit::ActionOnStackItem { verb, index } => match fragment_text(verb, settings) {
            Some(action) => render_of(
                STEP_ACTION_ON_STACK_ITEM@,
                action_fields(settings, verb, action).number("item_index"@, index),
            ),
            None => None,
        },
        Unit::ActionOnStackAll { verb } => match fragment_text(verb, settings) {
            Some(action) => render_of(
                STEP_ACTION_ON_STACK_ALL@,
                action_fields(settings, verb, action),
            ),
            None => None,
        },
        Unit::FinalOutput => render_of(STEP_LAST_OUTPUT@, context_fields(settings)),
    }
}

/// The texts of a row of steps, in order; `None` where one has none.
pub open spec fn units_text(units: Seq<Unit>, settings: Settings) -> Option<Seq<Seq<char>>>
    decreases units.len(),
{
    if units.len() == 0 {
        Some(Seq::empty())
    } else {
        match (units_text(units.drop_last(), settings), unit_text(units.last(), settings)) {
            (Some(texts), Some(text)) => Some(texts.push(text)),
            _ => None,
        }
    }
}

/// The parts one behind the other.
pub open spec fn joined(parts: Seq<Seq<char>>) -> Seq<char>
    decreases parts.len(),
{
    if parts.len() == 0 {
        Seq::empty()
    } else {
        joined(parts.drop_last()) + parts.last()
    }
}

/// The text of the script: the prologue, the steps in order, the epilogue.
pub open spec fn script_text(units: Seq<Unit>, settings: Settings) -> Option<Seq<char>> {
    match (
        render_of(SCRIPT_HEADER@, context_fields(settings)),
        units_text(units, settings),
        render_of(SCRIPT_FOOTER@, context_fields(settings)),
    ) {
        (Some(header), Some(texts), Some(footer)) => Some(header + joined(texts) + footer),
        _ => None,
    }
}

/// The data that every template is given.
pub fn context_data(context: &Context) -> (data: TemplateData)
    ensures
        data@ == context_fields(context@),
{
    let mut data = TemplateData::new();
    data.text("marker", context.marker.as_str());
    data.flag("debug", context.debug);
    data.flag("kde5", context.kde5);
    data
}

/// The data of a step that carries out `verb`, given the text of the verb's
/// fragment.
pub fn action_data(context: &Context, verb: Action, action: &str) -> (data: TemplateData)
    ensures
        data@ == action_fields(context@, verb, action@),
{
    let mut data = context_data(context);
    data.text("step_name", verb.name());
    data.text("action", action);
    data
}

/// Renders one step.
pub fn render_step(step: &Step, context: &Context) -> (outcome: Result<String, CompileError>)
    ensures
        text_outcome(outcome) == unit_text(step@, context@),
        outcome matches Err(error) ==> error == CompileError::Render,
{
    match step {
        Step::Search { term, match_any } => {
            let mut data = context_data(context);
            data.text("search_term", term.as_str());
            data.flag("match_any", *match_any);
            render(Template::Search, &data)
        },
        Step::GetActiveWindow => render(Template::GetActiveWindow, &context_data(context)),
        Step::ActionOnId { verb, id } => {
            let action = render(Template::Fragment(*verb), &context_data(context))?;
            let mut data = action_data(context, *verb, action.as_str());
            data.text("window_id", id.as_str());
            render(Template::ActionOnWindowId, &data)
        },
        Step::ActionOnStackItem { verb, index } => {
            let action = render(Template::Fragment(*verb), &context_data(context))?;
            let mut data = action_data(context, *verb, action.as_str());
            data.number("item_index", *index);
            render(Template::ActionOnStackItem, &data)
        },
        Step::ActionOnStackAll { verb } => {
            let action = render(Template::Fragment(*verb), &context_data(context))?;
            render(
                Template::ActionOnStackAll,
                &action_data(context, *verb, action.as_str()),
            )
        },
        Step::FinalOutput => render(Template::LastOutput, &context_data(context)),
    }
}

/// Puts a script together from its rendered parts.
pub fn assemble(header: &str, steps: &Vec<String>, footer: &str) -> (script: String)
    ensures
        script@ == header@ + joined(steps.deep_view()) + footer@,
{
    let mut script = String::from_str(header);
    let mut i: usize = 0;
    while i < steps.len()
        invariant
            i <= steps.len(),
            script@ == header@ + joined(steps.deep_view().take(i as int)),
        decreases steps.len() - i,
    {
        script.append(steps[i].as_str());
        i += 1;
        assert(steps.deep_view().take(i as int).drop_last() =~= steps.deep_view().take(i - 1));
    }
    assert(steps.deep_view().take(i as int) =~= steps.deep_view());
    script.append(footer);
    script
}

/// Renders a whole script: the prologue, every step in order, the epilogue.
pub fn render_script(steps: &Vec<Step>, context: &Context) -> (outcome: Result<
    String,
    CompileError,
>)
    ensures
        text_outcome(outcome) == script_text(steps.deep_view(), context@),
        outcome matches Err(error) ==> error == CompileError::Render,
{
    let ghost units = steps.deep_view();
    let header = render(Template::Header, &context_data(context))?;
    let mut texts: Vec<String> = Vec::new();
    let mut i: usize = 0;
    while i < steps.len()
        invariant
            i <= steps.len(),
            units == steps.deep_view(),
            units_text(units.take(i as int), context@) == Some(texts.deep_view()),
        decreases steps.len() - i,
    {
        proof {
            assert(units.take(i + 1).drop_last() =~= units.take(i as int));
            if units_text(units.take(i + 1), context@) is None {
                lemma_units_text_fails_on(units, i + 1, context@);
            }
        }
        let text = render_step(&steps[i], context)?;
        texts.push(text);
        i += 1;
    }
    assert(units.take(i as int) =~= units);
    let footer = render(Template::Footer, &context_data(context))?;
    Ok(assemble(header.as_str(), &texts, footer.as_str()))
}

/// Where the first `k` steps have no text, the whole row has none.
proof fn lemma_units_text_fails_on(units: Seq<Unit>, k: int, settings: Settings)
    requires
        0 <= k <= units.len(),
        units_text(units.take(k), settings) is None,
    ensures
        units_text(units, settings) is None,
    decreases units.len() - k,
{
    if k < units.len() {
        assert(units.take(k + 1).drop_last() =~= units.take(k));
        lemma_units_text_fails_on(units, k + 1, settings);
    } else {
        assert(units.take(k) =~= units);
    }
}

/// A script holds one piece of text for each step, in the order of the steps,
/// and each piece is the text of its step. Where one step has no text, there
/// is no script.
pub proof fn lemma_script_follows_steps(units: Seq<Unit>, settings: Settings)
    ensures
        match units_text(units, settings) {
            Some(texts) => {
                &&& texts.len() == units.len()
                &&& forall|i: int|
                    0 <= i < units.len() ==> unit_text(units[i], settings) == Some(texts[i])
            },
            None => exists|i: int| 0 <= i < units.len() && unit_text(units[i], settings) is None,
        },
        units_text(units, settings) is None ==> script_text(units, settings) is None,
    decreases units.len(),
{
    if units.len() > 0 {
        let front = units.drop_last();
        lemma_script_follows_steps(front, settings);
        if units_text(front, settings) is None {
            let i = choose|i: int| 0 <= i < front.len() && unit_text(front[i], settings) is None;
            assert(unit_text(units[i], settings) is None);
        } else if unit_text(units.last(), settings) is None {
            assert(unit_text(units[units.len() - 1], settings) is None);
        }
    }
}

} // verus!
