//! The output protocol: how a line that the script writes is told apart from
//! everything else in a log that many writers share.
//!
//! A line is the marker, a space, the name of a channel and, on the channels
//! that carry one, a space and a payload. `START` and `FINISH` stand alone and
//! bracket a run. The host that runs the script writes `js: ` before each
//! line.

use vstd::prelude::*;
use vstd::string::*;
use crate::text::{has_prefix, lemma_prefix_of_concat, str_eq, strip_prefix};

verus! {

/// The purpose of a line.
#[derive(Debug, Clone, Copy, PartialEq, Eq, Structural)]
pub enum Channel {
    /// The run begins.
    Start,
    /// A trace of what the script does; written only when debugging is on.
    Debug,
    /// Something went wrong in one step; the steps behind it still run.
    Error,
    /// One value of the output.
    Result,
    /// The run is over.
    Finish,
}

/// A line that the script wrote.
#[derive(Debug, Clone, PartialEq, Eq)]
pub enum Line {
    Start,
    Debug(String),
    Error(String),
    Result(String),
    Finish,
}

/// A [`Line`] with its payload as a character sequence.
pub enum Message {
    Start,
    Debug(Seq<char>),
    Error(Seq<char>),
    Result(Seq<char>),
    Finish,
}

impl View for Line {
    type V = Message;

    open spec fn view(&self) -> Message {
        match self {
            Line::Start => Message::Start,
            Line::Debug(payload) => Message::Debug(payload@),
            Line::Error(payload) => Message::Error(payload@),
            Line::Result(payload) => Message::Result(payload@),
            Line::Finish => Message::Finish,
        }
    }
}

/// The view of a line that may be missing.
pub open spec fn message_of(line: Option<Line>) -> Option<Message> {
    match line {
        Some(line) => Some(line@),
        None => None,
    }
}

/// What the host writes before every line of the script.
pub const HOST_PREFIX: &'static str = "js: ";

/// The name of a channel, as it stands in a line.
pub open spec fn tag_of(channel: Channel) -> Seq<char> {
    match channel {
        Channel::Start => "START"@,
        Channel::Debug => "DEBUG"@,
        Channel::Error => "ERROR"@,
        Channel::Result => "RESULT"@,
        Channel::Finish => "FINISH"@,
    }
}

/// The channel of a line.
pub open spec fn channel_of(message: Message) -> Channel {
    match message {
        Message::Start => Channel::Start,
        Message::Debug(_) => Channel::Debug,
        Message::Error(_) => Channel::Error,
        Message::Result(_) => Channel::Result,
        Message::Finish => Channel::Finish,
    }
}

/// A line behind its marker and the space after it.
pub open spec fn body_of(message: Message) -> Seq<char> {
    match message {
        Message::Start => "START"@,
        Message::Debug(payload) => "DEBUG"@ + " "@ + payload,
        Message::Error(payload) => "ERROR"@ + " "@ + payload,
        Message::Result(payload) => "RESULT"@ + " "@ + payload,
        Message::Finish => "FINISH"@,
    }
}

/// A line as the script writes it.
pub open spec fn line_text(marker: Seq<char>, message: Message) -> Seq<char> {
    marker + " "@ + body_of(message)
}

impl Channel {
    /// The name of the channel, as it stands in a line.
    pub fn tag(self) -> (tag: &'static str)
        ensures
            tag@ == tag_of(self),
    {
        match self {
            Channel::Start => "START",
            Channel::Debug => "DEBUG",
            Channel::Error => "ERROR",
            Channel::Result => "RESULT",
            Channel::Finish => "FINISH",
        }
    }
}

impl Line {
    /// The channel of this line.
    pub fn channel(&self) -> (channel: Channel)
        ensures
            channel == channel_of(self@),
    {
        match self {
            Line::Start => Channel::Start,
            Line::Debug(_) => Channel::Debug,
            Line::Error(_) => Channel::Error,
            Line::Result(_) => Channel::Result,
            Line::Finish => Channel::Finish,
        }
    }
}

/// Writes a line as the script does.
pub fn encode_line(marker: &str, line: &Line) -> (text: String)
    ensures
        text@ == line_text(marker@, line@),
{
    let mut text = String::from_str(marker);
    text.append(" ");
    text.append(line.channel().tag());
    match line {
        Line::Debug(payload) | Line::Error(payload) | Line::Result(payload) => {
            text.append(" ");
            text.append(payload.as_str());
        },
        _ => {},
    }
    text
}

/// The payload behind the name of a channel and a space.
fn payload_after(body: &str, tag: &str) -> (payload: Option<String>)
    ensures
        match payload {
            Some(payload) => body@ == tag@ + " "@ + payload@,
            None => forall|text: Seq<char>| body@ != tag@ + " "@ + text,
        },
{
    match strip_prefix(body, tag) {
        Some(rest) => match strip_prefix(rest, " ") {
            Some(payload) => {
                Some(String::from_str(payload))
            },
            None => {
                assert forall|text: Seq<char>| body@ != tag@ + " "@ + text by {
                    if body@ == tag@ + " "@ + text {
                        lemma_prefix_of_concat(tag@, " "@ + text);
                        assert(tag@ + " "@ + text =~= tag@ + (" "@ + text));
                        lemma_prefix_of_concat(tag@, rest@);
                        lemma_prefix_of_concat(" "@, text);
                    }
                }
                None
            },
        },
        None => {
            assert forall|text: Seq<char>| body@ != tag@ + " "@ + text by {
                if body@ == tag@ + " "@ + text {
                    assert(tag@ + " "@ + text =~= tag@ + (" "@ + text));
                    lemma_prefix_of_concat(tag@, " "@ + text);
                }
            }
            None
        },
    }
}

/// The message that `text` is the line of, if it is the line of one.
pub open spec fn decoded(text: Seq<char>, marker: Seq<char>) -> Option<Message> {
    if exists|message: Message| text == line_text(marker, message) {
        Some(choose|message: Message| text == line_text(marker, message))
    } else {
        None
    }
}

/// The message that a line of the host's log carries, if it carries one.
pub open spec fn decoded_entry(entry: Seq<char>, marker: Seq<char>) -> Option<Message> {
    if has_prefix(entry, HOST_PREFIX@) {
        decoded(entry.skip(HOST_PREFIX@.len() as int), marker)
    } else {
        None
    }
}

/// Reads a line that the script wrote behind `marker`. `None` is for
/// everything else: another marker, no channel, a payload where none belongs.
pub fn decode_line(text: &str, marker: &str) -> (line: Option<Line>)
    ensures
        match line {
            Some(line) => text@ == line_text(marker@, line@),
            None => forall|message: Message| text@ != line_text(marker@, message),
        },
        message_of(line) == decoded(text@, marker@),
{
    let line = decode_known_line(text, marker);
    proof {
        if line is Some {
            lemma_line_is_unambiguous(
                marker@,
                line->Some_0@,
                decoded(text@, marker@)->Some_0,
            );
        }
    }
    line
}

fn decode_known_line(text: &str, marker: &str) -> (line: Option<Line>)
    ensures
        match line {
            Some(line) => text@ == line_text(marker@, line@),
            None => forall|message: Message| text@ != line_text(marker@, message),
        },
{
    let body = match strip_prefix(text, marker) {
        Some(rest) => match strip_prefix(rest, " ") {
            Some(body) => body,
            None => {
                assert forall|message: Message| text@ != line_text(marker@, message) by {
                    let tail = " "@ + body_of(message);
                    assert(line_text(marker@, message) =~= marker@ + tail);
                    lemma_prefix_of_concat(marker@, tail);
                    lemma_prefix_of_concat(marker@, rest@);
                    lemma_prefix_of_concat(" "@, body_of(message));
                }
                return None;
            },
        },
        None => {
            assert forall|message: Message| text@ != line_text(marker@, message) by {
                let tail = " "@ + body_of(message);
                assert(line_text(marker@, message) =~= marker@ + tail);
                lemma_prefix_of_concat(marker@, tail);
            }
            return None;
        },
    };
    proof {
        assert forall|message: Message| text@ == line_text(marker@, message) implies body@
            == body_of(message) by {
            lemma_prefix_of_concat(marker@ + " "@, body@);
            lemma_prefix_of_concat(marker@ + " "@, body_of(message));
        }
    }
    if str_eq(body, "START") {
        return Some(Line::Start);
    }
    if str_eq(body, "FINISH") {
        return Some(Line::Finish);
    }
    if let Some(payload) = payload_after(body, "DEBUG") {
        return Some(Line::Debug(payload));
    }
    if let Some(payload) = payload_after(body, "ERROR") {
        return Some(Line::Error(payload));
    }
    if let Some(payload) = payload_after(body, "RESULT") {
        return Some(Line::Result(payload));
    }
    assert forall|message: Message| text@ != line_text(marker@, message) by {
        // Were it a line, its body would be one of the five just tried.
        assert(text@ == line_text(marker@, message) ==> body@ == body_of(message));
    }
    None
}

/// Reads a line of the host's log: a line of the script behind the host's
/// prefix. `None` is for every line that is not one of this run.
pub fn decode_log_line(entry: &str, marker: &str) -> (line: Option<Line>)
    ensures
        match line {
            Some(line) => entry@ == HOST_PREFIX@ + line_text(marker@, line@),
            None => forall|message: Message| entry@ != HOST_PREFIX@ + line_text(marker@, message),
        },
        message_of(line) == decoded_entry(entry@, marker@),
{
    match strip_prefix(entry, HOST_PREFIX) {
        Some(text) => {
            proof {
                lemma_prefix_of_concat(HOST_PREFIX@, text@);
                assert forall|message: Message|
                    entry@ == HOST_PREFIX@ + line_text(marker@, message) implies text@
                    == line_text(marker@, message) by {
                    lemma_prefix_of_concat(HOST_PREFIX@, text@);
                    lemma_prefix_of_concat(HOST_PREFIX@, line_text(marker@, message));
                }
            }
            decode_line(text, marker)
        },
        None => {
            assert forall|message: Message| entry@ != HOST_PREFIX@ + line_text(
                marker@,
                message,
            ) by {
                lemma_prefix_of_concat(HOST_PREFIX@, line_text(marker@, message));
            }
            None
        },
    }
}

/// Every line begins with the marker, exactly, and behind it and a space
/// stands the name of the line's channel, one of the five.
pub proof fn lemma_line_begins_with_marker(marker: Seq<char>, message: Message)
    ensures
        has_prefix(line_text(marker, message), marker),
        has_prefix(line_text(marker, message), marker + " "@ + tag_of(channel_of(message))),
{
    let head = marker + " "@ + tag_of(channel_of(message));
    let tail = line_text(marker, message).skip(head.len() as int);
    match message {
        Message::Debug(payload) => {
            assert(line_text(marker, message) =~= head + (" "@ + payload));
            lemma_prefix_of_concat(head, " "@ + payload);
        },
        Message::Error(payload) => {
            assert(line_text(marker, message) =~= head + (" "@ + payload));
            lemma_prefix_of_concat(head, " "@ + payload);
        },
        Message::Result(payload) => {
            assert(line_text(marker, message) =~= head + (" "@ + payload));
            lemma_prefix_of_concat(head, " "@ + payload);
        },
        _ => {
            lemma_prefix_of_concat(head, Seq::<char>::empty());
        },
    }
    assert(line_text(marker, message) =~= marker + (" "@ + body_of(message)));
    lemma_prefix_of_concat(marker, " "@ + body_of(message));
}

/// A text is the line of one message at most: what was written is what is
/// read back, channel and payload.
pub proof fn lemma_line_is_unambiguous(marker: Seq<char>, a: Message, b: Message)
    requires
        line_text(marker, a) == line_text(marker, b),
    ensures
        a == b,
{
    reveal_strlit("START");
    reveal_strlit("DEBUG");
    reveal_strlit("ERROR");
    reveal_strlit("RESULT");
    reveal_strlit("FINISH");
    reveal_strlit(" ");
    lemma_prefix_of_concat(marker + " "@, body_of(a));
    lemma_prefix_of_concat(marker + " "@, body_of(b));
    assert(body_of(a)[0] == body_of(b)[0]);
    match (a, b) {
        (Message::Debug(p), Message::Debug(q)) => {
            lemma_prefix_of_concat("DEBUG"@ + " "@, p);
            lemma_prefix_of_concat("DEBUG"@ + " "@, q);
        },
        (Message::Error(p), Message::Error(q)) => {
            lemma_prefix_of_concat("ERROR"@ + " "@, p);
            lemma_prefix_of_concat("ERROR"@ + " "@, q);
        },
        (Message::Result(p), Message::Result(q)) => {
            lemma_prefix_of_concat("RESULT"@ + " "@, p);
            lemma_prefix_of_concat("RESULT"@ + " "@, q);
        },
        _ => {},
    }
}

/// What the caller of the program gets to see of a line.
#[derive(Debug, Clone, PartialEq, Eq)]
pub enum Output {
    /// A result, for the standard output.
    Stdout(String),
    /// An error of the script, for the standard error.
    Stderr(String),
}

/// An [`Output`] with its text as a character sequence.
pub enum Shown {
    Stdout(Seq<char>),
    Stderr(Seq<char>),
}

impl View for Output {
    type V = Shown;

    open spec fn view(&self) -> Shown {
        match self {
            Output::Stdout(text) => Shown::Stdout(text@),
            Output::Stderr(text) => Shown::Stderr(text@),
        }
    }
}

impl DeepView for Output {
    type V = Shown;

    open spec fn deep_view(&self) -> Shown {
        self@
    }
}

/// What is shown of a message: the payload of a result and of an error, as
/// it is, and nothing of the other channels.
pub open spec fn shown_of(message: Option<Message>) -> Option<Shown> {
    match message {
        Some(Message::Result(payload)) => Some(Shown::Stdout(payload)),
        Some(Message::Error(payload)) => Some(Shown::Stderr(payload)),
        _ => None,
    }
}

/// What is shown of a log: of each line that carries a result or an error of
/// this run its payload, in the order of the log.
pub open spec fn forwarded(entries: Seq<Seq<char>>, marker: Seq<char>) -> Seq<Shown>
    decreases entries.len(),
{
    if entries.len() == 0 {
        Seq::empty()
    } else {
        let before = forwarded(entries.drop_last(), marker);
        match shown_of(decoded_entry(entries.last(), marker)) {
            Some(shown) => before.push(shown),
            None => before,
        }
    }
}

/// Picks from the lines of the host's log what the caller gets to see.
pub fn forward_log(entries: &Vec<String>, marker: &str) -> (outputs: Vec<Output>)
    ensures
        outputs.deep_view() == forwarded(entries.deep_view(), marker@),
{
    let ghost lines = entries.deep_view();
    let mut outputs: Vec<Output> = Vec::new();
    let mut i: usize = 0;
    while i < entries.len()
        invariant
            i <= entries.len(),
            lines == entries.deep_view(),
            outputs.deep_view() == forwarded(lines.take(i as int), marker@),
        decreases entries.len() - i,
    {
        assert(lines.take(i + 1).drop_last() =~= lines.take(i as int));
        match decode_log_line(entries[i].as_str(), marker) {
            Some(Line::Result(payload)) => {
                outputs.push(Output::Stdout(payload));
            },
            Some(Line::Error(payload)) => {
                outputs.push(Output::Stderr(payload));
            },
            _ => {},
        }
        i += 1;
    }
    assert(lines.take(i as int) =~= lines);
    outputs
}

} // verus!
