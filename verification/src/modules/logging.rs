//! Shows text messages and remembers when the last one came.

use crate::message::{Message, MessageView};
use crate::outbox;
use crate::outbox::{EffectView, Outbox};
use crate::time;
use crate::time::Timestamp;
use crate::types;
use crate::types::HandlerOutcome;
use anyhow::Result;
use vstd::prelude::*;

verus! {

/// When the last text message came.
#[derive(Debug)]
pub struct LastMsg {
    pub last_msg: Timestamp,
}

impl Clone for LastMsg {
    fn clone(&self) -> (copy: Self)
        ensures
            copy == *self,
    {
        Self { last_msg: self.last_msg }
    }
}

impl Default for LastMsg {
    /// As if a message had come just now.
    fn default() -> (last: Self)
        ensures
            time::utc_reading(last.last_msg),
    {
        Self { last_msg: time::utc_now() }
    }
}

/// The line that shows a text message with the given text.
pub open spec fn received(text: Seq<char>) -> Seq<char> {
    "📜 Received: "@ + text
}

/// What is asked for when `msg` comes: a text message is shown.
pub open spec fn log_effects(msg: MessageView) -> Seq<EffectView> {
    match msg {
        MessageView::Text(text) => seq![EffectView::Print(received(text))],
        _ => Seq::empty(),
    }
}

/// The line that shows `msg`, if it is a text message.
pub fn received_line(msg: &Message) -> (line: Option<String>)
    ensures
        match (msg@, line) {
            (MessageView::Text(text), Some(line)) => line@ == received(text),
            (MessageView::Text(_), None) => false,
            (_, line) => line is None,
        },
{
    match msg {
        Message::Text(text) => Some(outbox::labelled("📜 Received: ", text.as_str())),
        _ => None,
    }
}

/// Shows `msg` and remembers `now` as the time of the last message, if `msg` is a text
/// message.
pub fn log_text_at(
    ws: &mut Outbox,
    state: &mut LastMsg,
    msg: &Message,
    now: Timestamp,
) -> (reply: Result<HandlerOutcome>)
    ensures
        final(ws)@ == old(ws)@ + log_effects(msg@),
        final(state).last_msg == (if msg is Text {
            now
        } else {
            old(state).last_msg
        }),
        types::continues(reply),
{
    if let Some(line) = received_line(msg) {
        ws.print(line);
        state.last_msg = now;
    }
    Ok(HandlerOutcome::Continue)
}

/// Shows `msg` and remembers when it came, if it is a text message.
pub fn log_text(ws: &mut Outbox, state: &mut LastMsg, msg: &Message) -> (reply: Result<
    HandlerOutcome,
>)
    ensures
        final(ws)@ == old(ws)@ + log_effects(msg@),
        msg is Text ==> time::utc_reading(final(state).last_msg),
        msg !is Text ==> *final(state) == *old(state),
        types::continues(reply),
{
    if let Message::Text(_) = msg {
        let now = time::utc_now();
        log_text_at(ws, state, msg, now)
    } else {
        Ok(HandlerOutcome::Continue)
    }
}

/// The line that shows a text message is the label followed by the whole text. Other
/// messages have no line.
pub proof fn the_line_is_the_label_and_the_whole_text(msg: &Message, line: Option<String>)
    requires
        call_ensures(received_line, (msg,), line),
    ensures
        match *msg {
            Message::Text(text) => {
                let label = "📜 Received: "@;
                &&& line matches Some(line)
                &&& line@.len() == label.len() + text@.len()
                &&& line@.take(label.len() as int) == label
                &&& line@.skip(label.len() as int) == text@
            },
            _ => line is None,
        },
{
}

/// Different texts are shown as different lines.
pub proof fn different_texts_have_different_lines(
    text: String,
    other_text: String,
    line: Option<String>,
    other_line: Option<String>,
)
    requires
        call_ensures(received_line, (&Message::Text(text),), line),
        call_ensures(received_line, (&Message::Text(other_text),), other_line),
        line->Some_0@ == other_line->Some_0@,
    ensures
        text@ == other_text@,
{
    the_line_is_the_label_and_the_whole_text(&Message::Text(text), line);
    the_line_is_the_label_and_the_whole_text(&Message::Text(other_text), other_line);
}

/// A text message adds one line, the label followed by the whole text, and nothing else.
/// Other messages add nothing. The given time is remembered for a text message alone, and
/// the next handler always sees the message.
pub proof fn each_text_is_shown_whole_and_timed(
    ws: &mut Outbox,
    state: &mut LastMsg,
    msg: &Message,
    now: Timestamp,
    reply: Result<HandlerOutcome>,
)
    requires
        call_ensures(log_text_at, (old(ws), old(state), msg, now), reply),
    ensures
        match *msg {
            Message::Text(text) => {
                let label = "📜 Received: "@;
                &&& final(ws)@.len() == old(ws)@.len() + 1
                &&& final(ws)@.drop_last() == old(ws)@
                &&& final(ws)@.last() matches EffectView::Print(line)
                &&& line.len() == label.len() + text@.len()
                &&& line.take(label.len() as int) == label
                &&& line.skip(label.len() as int) == text@
                &&& final(state).last_msg == now
            },
            _ => final(ws)@ == old(ws)@ && final(state).last_msg == old(state).last_msg,
        },
        reply == Ok::<HandlerOutcome, anyhow::Error>(HandlerOutcome::Continue),
{
}

/// A text message adds one line, the label followed by the whole text, and nothing else.
/// Other messages add nothing. A reading of the clock is remembered for a text message
/// alone, and the next handler always sees the message.
pub proof fn each_text_is_shown_whole(
    ws: &mut Outbox,
    state: &mut LastMsg,
    msg: &Message,
    reply: Result<HandlerOutcome>,
)
    requires
        call_ensures(log_text, (old(ws), old(state), msg), reply),
    ensures
        match *msg {
            Message::Text(text) => {
                let label = "📜 Received: "@;
                &&& final(ws)@.len() == old(ws)@.len() + 1
                &&& final(ws)@.drop_last() == old(ws)@
                &&& final(ws)@.last() matches EffectView::Print(line)
                &&& line.len() == label.len() + text@.len()
                &&& line.take(label.len() as int) == label
                &&& line.skip(label.len() as int) == text@
                &&& time::utc_reading(final(state).last_msg)
            },
            _ => final(ws)@ == old(ws)@ && final(state).last_msg == old(state).last_msg,
        },
        reply == Ok::<HandlerOutcome, anyhow::Error>(HandlerOutcome::Continue),
{
}

} // verus!
