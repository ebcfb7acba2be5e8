//! The handlers of the default session.

use crate::message::Message;
use crate::modules::logging;
use crate::outbox::{EffectView, Outbox};
use crate::state::{Heartbeat, LastMsg};
use crate::time;
use crate::types;
use crate::types::HandlerOutcome;
use anyhow::Result;
use std::time::Instant;
use vstd::prelude::*;

verus! {

/// Shows `msg` and remembers when it came, if it is a text message.
pub fn log_text(ws: &mut Outbox, state: &mut LastMsg, msg: &Message) -> (reply: Result<
    HandlerOutcome,
>)
    ensures
        final(ws)@ == old(ws)@ + logging::log_effects(msg@),
        msg is Text ==> time::utc_reading(final(state).last_msg),
        msg !is Text ==> *final(state) == *old(state),
        types::continues(reply),
{
    logging::log_text(ws, state, msg)
}

/// Remembers `now` as the time of the last pong, if `msg` is a pong.
pub fn update_pong_at(state: &mut Heartbeat, msg: &Message, now: Instant) -> (reply: Result<
    HandlerOutcome,
>)
    ensures
        final(state).last_pong == (if msg is Pong {
            now
        } else {
            old(state).last_pong
        }),
        types::continues(reply),
{
    if let Message::Pong(_) = msg {
        state.last_pong = now;
    }
    Ok(HandlerOutcome::Continue)
}

/// Remembers when `msg` came, if it is a pong.
pub fn update_pong(state: &mut Heartbeat, msg: &Message) -> (reply: Result<HandlerOutcome>)
    ensures
        msg is Pong ==> call_ensures(Instant::now, (), final(state).last_pong),
        msg !is Pong ==> *final(state) == *old(state),
        types::continues(reply),
{
    if let Message::Pong(_) = msg {
        update_pong_at(state, msg, Instant::now())
    } else {
        Ok(HandlerOutcome::Continue)
    }
}

/// A text message adds one line, the label followed by the whole text, and nothing else.
/// Other messages add nothing. A reading of the clock is remembered for a text message
/// alone, and the next handler always sees the message.
pub proof fn each_text_is_shown_whole(
    ws: &mut Outbox,
    state: &mut LastMsg,
    msg: &Message,
    reply: Result<HandlerOutcome>,
)
    requires
        call_ensures(log_text, (old(ws), old(state), msg), reply),
    ensures
        match *msg {
            Message::Text(text) => {
                let label = "📜 Received: "@;
                &&& final(ws)@.len() == old(ws)@.len() + 1
                &&& final(ws)@.drop_last() == old(ws)@
                &&& final(ws)@.last() matches EffectView::Print(line)
                &&& line.len() == label.len() + text@.len()
                &&& line.take(label.len() as int) == label
                &&& line.skip(label.len() as int) == text@
                &&& time::utc_reading(final(state).last_msg)
            },
            _ => final(ws)@ == old(ws)@ && final(state).last_msg == old(state).last_msg,
        },
        reply == Ok::<HandlerOutcome, anyhow::Error>(HandlerOutcome::Continue),
{
}

/// A pong, and nothing else, moves the time of the last pong to the given time. The next
/// handler always sees the message.
pub proof fn only_a_pong_is_remembered(
    state: &mut Heartbeat,
    msg: &Message,
    now: Instant,
    reply: Result<HandlerOutcome>,
)
    requires
        call_ensures(update_pong_at, (old(state), msg, now), reply),
    ensures
        match *msg {
            Message::Pong(_) => final(state).last_pong == now,
            _ => final(state).last_pong == old(state).last_pong,
        },
        reply == Ok::<HandlerOutcome, anyhow::Error>(HandlerOutcome::Continue),
{
}

/// A pong, and nothing else, moves the time of the last pong to a reading of the clock. The
/// next handler always sees the message.
pub proof fn a_pong_is_remembered_by_the_clock(
    state: &mut Heartbeat,
    msg: &Message,
    reply: Result<HandlerOutcome>,
)
    requires
        call_ensures(update_pong, (old(state), msg), reply),
    ensures
        match *msg {
            Message::Pong(_) => call_ensures(Instant::now, (), final(state).last_pong),
            _ => final(state).last_pong == old(state).last_pong,
        },
        reply == Ok::<HandlerOutcome, anyhow::Error>(HandlerOutcome::Continue),
{
}

} // verus!
