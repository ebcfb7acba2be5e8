//! Answers pings, and notices when the peer no longer answers them.

use crate::message::{Message, MessageView};
use crate::outbox;
use crate::outbox::{Effect, EffectView, Outbox};
use crate::time;
use crate::time::Duration;
use crate::types;
use crate::types::HandlerOutcome;
use anyhow::Result;
use std::time::Instant;
use vstd::prelude::*;

verus! {

/// When the last pong came, how often pings go out, and how long an answer may take.
#[derive(Debug)]
pub struct PingState {
    pub last_pong: Instant,
    pub ping_interval: Duration,
    pub pong_timeout: Duration,
}

impl Clone for PingState {
    fn clone(&self) -> (copy: Self)
        ensures
            copy == *self,
    {
        Self {
            last_pong: self.last_pong,
            ping_interval: self.ping_interval,
            pong_timeout: self.pong_timeout,
        }
    }
}

impl Default for PingState {
    /// As if a pong had come just now, with a ping every 30 seconds and 10 seconds to
    /// answer it.
    fn default() -> (state: Self)
        ensures
            call_ensures(Instant::now, (), state.last_pong),
            state.ping_interval@ == 30_000_000_000,
            state.pong_timeout@ == 10_000_000_000,
    {
        Self {
            last_pong: Instant::now(),
            ping_interval: Duration::from_secs(30),
            pong_timeout: Duration::from_secs(10),
        }
    }
}

impl PingState {
    /// How many nanoseconds may pass without a pong.
    pub open spec fn patience(self) -> nat {
        self.ping_interval@ + self.pong_timeout@
    }

    /// Whether a pong is overdue when `elapsed` has passed since the last one.
    pub open spec fn overdue(self, elapsed: Duration) -> bool {
        elapsed@ > self.patience()
    }

    /// What a check asks for when `elapsed` has passed since the last pong.
    pub open spec fn timeout_effects(self, elapsed: Duration) -> Seq<EffectView> {
        if self.overdue(elapsed) {
            seq![EffectView::Print("⏰ Ping timeout! Reconnecting..."@)]
        } else {
            Seq::empty()
        }
    }
}

/// What is asked for when `msg` comes: a ping is answered with its own payload.
pub open spec fn ping_pong_effects(msg: MessageView) -> Seq<EffectView> {
    match msg {
        MessageView::Ping(data) => seq![EffectView::Send(MessageView::Pong(data))],
        _ => Seq::empty(),
    }
}

/// Answers `msg` if it is a ping, and remembers `now` as the time of the last pong if it
/// is a pong.
pub fn handle_ping_pong_at(
    ws: &mut Outbox,
    state: &mut PingState,
    msg: &Message,
    now: Instant,
) -> (reply: Result<HandlerOutcome>)
    ensures
        final(ws)@ == old(ws)@ + ping_pong_effects(msg@),
        *final(state) == (PingState {
            last_pong: if msg is Pong {
                now
            } else {
                old(state).last_pong
            },
            ..*old(state)
        }),
        types::continues(reply),
{
    match msg {
        Message::Ping(data) => {
            ws.send(Message::Pong(data.clone()));
        },
        Message::Pong(_) => {
            state.last_pong = now;
        },
        _ => {},
    }
    Ok(HandlerOutcome::Continue)
}

/// Answers `msg` if it is a ping, and remembers when it came if it is a pong.
pub fn handle_ping_pong(ws: &mut Outbox, state: &mut PingState, msg: &Message) -> (reply: Result<
    HandlerOutcome,
>)
    ensures
        final(ws)@ == old(ws)@ + ping_pong_effects(msg@),
        msg is Pong ==> call_ensures(Instant::now, (), final(state).last_pong),
        msg !is Pong ==> final(state).last_pong == old(state).last_pong,
        final(state).ping_interval == old(state).ping_interval,
        final(state).pong_timeout == old(state).pong_timeout,
        types::continues(reply),
{
    let last_pong = if let Message::Pong(_) = msg {
        Instant::now()
    } else {
        state.last_pong
    };
    handle_ping_pong_at(ws, state, msg, last_pong)
}

/// Says so if a pong is overdue when `elapsed` has passed since the last one.
pub fn check_timeout_after(ws: &mut Outbox, state: &mut PingState, elapsed: Duration)
    requires
        old(state).patience() <= Duration::max_nanos(),
    ensures
        final(ws)@ == old(ws)@ + old(state).timeout_effects(elapsed),
        *final(state) == *old(state),
{
    if let Some(patience) = state.ping_interval.checked_plus(state.pong_timeout) {
        if elapsed.exceeds(patience) {
            ws.print("⏰ Ping timeout! Reconnecting...".to_owned());
        }
    }
}

/// Says so if a pong is overdue.
pub fn check_timeout(ws: &mut Outbox, state: &mut PingState)
    requires
        old(state).patience() <= Duration::max_nanos(),
    ensures
        exists|elapsed: Duration|
            {
                &&& #[trigger] time::elapsed_reading(old(state).last_pong, elapsed)
                &&& final(ws)@ == old(ws)@ + old(state).timeout_effects(elapsed)
            },
        exists|secs: u64, nanos: u32|
            {
                &&& #[trigger] time::clock_shows(old(state).last_pong, secs, nanos)
                &&& nanos < 1_000_000_000
                &&& final(ws)@ == if secs * 1_000_000_000 + nanos > old(state).ping_interval@
                    + old(state).pong_timeout@ {
                    old(ws)@.push(EffectView::Print("⏰ Ping timeout! Reconnecting..."@))
                } else {
                    old(ws)@
                }
            },
        *final(state) == *old(state),
{
    let elapsed = time::elapsed_since(&state.last_pong);
    check_timeout_after(ws, state, elapsed);
}

/// The answer to a ping is not itself answered.
pub proof fn answers_are_not_answered(msg: MessageView, answer: MessageView)
    requires
        ping_pong_effects(msg).contains(EffectView::Send(answer)),
    ensures
        ping_pong_effects(answer) == Seq::<EffectView>::empty(),
{
}

/// A pong that is overdue stays overdue until another one comes.
pub proof fn overdue_stays_overdue(state: PingState, earlier: Duration, later: Duration)
    requires
        earlier@ <= later@,
        state.overdue(earlier),
    ensures
        state.overdue(later),
{
}

/// Every ping is answered, by one pong that carries its payload, whatever the payload is.
/// Nothing else is sent or shown, and no other message is answered.
pub proof fn every_ping_is_answered_with_its_payload(
    ws: &mut Outbox,
    state: &mut PingState,
    msg: &Message,
    now: Instant,
    reply: Result<HandlerOutcome>,
)
    requires
        call_ensures(handle_ping_pong_at, (old(ws), old(state), msg, now), reply) || call_ensures(
            handle_ping_pong,
            (old(ws), old(state), msg),
            reply,
        ),
    ensures
        match *msg {
            Message::Ping(payload) => {
                &&& final(ws)@ == old(ws)@.push(EffectView::Send(MessageView::Pong(payload@)))
                &&& final(ws).effects@.last() matches Effect::Send(Message::Pong(answer)) && answer@
                    == payload@
                &&& outbox::sent_messages(final(ws)@) == outbox::sent_messages(old(ws)@).push(
                    MessageView::Pong(payload@),
                )
            },
            _ => {
                &&& final(ws)@ == old(ws)@
                &&& outbox::sent_messages(final(ws)@) == outbox::sent_messages(old(ws)@)
            },
        },
        reply == Ok::<HandlerOutcome, anyhow::Error>(HandlerOutcome::Continue),
{
    if let Message::Ping(payload) = *msg {
        let answer = MessageView::Pong(payload@);
        assert(final(ws)@ == old(ws)@.push(EffectView::Send(answer)));
        assert(final(ws)@.last() == final(ws).effects@.last()@);
        outbox::sent_is_what_each_effect_sends(old(ws)@, Seq::empty(), answer);
    }
}

/// Different payloads get different answers.
pub proof fn different_pings_get_different_answers(
    ws: &mut Outbox,
    other_ws: &mut Outbox,
    state: &mut PingState,
    other_state: &mut PingState,
    payload: Vec<u8>,
    other_payload: Vec<u8>,
    reply: Result<HandlerOutcome>,
    other_reply: Result<HandlerOutcome>,
)
    requires
        call_ensures(handle_ping_pong, (old(ws), old(state), &Message::Ping(payload)), reply),
        call_ensures(
            handle_ping_pong,
            (old(other_ws), old(other_state), &Message::Ping(other_payload)),
            other_reply,
        ),
        final(ws)@.last() == final(other_ws)@.last(),
    ensures
        payload@ == other_payload@,
{
    assert(final(ws)@.last() == EffectView::Send(MessageView::Pong(payload@)));
    assert(final(other_ws)@.last() == EffectView::Send(MessageView::Pong(other_payload@)));
}

/// A pong, and nothing else, moves the time of the last pong to the given time. Nothing
/// changes how often pings go out and how long an answer may take.
pub proof fn only_a_pong_is_remembered(
    ws: &mut Outbox,
    state: &mut PingState,
    msg: &Message,
    now: Instant,
    reply: Result<HandlerOutcome>,
)
    requires
        call_ensures(handle_ping_pong_at, (old(ws), old(state), msg, now), reply),
    ensures
        match *msg {
            Message::Pong(_) => final(state).last_pong == now,
            _ => final(state).last_pong == old(state).last_pong,
        },
        final(state).ping_interval == old(state).ping_interval,
        final(state).pong_timeout == old(state).pong_timeout,
{
}

/// A pong, and nothing else, moves the time of the last pong to a reading of the clock.
/// Nothing changes how often pings go out and how long an answer may take.
pub proof fn a_pong_is_remembered_by_the_clock(
    ws: &mut Outbox,
    state: &mut PingState,
    msg: &Message,
    reply: Result<HandlerOutcome>,
)
    requires
        call_ensures(handle_ping_pong, (old(ws), old(state), msg), reply),
    ensures
        match *msg {
            Message::Pong(_) => call_ensures(Instant::now, (), final(state).last_pong),
            _ => final(state).last_pong == old(state).last_pong,
        },
        final(state).ping_interval == old(state).ping_interval,
        final(state).pong_timeout == old(state).pong_timeout,
{
}

/// A check says so, in one line, if and only if more than the interval and the timeout
/// together has passed. It changes nothing else.
pub proof fn silence_is_noticed_after_interval_and_timeout(
    ws: &mut Outbox,
    state: &mut PingState,
    elapsed: Duration,
)
    requires
        call_ensures(check_timeout_after, (old(ws), old(state), elapsed), ()),
    ensures
        elapsed@ > old(state).ping_interval@ + old(state).pong_timeout@ ==> final(ws)@ == old(
            ws,
        )@.push(EffectView::Print("⏰ Ping timeout! Reconnecting..."@)),
        elapsed@ <= old(state).ping_interval@ + old(state).pong_timeout@ ==> final(ws)@ == old(
            ws,
        )@,
        final(state).last_pong == old(state).last_pong,
        final(state).ping_interval == old(state).ping_interval,
        final(state).pong_timeout == old(state).pong_timeout,
{
}

/// A check can be made with every interval and every timeout that fit into one length of
/// time.
pub proof fn silence_can_be_checked(ws: &mut Outbox, state: &mut PingState, elapsed: Duration)
    requires
        old(state).ping_interval@ + old(state).pong_timeout@ <= u64::MAX * 1_000_000_000
            + 999_999_999,
    ensures
        call_requires(check_timeout_after, (old(ws), old(state), elapsed)),
        call_requires(check_timeout, (old(ws), old(state))),
{
}

/// A check of the clock says so, in one line, if and only if the clock shows that more than
/// the interval and the timeout together has passed since the last pong, whole seconds and
/// nanoseconds alike. It changes nothing else.
pub proof fn silence_is_noticed_by_the_clock(ws: &mut Outbox, state: &mut PingState)
    requires
        call_ensures(check_timeout, (old(ws), old(state)), ()),
    ensures
        exists|secs: u64, nanos: u32|
            {
                &&& #[trigger] time::clock_shows(old(state).last_pong, secs, nanos)
                &&& nanos < 1_000_000_000
                &&& final(ws)@ == if secs * 1_000_000_000 + nanos > old(state).ping_interval@
                    + old(state).pong_timeout@ {
                    old(ws)@.push(EffectView::Print("⏰ Ping timeout! Reconnecting..."@))
                } else {
                    old(ws)@
                }
            },
        final(state).last_pong == old(state).last_pong,
        final(state).ping_interval == old(state).ping_interval,
        final(state).pong_timeout == old(state).pong_timeout,
{
}

/// A check of the clock goes by the whole of what the clock was read as.
pub(crate) proof fn silence_is_noticed_as_read(ws: &mut Outbox, state: &mut PingState)
    requires
        call_ensures(check_timeout, (old(ws), old(state)), ()),
    ensures
        exists|reading: (u64, u32)|
            {
                &&& #[trigger] call_ensures(
                    time::read_elapsed,
                    (&old(state).last_pong,),
                    reading,
                )
                &&& reading.1 < 1_000_000_000
                &&& reading.0 * 1_000_000_000 + reading.1 > old(state).ping_interval@ + old(
                    state,
                ).pong_timeout@ ==> final(ws)@ == old(ws)@.push(
                    EffectView::Print("⏰ Ping timeout! Reconnecting..."@),
                )
                &&& reading.0 * 1_000_000_000 + reading.1 <= old(state).ping_interval@ + old(
                    state,
                ).pong_timeout@ ==> final(ws)@ == old(ws)@
            },
{
    let (secs, nanos) = choose|secs: u64, nanos: u32|
        {
            &&& #[trigger] time::clock_shows(old(state).last_pong, secs, nanos)
            &&& nanos < 1_000_000_000
            &&& final(ws)@ == if secs * 1_000_000_000 + nanos > old(state).ping_interval@ + old(
                state,
            ).pong_timeout@ {
                old(ws)@.push(EffectView::Print("⏰ Ping timeout! Reconnecting..."@))
            } else {
                old(ws)@
            }
        };
    time::clock_shows_what_was_read(old(state).last_pong, secs, nanos);
    assert(call_ensures(time::read_elapsed, (&old(state).last_pong,), (secs, nanos)));
}

/// The state to start with waits for 30 seconds and then for 10 more.
pub proof fn a_new_state_waits_for_forty_seconds(state: PingState)
    requires
        call_ensures(<PingState as Default>::default, (), state),
    ensures
        state.ping_interval@ == 30_000_000_000,
        state.pong_timeout@ == 10_000_000_000,
        call_ensures(Instant::now, (), state.last_pong),
{
}

} // verus!
