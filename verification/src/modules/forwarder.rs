//! Parses messages and forwards what comes out of it to another task.

use crate::channel::Sender;
use crate::message::Message;
use crate::outbox::Outbox;
use crate::types;
use crate::types::HandlerOutcome;
use anyhow::Result;
use tokio::sync::mpsc::error::SendError;
use tokio::sync::mpsc::UnboundedSender;
use vstd::prelude::*;

verus! {

/// Where parsed messages go.
#[verifier::reject_recursive_types(T)]
pub struct ForwarderState<T> {
    pub sender: Sender<T>,
}

impl<T: Clone> Clone for ForwarderState<T> {
    /// Forwards to the same channel, and has forwarded nothing yet.
    fn clone(&self) -> (copy: Self)
        ensures
            call_ensures(<Sender<T> as Clone>::clone, (&self.sender,), copy.sender),
    {
        Self { sender: self.sender.clone() }
    }
}

/// Takes from a message what is worth forwarding, if anything.
pub trait MessageParser<T> {
    fn parse(&self, msg: &Message) -> Option<T>;
}

/// Whether `channel` may answer to `value` by accepting it, or by refusing it.
pub open spec fn may_answer<T>(channel: UnboundedSender<T>, value: T, accepted: bool) -> bool {
    exists|reply: Result<(), SendError<T>>|
        {
            &&& #[trigger] call_ensures(UnboundedSender::<T>::send, (&channel, value), reply)
            &&& accepted == reply is Ok
        }
}

impl<T> ForwarderState<T> {
    /// Whether the state is `after` once `parsed` has been forwarded and the channel has
    /// accepted it or not: the value is handed over once, and nothing else is.
    pub open spec fn forwards(self, parsed: Option<T>, accepted: bool, after: Self) -> bool {
        match parsed {
            Some(value) => {
                &&& may_answer(self.sender.channel(), value, accepted)
                &&& after.sender.channel() == self.sender.channel()
                &&& after.sender.handed() == self.sender.handed().push(value)
                &&& after.sender.accepted() == if accepted {
                    self.sender.accepted().push(value)
                } else {
                    self.sender.accepted()
                }
            },
            None => after == self,
        }
    }

    /// Whether the state may be `after` once `parser` has seen `msg` and what it parsed
    /// has been forwarded.
    pub open spec fn forwards_message<P: MessageParser<T>>(
        self,
        parser: &P,
        msg: &Message,
        after: Self,
    ) -> bool {
        exists|parsed: Option<T>, accepted: bool|
            {
                &&& call_ensures(P::parse, (parser, msg), parsed)
                &&& #[trigger] self.forwards(parsed, accepted, after)
            }
    }
}

/// Hands `parsed` to the channel, if there is something to hand over, and gives the
/// channel's reply.
pub fn forward_parsed<T>(state: &mut ForwarderState<T>, parsed: Option<T>) -> (reply: Option<
    Result<(), SendError<T>>,
>)
    ensures
        match (parsed, reply) {
            (Some(value), Some(reply)) => {
                &&& call_ensures(
                    UnboundedSender::<T>::send,
                    (&old(state).sender.channel(), value),
                    reply,
                )
                &&& reply matches Err(refused) ==> refused.0 == value
            },
            (None, None) => true,
            _ => false,
        },
        old(state).forwards(parsed, reply matches Some(Ok(_)), *final(state)),
{
    match parsed {
        Some(value) => Some(state.sender.send(value)),
        None => None,
    }
}

/// Parses `msg` and hands what comes out of it to the channel. Whether the channel
/// accepts it makes no difference.
pub fn forward_messages<T, P>(
    _ws: &mut Outbox,
    state: &mut ForwarderState<T>,
    msg: &Message,
    parser: &P,
) -> (reply: Result<HandlerOutcome>) where P: MessageParser<T>
    ensures
        old(state).forwards_message(parser, msg, *final(state)),
        *final(_ws) == *old(_ws),
        types::continues(reply),
{
    let parsed = parser.parse(msg);
    let _ = forward_parsed(state, parsed);
    Ok(HandlerOutcome::Continue)
}

/// After a number of messages, with a parser that always finds the same in the same
/// message, just what it found in them has been handed to the channel, in order: nothing is
/// lost, doubled or reordered. Where the channel accepted something each time that the
/// parser found something, it has accepted just that, in order.
pub proof fn all_that_is_found_is_forwarded_in_order<T, P: MessageParser<T>>(
    parser: &P,
    parse: spec_fn(Message) -> Option<T>,
    msgs: Seq<Message>,
    states: Seq<ForwarderState<T>>,
)
    requires
        forall|msg: &Message, parsed: Option<T>| #[trigger]
            call_ensures(P::parse, (parser, msg), parsed) ==> parsed == parse(*msg),
        states.len() == msgs.len() + 1,
        forall|i: int|
            0 <= i < msgs.len() ==> states[i].forwards_message(
                parser,
                &#[trigger] msgs[i],
                states[i + 1],
            ),
    ensures
        states.last().sender.handed() == states.first().sender.handed() + msgs.filter_map(parse),
        (forall|i: int|
            0 <= i < msgs.len() && parse(#[trigger] msgs[i]) is Some ==> states[i
                + 1].sender.accepted() != states[i].sender.accepted())
            ==> states.last().sender.accepted() == states.first().sender.accepted()
            + msgs.filter_map(parse),
        states.last().sender.channel() == states.first().sender.channel(),
    decreases msgs.len(),
{
    if msgs.len() > 0 {
        let n = msgs.len() - 1;
        assert forall|i: int| 0 <= i < msgs.drop_last().len() implies states.drop_last()[i]
            .forwards_message(parser, &#[trigger] msgs.drop_last()[i], states.drop_last()[i + 1]) by {
            assert(states[i].forwards_message(parser, &msgs[i], states[i + 1]));
        }
        all_that_is_found_is_forwarded_in_order(
            parser,
            parse,
            msgs.drop_last(),
            states.drop_last(),
        );
        assert(states[n].forwards_message(parser, &msgs[n], states[n + 1]));
        if forall|i: int|
            0 <= i < msgs.len() && parse(#[trigger] msgs[i]) is Some ==> states[i
                + 1].sender.accepted() != states[i].sender.accepted() {
            assert forall|i: int|
                0 <= i < msgs.drop_last().len() && parse(
                    #[trigger] msgs.drop_last()[i],
                ) is Some implies states.drop_last()[i + 1].sender.accepted()
                != states.drop_last()[i].sender.accepted() by {
                assert(parse(msgs[i]) is Some);
            }
        }
    }
}

/// What was parsed is handed to the channel once, and counts as accepted if and only if the
/// channel's reply says so; a refused value comes back. Where nothing was parsed, nothing
/// changes and there is no reply.
pub proof fn what_was_parsed_is_handed_over_once<T>(
    state: &mut ForwarderState<T>,
    parsed: Option<T>,
    reply: Option<Result<(), SendError<T>>>,
)
    requires
        call_ensures(forward_parsed, (old(state), parsed), reply),
    ensures
        parsed is Some <==> reply is Some,
        parsed is None ==> *final(state) == *old(state),
        parsed matches Some(value) ==> {
            &&& call_ensures(
                UnboundedSender::<T>::send,
                (&old(state).sender.channel(), value),
                reply->Some_0,
            )
            &&& reply->Some_0 matches Err(refused) ==> refused.0 == value
            &&& final(state).sender.channel() == old(state).sender.channel()
            &&& final(state).sender.handed() == old(state).sender.handed().push(value)
            &&& reply->Some_0 is Ok ==> final(state).sender.accepted() == old(
                state,
            ).sender.accepted().push(value)
            &&& reply->Some_0 is Err ==> final(state).sender.accepted() == old(
                state,
            ).sender.accepted()
        },
{
}

/// What the parser finds in a message is handed to the channel once; where it finds nothing,
/// nothing changes. Nothing is asked for, and the next handler always sees the message.
pub proof fn what_is_found_is_handed_over_once<T, P: MessageParser<T>>(
    ws: &mut Outbox,
    state: &mut ForwarderState<T>,
    msg: &Message,
    parser: &P,
    reply: Result<HandlerOutcome>,
)
    requires
        call_ensures(forward_messages, (old(ws), old(state), msg, parser), reply),
    ensures
        exists|parsed: Option<T>|
            {
                &&& #[trigger] call_ensures(P::parse, (parser, msg), parsed)
                &&& parsed is None ==> *final(state) == *old(state)
                &&& parsed matches Some(value) ==> {
                    &&& final(state).sender.channel() == old(state).sender.channel()
                    &&& final(state).sender.handed() == old(state).sender.handed().push(value)
                    &&& exists|answer: Result<(), SendError<T>>|
                        {
                            &&& #[trigger] call_ensures(
                                UnboundedSender::<T>::send,
                                (&old(state).sender.channel(), value),
                                answer,
                            )
                            &&& final(state).sender.accepted() == if answer is Ok {
                                old(state).sender.accepted().push(value)
                            } else {
                                old(state).sender.accepted()
                            }
                        }
                }
            },
        final(ws)@ == old(ws)@,
        reply == Ok::<HandlerOutcome, anyhow::Error>(HandlerOutcome::Continue),
{
    let (parsed, accepted) = choose|parsed: Option<T>, accepted: bool|
        {
            &&& call_ensures(P::parse, (parser, msg), parsed)
            &&& #[trigger] old(state).forwards(parsed, accepted, *final(state))
        };
    assert(call_ensures(P::parse, (parser, msg), parsed));
    if let Some(value) = parsed {
        assert(may_answer(old(state).sender.channel(), value, accepted));
    }
}

} // verus!
