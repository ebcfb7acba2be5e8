//! What chains of handlers do, whatever their length.

use crate::handler::WsHandler;
use crate::message::Message;
use crate::types;
use crate::types::HandlerOutcome;
use anyhow::Result;
use frunk::{HCons, HNil};
use vstd::prelude::*;

verus! {

/// What happens when a list of handlers is called: the replies of the handlers that are
/// called, in order, and the states around the calls, from the first to the last.
pub struct Trace<S> {
    pub states: Seq<S>,
    pub replies: Seq<Result<HandlerOutcome>>,
}

impl<S> Trace<S> {
    /// Whether the handler at `i` is called.
    pub open spec fn called(self, i: int) -> bool {
        0 <= i < self.replies.len()
    }

    /// Whether the trace leads a list of `handlers` handlers from `before` to `after` and
    /// to `reply`. Every handler that is called, but the last of them, continues. The
    /// reply is that of the last one, or to continue where none is called. Every handler
    /// is called, unless the last one called does not continue.
    pub open spec fn leads(
        self,
        handlers: nat,
        before: S,
        after: S,
        reply: Result<HandlerOutcome>,
    ) -> bool {
        &&& self.states.len() == self.replies.len() + 1
        &&& self.states.first() == before
        &&& self.states.last() == after
        &&& forall|i: int| #[trigger]
            self.called(i) && i + 1 < self.replies.len() ==> types::continues(self.replies[i])
        &&& if self.replies.len() == 0 {
            types::continues(reply)
        } else {
            reply == self.replies.last()
        }
        &&& self.replies.len() <= handlers
        &&& types::continues(reply) ==> self.replies.len() == handlers
    }
}

/// A list of handlers, seen as the calls that it can make.
pub trait HandlerList<S>: WsHandler<S> {
    /// Of each handler, in order: whether a call with this state and this message may
    /// give this reply.
    spec fn calls(&self) -> Seq<spec_fn(&mut S, &Message, Result<HandlerOutcome>) -> bool>;

    /// Where the list takes the state from `before` to `after` and answers `reply`, it
    /// has called its handlers as [`list_calls_up_to_the_first_refusal`] says.
    proof fn has_trace(
        &self,
        before: S,
        after: S,
        msg: &Message,
        reply: Result<HandlerOutcome>,
    )
        requires
            exists|state: &mut S|
                {
                    &&& *state == before
                    &&& *final(state) == after
                    &&& #[trigger] call_ensures(<Self as WsHandler<S>>::handle, (self, state, msg), reply)
                },
        ensures
            exists|trace: Trace<S>|
                {
                    &&& #[trigger] trace.leads(self.calls().len(), before, after, reply)
                    &&& forall|i: int| #[trigger]
                        trace.called(i) ==> exists|passed: &mut S|
                            {
                                &&& *passed == trace.states[i]
                                &&& *final(passed) == trace.states[i + 1]
                                &&& #[trigger] self.calls()[i](passed, msg, trace.replies[i])
                            }
                },
    ;
}

impl<S> HandlerList<S> for HNil {
    open spec fn calls(&self) -> Seq<spec_fn(&mut S, &Message, Result<HandlerOutcome>) -> bool> {
        Seq::empty()
    }

    proof fn has_trace(
        &self,
        before: S,
        after: S,
        msg: &Message,
        reply: Result<HandlerOutcome>,
    ) {
        let trace = Trace { states: seq![before], replies: Seq::empty() };
        assert(trace.leads(HandlerList::<S>::calls(self).len(), before, after, reply));
    }
}

impl<S, Head, Tail> HandlerList<S> for HCons<Head, Tail> where
    Head: WsHandler<S>,
    Tail: HandlerList<S>,
 {
    open spec fn calls(&self) -> Seq<spec_fn(&mut S, &Message, Result<HandlerOutcome>) -> bool> {
        seq![
            |state: &mut S, msg: &Message, reply: Result<HandlerOutcome>|
                call_ensures(<Head as WsHandler<S>>::handle, (&self.head, state, msg), reply),
        ] + self.tail.calls()
    }

    proof fn has_trace(
        &self,
        before: S,
        after: S,
        msg: &Message,
        reply: Result<HandlerOutcome>,
    ) {
        let (first, head_reply) = choose|first: &mut S, head_reply: Result<HandlerOutcome>|
            {
                &&& *first == before
                &&& #[trigger] call_ensures(
                    <Head as WsHandler<S>>::handle,
                    (&self.head, first, msg),
                    head_reply,
                )
                &&& if types::continues(head_reply) {
                    exists|rest: &mut S|
                        {
                            &&& *rest == *final(first)
                            &&& #[trigger] call_ensures(
                                <Tail as WsHandler<S>>::handle,
                                (&self.tail, rest, msg),
                                reply,
                            )
                            &&& *final(rest) == after
                        }
                } else {
                    &&& reply == head_reply
                    &&& *final(first) == after
                }
            };
        assert(self.calls()[0](first, msg, head_reply));
        if types::continues(head_reply) {
            let middle = *final(first);
            self.tail.has_trace(middle, after, msg, reply);
            let rest = choose|trace: Trace<S>|
                {
                    &&& #[trigger] trace.leads(self.tail.calls().len(), middle, after, reply)
                    &&& forall|i: int| #[trigger]
                        trace.called(i) ==> exists|passed: &mut S|
                            {
                                &&& *passed == trace.states[i]
                                &&& *final(passed) == trace.states[i + 1]
                                &&& #[trigger] self.tail.calls()[i](passed, msg, trace.replies[i])
                            }
                };
            let trace = Trace {
                states: seq![before] + rest.states,
                replies: seq![head_reply] + rest.replies,
            };
            assert forall|i: int| #[trigger] trace.called(i) implies {
                &&& i + 1 < trace.replies.len() ==> types::continues(trace.replies[i])
                &&& exists|passed: &mut S|
                    {
                        &&& *passed == trace.states[i]
                        &&& *final(passed) == trace.states[i + 1]
                        &&& #[trigger] self.calls()[i](passed, msg, trace.replies[i])
                    }
            } by {
                if i == 0 {
                    assert(*final(first) == trace.states[i + 1]);
                    assert(self.calls()[i](first, msg, trace.replies[i]));
                } else {
                    let j = i - 1;
                    assert(rest.called(j));
                    let passed = choose|passed: &mut S|
                        {
                            &&& *passed == rest.states[j]
                            &&& *final(passed) == rest.states[j + 1]
                            &&& #[trigger] self.tail.calls()[j](passed, msg, rest.replies[j])
                        };
                    assert(self.calls()[i](passed, msg, trace.replies[i]));
                }
            }
            assert(trace.leads(self.calls().len(), before, after, reply));
        } else {
            let trace = Trace { states: seq![before, after], replies: seq![head_reply] };
            assert(trace.leads(self.calls().len(), before, after, reply));
        }
    }
}

/// The calls that a list can make are those of its head, and then those of its tail.
pub proof fn calls_of_head_and_tail<S, Head, Tail>(list: HCons<Head, Tail>) where
    Head: WsHandler<S>,
    Tail: HandlerList<S>,

    ensures
        list.calls().len() == list.tail.calls().len() + 1,
        forall|state: &mut S, msg: &Message, reply: Result<HandlerOutcome>| #[trigger]
            list.calls()[0](state, msg, reply) <==> call_ensures(
                <Head as WsHandler<S>>::handle,
                (&list.head, state, msg),
                reply,
            ),
        list.calls().drop_first() == list.tail.calls(),
{
}

/// A list of any length calls its handlers in order, each once and all with the same
/// message, each with the state that the one before it left, up to and with the first that
/// does not continue. The list's reply is that of the last handler called, and its state
/// the one that this handler left. The list continues if and only if every handler was
/// called and continued.
pub proof fn list_calls_up_to_the_first_refusal<S, L>(
    list: L,
    before: S,
    after: S,
    msg: &Message,
    reply: Result<HandlerOutcome>,
) where L: HandlerList<S>
    requires
        exists|state: &mut S|
            {
                &&& *state == before
                &&& *final(state) == after
                &&& #[trigger] call_ensures(<L as WsHandler<S>>::handle, (&list, state, msg), reply)
            },
    ensures
        exists|trace: Trace<S>|
            {
                &&& #[trigger] trace.leads(list.calls().len(), before, after, reply)
                &&& forall|i: int| #[trigger]
                    trace.called(i) ==> exists|passed: &mut S|
                        {
                            &&& *passed == trace.states[i]
                            &&& *final(passed) == trace.states[i + 1]
                            &&& #[trigger] list.calls()[i](passed, msg, trace.replies[i])
                        }
                &&& types::continues(reply) <==> {
                    &&& trace.replies.len() == list.calls().len()
                    &&& forall|i: int| #[trigger]
                        trace.called(i) ==> types::continues(trace.replies[i])
                }
                &&& trace.states.len() == trace.replies.len() + 1
                &&& trace.states[0] == before
                &&& trace.states[trace.replies.len() as int] == after
                &&& trace.replies.len() <= list.calls().len()
                &&& trace.replies.len() < list.calls().len() ==> {
                    &&& trace.replies.len() > 0
                    &&& reply != Ok::<HandlerOutcome, anyhow::Error>(HandlerOutcome::Continue)
                }
                &&& trace.replies.len() > 0 ==> reply == trace.replies[trace.replies.len() - 1]
                &&& trace.replies.len() == 0 ==> reply == Ok::<HandlerOutcome, anyhow::Error>(
                    HandlerOutcome::Continue,
                )
                &&& forall|i: int|
                    0 <= i < trace.replies.len() - 1 ==> #[trigger] trace.replies[i]
                        == Ok::<HandlerOutcome, anyhow::Error>(HandlerOutcome::Continue)
            },
{
    list.has_trace(before, after, msg, reply);
    let trace = choose|trace: Trace<S>|
        {
            &&& #[trigger] trace.leads(list.calls().len(), before, after, reply)
            &&& forall|i: int| #[trigger]
                trace.called(i) ==> exists|passed: &mut S|
                    {
                        &&& *passed == trace.states[i]
                        &&& *final(passed) == trace.states[i + 1]
                        &&& #[trigger] list.calls()[i](passed, msg, trace.replies[i])
                    }
        };
    assert(trace.leads(list.calls().len(), before, after, reply));
    if trace.replies.len() > 0 {
        assert(trace.called(trace.replies.len() - 1));
    }
    assert forall|i: int| 0 <= i < trace.replies.len() - 1 implies #[trigger] trace.replies[i]
        == Ok::<HandlerOutcome, anyhow::Error>(HandlerOutcome::Continue) by {
        assert(trace.called(i));
    }
}

/// A list whose head is itself a list does what the flat list of the handlers of both does.
pub proof fn nested_list_is_the_flat_list<S, First, Rest>(
    list: HCons<First, Rest>,
    before: S,
    after: S,
    msg: &Message,
    reply: Result<HandlerOutcome>,
) where First: HandlerList<S>, Rest: HandlerList<S>
    requires
        exists|state: &mut S|
            {
                &&& *state == before
                &&& *final(state) == after
                &&& #[trigger] call_ensures(<HCons<First, Rest> as WsHandler<S>>::handle, (&list, state, msg), reply)
            },
    ensures
        exists|trace: Trace<S>|
            {
                &&& #[trigger] trace.leads((list.head.calls() + list.tail.calls()).len(), before, after, reply)
                &&& forall|i: int| #[trigger]
                    trace.called(i) ==> exists|passed: &mut S|
                        {
                            &&& *passed == trace.states[i]
                            &&& *final(passed) == trace.states[i + 1]
                            &&& #[trigger] (list.head.calls() + list.tail.calls())[i](passed, msg, trace.replies[i])
                        }
            },
{
    let flat = list.head.calls() + list.tail.calls();
    let (first, head_reply) = choose|first: &mut S, head_reply: Result<HandlerOutcome>|
        {
            &&& *first == before
            &&& #[trigger] call_ensures(
                <First as WsHandler<S>>::handle,
                (&list.head, first, msg),
                head_reply,
            )
            &&& if types::continues(head_reply) {
                exists|rest: &mut S|
                    {
                        &&& *rest == *final(first)
                        &&& #[trigger] call_ensures(
                            <Rest as WsHandler<S>>::handle,
                            (&list.tail, rest, msg),
                            reply,
                        )
                        &&& *final(rest) == after
                    }
            } else {
                &&& reply == head_reply
                &&& *final(first) == after
            }
        };
    let middle = *final(first);
    list.head.has_trace(before, middle, msg, head_reply);
    let head = choose|trace: Trace<S>|
        {
            &&& #[trigger] trace.leads(list.head.calls().len(), before, middle, head_reply)
            &&& forall|i: int| #[trigger]
                trace.called(i) ==> exists|passed: &mut S|
                    {
                        &&& *passed == trace.states[i]
                        &&& *final(passed) == trace.states[i + 1]
                        &&& #[trigger] list.head.calls()[i](passed, msg, trace.replies[i])
                    }
        };
    let called = head.replies.len() as int;
    if types::continues(head_reply) {
        list.tail.has_trace(middle, after, msg, reply);
        let tail = choose|trace: Trace<S>|
            {
                &&& #[trigger] trace.leads(list.tail.calls().len(), middle, after, reply)
                &&& forall|i: int| #[trigger]
                    trace.called(i) ==> exists|passed: &mut S|
                        {
                            &&& *passed == trace.states[i]
                            &&& *final(passed) == trace.states[i + 1]
                            &&& #[trigger] list.tail.calls()[i](passed, msg, trace.replies[i])
                        }
            };
        let trace = Trace {
            states: head.states.drop_last() + tail.states,
            replies: head.replies + tail.replies,
        };
        assert forall|i: int| #[trigger] trace.called(i) implies {
            &&& i + 1 < trace.replies.len() ==> types::continues(trace.replies[i])
            &&& exists|passed: &mut S|
                {
                    &&& *passed == trace.states[i]
                    &&& *final(passed) == trace.states[i + 1]
                    &&& #[trigger] flat[i](passed, msg, trace.replies[i])
                }
        } by {
            if i < called {
                assert(head.called(i));
                let passed = choose|passed: &mut S|
                    {
                        &&& *passed == head.states[i]
                        &&& *final(passed) == head.states[i + 1]
                        &&& #[trigger] list.head.calls()[i](passed, msg, head.replies[i])
                    };
                assert(flat[i](passed, msg, trace.replies[i]));
            } else {
                let j = i - called;
                assert(tail.called(j));
                let passed = choose|passed: &mut S|
                    {
                        &&& *passed == tail.states[j]
                        &&& *final(passed) == tail.states[j + 1]
                        &&& #[trigger] list.tail.calls()[j](passed, msg, tail.replies[j])
                    };
                assert(flat[i](passed, msg, trace.replies[i]));
            }
        }
        assert(trace.leads(flat.len(), before, after, reply));
    } else {
        assert forall|i: int| #[trigger] head.called(i) implies exists|passed: &mut S|
            {
                &&& *passed == head.states[i]
                &&& *final(passed) == head.states[i + 1]
                &&& #[trigger] flat[i](passed, msg, head.replies[i])
            }
        by {
            let passed = choose|passed: &mut S|
                {
                    &&& *passed == head.states[i]
                    &&& *final(passed) == head.states[i + 1]
                    &&& #[trigger] list.head.calls()[i](passed, msg, head.replies[i])
                };
            assert(flat[i](passed, msg, head.replies[i]));
        }
        assert(head.leads(flat.len(), before, after, reply));
    }
}

/// An empty list in front changes nothing: the list does what its tail does.
pub proof fn empty_list_in_front_changes_nothing<S, Tail>(
    list: HCons<HNil, Tail>,
    before: S,
    after: S,
    msg: &Message,
    reply: Result<HandlerOutcome>,
) where Tail: WsHandler<S>
    requires
        exists|state: &mut S|
            {
                &&& *state == before
                &&& *final(state) == after
                &&& #[trigger] call_ensures(<HCons<HNil, Tail> as WsHandler<S>>::handle, (&list, state, msg), reply)
            },
    ensures
        exists|rest: &mut S|
            {
                &&& *rest == before
                &&& *final(rest) == after
                &&& #[trigger] call_ensures(
                    <Tail as WsHandler<S>>::handle,
                    (&list.tail, rest, msg),
                    reply,
                )
            },
{
}

/// Where the head cannot continue, the chain does not either, and does just what the
/// head does: the tail leaves no trace in the state or in the reply.
pub proof fn chain_ends_where_the_head_ends_it<S, Head, Tail>(
    chain: HCons<Head, Tail>,
    state: &mut S,
    msg: &Message,
    reply: Result<HandlerOutcome>,
) where Head: WsHandler<S>, Tail: WsHandler<S>
    requires
        call_ensures(<HCons<Head, Tail> as WsHandler<S>>::handle, (&chain, old(state), msg), reply),
        forall|first: &mut S, head_reply: Result<HandlerOutcome>|
            *first == *old(state) && #[trigger] call_ensures(
                <Head as WsHandler<S>>::handle,
                (&chain.head, first, msg),
                head_reply,
            ) ==> !types::continues(head_reply),
    ensures
        !types::continues(reply),
        exists|first: &mut S|
            {
                &&& *first == *old(state)
                &&& *final(first) == *final(state)
                &&& #[trigger] call_ensures(
                    <Head as WsHandler<S>>::handle,
                    (&chain.head, first, msg),
                    reply,
                )
            },
{
}

/// A chain continues only where its head and its tail both do, the tail with the state
/// that the head left.
pub proof fn chain_continues_only_through_all<S, Head, Tail>(
    chain: HCons<Head, Tail>,
    state: &mut S,
    msg: &Message,
    reply: Result<HandlerOutcome>,
) where Head: WsHandler<S>, Tail: WsHandler<S>
    requires
        call_ensures(<HCons<Head, Tail> as WsHandler<S>>::handle, (&chain, old(state), msg), reply),
        types::continues(reply),
    ensures
        exists|first: &mut S, rest: &mut S|
            {
                &&& *first == *old(state)
                &&& #[trigger] call_ensures(
                    <Head as WsHandler<S>>::handle,
                    (&chain.head, first, msg),
                    reply,
                )
                &&& *rest == *final(first)
                &&& #[trigger] call_ensures(
                    <Tail as WsHandler<S>>::handle,
                    (&chain.tail, rest, msg),
                    reply,
                )
                &&& *final(rest) == *final(state)
            },
{
}

/// A chain whose head and tail always continue always continues.
pub proof fn chain_continues_where_all_do<S, Head, Tail>(
    chain: HCons<Head, Tail>,
    state: &mut S,
    msg: &Message,
    reply: Result<HandlerOutcome>,
) where Head: WsHandler<S>, Tail: WsHandler<S>
    requires
        call_ensures(<HCons<Head, Tail> as WsHandler<S>>::handle, (&chain, old(state), msg), reply),
        forall|first: &mut S, head_reply: Result<HandlerOutcome>| #[trigger]
            call_ensures(<Head as WsHandler<S>>::handle, (&chain.head, first, msg), head_reply)
                ==> types::continues(head_reply),
        forall|rest: &mut S, tail_reply: Result<HandlerOutcome>| #[trigger]
            call_ensures(<Tail as WsHandler<S>>::handle, (&chain.tail, rest, msg), tail_reply)
                ==> types::continues(tail_reply),
    ensures
        types::continues(reply),
{
}

/// A chain fails only with an error that its head gave, or that its tail gave after the
/// head had continued, and passes it on unchanged.
pub proof fn chain_passes_errors_on<S, Head, Tail>(
    chain: HCons<Head, Tail>,
    state: &mut S,
    msg: &Message,
    error: anyhow::Error,
) where Head: WsHandler<S>, Tail: WsHandler<S>
    requires
        call_ensures(
            <HCons<Head, Tail> as WsHandler<S>>::handle,
            (&chain, old(state), msg),
            Err::<HandlerOutcome, anyhow::Error>(error),
        ),
    ensures
        ({
            ||| exists|first: &mut S|
                {
                    &&& *first == *old(state)
                    &&& *final(first) == *final(state)
                    &&& #[trigger] call_ensures(
                        <Head as WsHandler<S>>::handle,
                        (&chain.head, first, msg),
                        Err::<HandlerOutcome, anyhow::Error>(error),
                    )
                }
            ||| exists|first: &mut S, rest: &mut S|
                {
                    &&& *first == *old(state)
                    &&& #[trigger] call_ensures(
                        <Head as WsHandler<S>>::handle,
                        (&chain.head, first, msg),
                        Ok::<HandlerOutcome, anyhow::Error>(HandlerOutcome::Continue),
                    )
                    &&& *rest == *final(first)
                    &&& #[trigger] call_ensures(
                        <Tail as WsHandler<S>>::handle,
                        (&chain.tail, rest, msg),
                        Err::<HandlerOutcome, anyhow::Error>(error),
                    )
                    &&& *final(rest) == *final(state)
                }
        }),
{
}

/// A chain of one handler does what the handler does.
pub proof fn chain_of_one_is_its_handler<S, Head>(
    chain: HCons<Head, HNil>,
    state: &mut S,
    msg: &Message,
    reply: Result<HandlerOutcome>,
) where Head: WsHandler<S>
    requires
        call_ensures(<HCons<Head, HNil> as WsHandler<S>>::handle, (&chain, old(state), msg), reply),
    ensures
        exists|first: &mut S|
            {
                &&& *first == *old(state)
                &&& *final(first) == *final(state)
                &&& #[trigger] call_ensures(
                    <Head as WsHandler<S>>::handle,
                    (&chain.head, first, msg),
                    reply,
                )
            },
{
}

/// The tail is called if and only if the head answers to continue, with the state that the
/// head left. Where the head answers to reconnect, to stop or with an error, that is the
/// chain's reply, and the state is the one that the head left.
pub proof fn only_continue_reaches_the_tail<S, Head, Tail>(
    chain: HCons<Head, Tail>,
    state: &mut S,
    msg: &Message,
    reply: Result<HandlerOutcome>,
) where Head: WsHandler<S>, Tail: WsHandler<S>
    requires
        call_ensures(<HCons<Head, Tail> as WsHandler<S>>::handle, (&chain, old(state), msg), reply),
    ensures
        exists|first: &mut S, head_reply: Result<HandlerOutcome>|
            {
                &&& *first == *old(state)
                &&& #[trigger] call_ensures(
                    <Head as WsHandler<S>>::handle,
                    (&chain.head, first, msg),
                    head_reply,
                )
                &&& match head_reply {
                    Ok(HandlerOutcome::Continue) => exists|rest: &mut S|
                        {
                            &&& *rest == *final(first)
                            &&& *final(rest) == *final(state)
                            &&& #[trigger] call_ensures(
                                <Tail as WsHandler<S>>::handle,
                                (&chain.tail, rest, msg),
                                reply,
                            )
                        },
                    Ok(HandlerOutcome::Reconnect) => {
                        &&& reply matches Ok(HandlerOutcome::Reconnect)
                        &&& *final(first) == *final(state)
                    },
                    Ok(HandlerOutcome::Stop) => {
                        &&& reply matches Ok(HandlerOutcome::Stop)
                        &&& *final(first) == *final(state)
                    },
                    Err(error) => {
                        &&& reply == Err::<HandlerOutcome, anyhow::Error>(error)
                        &&& *final(first) == *final(state)
                    },
                }
            },
{
}

/// The empty list answers to continue, and leaves the state as it is.
pub proof fn empty_list_continues<S>(
    list: HNil,
    state: &mut S,
    msg: &Message,
    reply: Result<HandlerOutcome>,
)
    requires
        call_ensures(<HNil as WsHandler<S>>::handle, (&list, old(state), msg), reply),
    ensures
        *final(state) == *old(state),
        reply matches Ok(HandlerOutcome::Continue),
{
}

} // verus!
