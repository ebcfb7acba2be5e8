//! Handlers for incoming messages, and chains of them.
//!
//! A chain is a `frunk` list of handlers. Each message is offered to the handlers in
//! order, until one of them answers with something other than
//! [`HandlerOutcome::Continue`] or fails.
//!
//! [`chain`](crate::chain) says what this makes of lists of any length.
//!
//! A function or a closure of the right shape is a handler as it stands. Where such a
//! handler, or a list of them, is called, [`function_is_a_handler`] and
//! [`list_is_a_handler`] say that it can be called and what it does; what [`to_handler`]
//! gives out can always be called.
//!
//! A handler may answer differently each time, so the contracts speak of replies that
//! a call may give: `call_ensures(H::handle, (&h, state, msg), reply)` says that `h`,
//! called on `*state`, may leave `*final(state)` behind and answer `reply`.

use crate::message::Message;
use crate::types;
use crate::types::HandlerOutcome;
use anyhow::Result;
use frunk::{HCons, HNil};
use std::marker::PhantomData;
use vstd::prelude::*;

verus! {

/// Reacts to incoming messages, with a state of type `S`.
pub trait WsHandler<S> {
    /// Whether the handler can be called with every state and every message. It can,
    /// unless it says otherwise.
    open spec fn ready(&self) -> bool {
        true
    }

    fn handle(&self, state: &mut S, msg: &Message) -> Result<HandlerOutcome>
        requires
            self.ready(),
    ;
}

impl<F, S> WsHandler<S> for F where F: Fn(&mut S, &Message) -> Result<HandlerOutcome> {
    open spec fn ready(&self) -> bool {
        forall|state: &mut S, msg: &Message| #[trigger] call_requires(*self, (state, msg))
    }

    /// Does what the function does.
    fn handle(&self, state: &mut S, msg: &Message) -> (reply: Result<HandlerOutcome>)
        ensures
            exists|passed: &mut S|
                {
                    &&& *passed == *old(state)
                    &&& *final(passed) == *final(state)
                    &&& #[trigger] call_ensures(*self, (passed, msg), reply)
                },
    {
        self(state, msg)
    }
}

/// A function as a handler; see [`to_handler`].
#[verifier::reject_recursive_types(S)]
pub struct FnHandler<S, F> where F: Fn(&mut S, &Message) -> Result<HandlerOutcome> {
    function: F,
    state: PhantomData<S>,
}

impl<S, F> FnHandler<S, F> where F: Fn(&mut S, &Message) -> Result<HandlerOutcome> {
    /// The function can be called with every state and every message.
    #[verifier::type_invariant]
    spec fn callable(&self) -> bool {
        forall|state: &mut S, msg: &Message| #[trigger]
            call_requires(self.function, (state, msg))
    }

    /// The function that the handler calls.
    pub closed spec fn function(&self) -> F {
        self.function
    }
}

/// Makes a handler of a function that accepts every state and every message.
pub fn to_handler<S, F>(function: F) -> (handler: FnHandler<S, F>) where
    F: Fn(&mut S, &Message) -> Result<HandlerOutcome>,

    requires
        forall|state: &mut S, msg: &Message| #[trigger] call_requires(function, (state, msg)),
    ensures
        handler.function() == function,
        handler.ready(),
{
    FnHandler { function, state: PhantomData }
}

impl<S, F> WsHandler<S> for FnHandler<S, F> where
    F: Fn(&mut S, &Message) -> Result<HandlerOutcome>,
 {
    /// Does what the function does.
    fn handle(&self, state: &mut S, msg: &Message) -> (reply: Result<HandlerOutcome>)
        ensures
            exists|passed: &mut S|
                {
                    &&& *passed == *old(state)
                    &&& *final(passed) == *final(state)
                    &&& #[trigger] call_ensures(self.function(), (passed, msg), reply)
                },
    {
        proof {
            use_type_invariant(self);
            assert(self.function() == self.function);
        }
        (self.function)(state, msg)
    }
}

impl<S, Head, Tail> WsHandler<S> for HCons<Head, Tail> where
    Head: WsHandler<S>,
    Tail: WsHandler<S>,
 {
    open spec fn ready(&self) -> bool {
        self.head.ready() && self.tail.ready()
    }

    /// Offers the message to the head. If it continues, the tail sees the message with
    /// the state that the head left, and its reply is the chain's. If not, the tail is
    /// not called, and the head's reply is the chain's.
    fn handle(&self, state: &mut S, msg: &Message) -> (reply: Result<HandlerOutcome>)
        ensures
            exists|first: &mut S, head_reply: Result<HandlerOutcome>|
                {
                    &&& *first == *old(state)
                    &&& #[trigger] call_ensures(
                        <Head as WsHandler<S>>::handle,
                        (&self.head, first, msg),
                        head_reply,
                    )
                    &&& if types::continues(head_reply) {
                        exists|rest: &mut S|
                            {
                                &&& *rest == *final(first)
                                &&& #[trigger] call_ensures(
                                    <Tail as WsHandler<S>>::handle,
                                    (&self.tail, rest, msg),
                                    reply,
                                )
                                &&& *final(rest) == *final(state)
                            }
                    } else {
                        &&& reply == head_reply
                        &&& *final(first) == *final(state)
                    }
                },
    {
        match self.head.handle(state, msg)? {
            HandlerOutcome::Continue => self.tail.handle(state, msg),
            outcome => Ok(outcome),
        }
    }
}

impl<S> WsHandler<S> for HNil {
    /// Continues, and leaves the state as it is.
    fn handle(&self, _state: &mut S, _msg: &Message) -> (reply: Result<HandlerOutcome>)
        ensures
            *final(_state) == *old(_state),
            types::continues(reply),
    {
        Ok(HandlerOutcome::Continue)
    }
}

/// A function that accepts every state and every message is ready as a handler, and then
/// does what the function does.
pub proof fn function_is_a_handler<S, F>(function: F) where
    F: Fn(&mut S, &Message) -> Result<HandlerOutcome>,

    ensures
        WsHandler::<S>::ready(&function) <==> forall|state: &mut S, msg: &Message| #[trigger]
            call_requires(function, (state, msg)),
        forall|state: &mut S, msg: &Message, reply: Result<HandlerOutcome>| #[trigger]
            call_ensures(<F as WsHandler<S>>::handle, (&function, state, msg), reply)
                ==> exists|passed: &mut S|
                {
                    &&& *passed == *state
                    &&& *final(passed) == *final(state)
                    &&& #[trigger] call_ensures(function, (passed, msg), reply)
                },
{
}

/// A list is ready as a handler if and only if its head and its tail are, and then does
/// what its head does and, where that continues, its tail.
pub proof fn list_is_a_handler<S, Head, Tail>(list: HCons<Head, Tail>) where
    Head: WsHandler<S>,
    Tail: WsHandler<S>,

    ensures
        WsHandler::<S>::ready(&list) <==> WsHandler::<S>::ready(&list.head) && WsHandler::<
            S,
        >::ready(&list.tail),
        forall|state: &mut S, msg: &Message, reply: Result<HandlerOutcome>| #[trigger]
            call_ensures(
                <HCons<Head, Tail> as WsHandler<S>>::handle,
                (&list, state, msg),
                reply,
            ) ==> exists|first: &mut S, head_reply: Result<HandlerOutcome>|
                {
                    &&& *first == *state
                    &&& #[trigger] call_ensures(
                        <Head as WsHandler<S>>::handle,
                        (&list.head, first, msg),
                        head_reply,
                    )
                    &&& if types::continues(head_reply) {
                        exists|rest: &mut S|
                            {
                                &&& *rest == *final(first)
                                &&& #[trigger] call_ensures(
                                    <Tail as WsHandler<S>>::handle,
                                    (&list.tail, rest, msg),
                                    reply,
                                )
                                &&& *final(rest) == *final(state)
                            }
                    } else {
                        &&& reply == head_reply
                        &&& *final(first) == *final(state)
                    }
                },
{
}

/// A handler made of a function does what the function does, and can always be called.
pub proof fn a_made_handler_is_its_function<S, F>(
    function: F,
    handler: FnHandler<S, F>,
    state: &mut S,
    msg: &Message,
    reply: Result<HandlerOutcome>,
) where F: Fn(&mut S, &Message) -> Result<HandlerOutcome>
    requires
        call_ensures(to_handler::<S, F>, (function,), handler),
        call_ensures(<FnHandler<S, F> as WsHandler<S>>::handle, (&handler, old(state), msg), reply),
    ensures
        WsHandler::<S>::ready(&handler),
        exists|passed: &mut S|
            {
                &&& *passed == *old(state)
                &&& *final(passed) == *final(state)
                &&& #[trigger] call_ensures(function, (passed, msg), reply)
            },
{
}

/// The empty list can always be called.
pub proof fn the_empty_list_is_ready<S>(list: HNil)
    ensures
        WsHandler::<S>::ready(&list),
{
}

} // verus!
