//! Sends an authentication message, once.

use crate::message::{Message, MessageView};
use crate::outbox;
use crate::outbox::{EffectView, Outbox};
use vstd::prelude::*;

verus! {

/// The message that authenticates, if there is one, and whether it has been sent.
#[derive(Debug)]
pub struct AuthState {
    pub auth_message: Option<String>,
    pub authenticated: bool,
}

impl Clone for AuthState {
    fn clone(&self) -> (copy: Self)
        ensures
            copy == *self,
    {
        Self { auth_message: self.auth_message.clone(), authenticated: self.authenticated }
    }
}

impl Default for AuthState {
    /// Nothing to send, and not authenticated.
    fn default() -> (state: Self)
        ensures
            state.auth_message is None,
            !state.authenticated,
    {
        Self { auth_message: None, authenticated: false }
    }
}

impl AuthState {
    /// What a trigger asks for: the message is shown and sent, unless it has been sent
    /// before or there is none.
    pub open spec fn effects(self) -> Seq<EffectView> {
        match self.auth_message {
            Some(msg) if !self.authenticated => seq![
                EffectView::Print("🔐 Sending Auth: "@ + msg@),
                EffectView::Send(MessageView::Text(msg@)),
            ],
            _ => Seq::empty(),
        }
    }

    /// The state after a trigger. A message that is there counts as sent, without
    /// waiting for an answer.
    pub open spec fn next(self) -> AuthState {
        AuthState {
            auth_message: self.auth_message,
            authenticated: self.authenticated || self.auth_message is Some,
        }
    }

    /// The state after `triggers` triggers.
    pub open spec fn after(self, triggers: nat) -> AuthState
        decreases triggers,
    {
        if triggers == 0 {
            self
        } else {
            self.after((triggers - 1) as nat).next()
        }
    }

    /// What `triggers` triggers ask for together.
    pub open spec fn effects_of(self, triggers: nat) -> Seq<EffectView>
        decreases triggers,
    {
        if triggers == 0 {
            Seq::empty()
        } else {
            self.effects_of((triggers - 1) as nat) + self.after((triggers - 1) as nat).effects()
        }
    }
}

/// Sends the authentication message, unless it has been sent before.
pub fn send_auth(ws: &mut Outbox, state: &mut AuthState, _trigger: ())
    ensures
        final(ws)@ == old(ws)@ + old(state).effects(),
        *final(state) == old(state).next(),
{
    if !state.authenticated {
        if let Some(msg) = &state.auth_message {
            ws.print(outbox::labelled("🔐 Sending Auth: ", msg.as_str()));
            ws.send(Message::Text(msg.clone()));
            state.authenticated = true;
        }
    }
}

/// However often it is triggered, authentication asks for no more than the first
/// trigger does, and leaves the state that the first trigger leaves.
pub proof fn auth_is_sent_once(state: AuthState, triggers: nat)
    requires
        triggers > 0,
    ensures
        state.effects_of(triggers) == state.effects(),
        state.after(triggers) == state.next(),
    decreases triggers,
{
    if triggers == 1 {
        assert(state.after(0) == state);
        assert(state.effects_of(0) == Seq::<EffectView>::empty());
    } else {
        auth_is_sent_once(state, (triggers - 1) as nat);
    }
}

/// A trigger sends the authentication message and nothing else if it is due, and sends
/// nothing if it is not.
pub proof fn auth_sends_its_message(state: AuthState)
    ensures
        outbox::sent_messages(state.effects()) == (match state.auth_message {
            Some(msg) if !state.authenticated => seq![MessageView::Text(msg@)],
            _ => Seq::empty(),
        }),
{
    reveal_with_fuel(outbox::sent_messages, 3);
    if !state.authenticated && state.auth_message is Some {
        let effects = state.effects();
        assert(effects.drop_last() == seq![effects[0]]);
        assert(effects.drop_last().drop_last() == Seq::<EffectView>::empty());
        assert(outbox::sent_messages(effects) == seq![
            MessageView::Text(state.auth_message->Some_0@),
        ]);
    }
}

/// A trigger marks the session authenticated if there is a message, and otherwise leaves it
/// as it was. The message stays, so that it can be sent again on another connection.
pub proof fn a_trigger_authenticates_and_keeps_the_message(ws: &mut Outbox, state: &mut AuthState)
    requires
        call_ensures(send_auth, (old(ws), old(state), ()), ()),
    ensures
        final(state).auth_message == old(state).auth_message,
        old(state).auth_message is Some ==> final(state).authenticated,
        old(state).auth_message is None ==> final(state).authenticated == old(state).authenticated,
{
}

/// A trigger shows and sends the whole message where the session was not authenticated, and
/// asks for nothing where it was or where there is no message.
pub proof fn the_whole_message_is_shown_and_sent(ws: &mut Outbox, state: &mut AuthState)
    requires
        call_ensures(send_auth, (old(ws), old(state), ()), ()),
    ensures
        old(state).authenticated || old(state).auth_message is None ==> final(ws)@ == old(ws)@,
        !old(state).authenticated && old(state).auth_message is Some ==> final(ws)@ == old(
            ws,
        )@.push(EffectView::Print("🔐 Sending Auth: "@ + old(state).auth_message->Some_0@)).push(
            EffectView::Send(MessageView::Text(old(state).auth_message->Some_0@)),
        ),
{
}

/// A second trigger changes nothing: neither what is asked for nor the state.
pub proof fn a_second_trigger_changes_nothing(
    ws: &mut Outbox,
    state: &mut AuthState,
    ws_again: &mut Outbox,
    state_again: &mut AuthState,
)
    requires
        call_ensures(send_auth, (old(ws), old(state), ()), ()),
        *old(ws_again) == *final(ws),
        *old(state_again) == *final(state),
        call_ensures(send_auth, (old(ws_again), old(state_again), ()), ()),
    ensures
        final(ws_again)@ == final(ws)@,
        *final(state_again) == *final(state),
{
}

/// Once the session is marked not authenticated, as for a new connection, the next trigger
/// sends the same message again.
pub proof fn the_message_can_be_sent_again(
    ws: &mut Outbox,
    state: &mut AuthState,
    ws_again: &mut Outbox,
    state_again: &mut AuthState,
)
    requires
        call_ensures(send_auth, (old(ws), old(state), ()), ()),
        old(state_again).auth_message == final(state).auth_message,
        !old(state_again).authenticated,
        call_ensures(send_auth, (old(ws_again), old(state_again), ()), ()),
    ensures
        old(state).auth_message matches Some(msg) ==> {
            &&& final(ws_again)@.last() == EffectView::Send(MessageView::Text(msg@))
            &&& final(state_again).authenticated
        },
{
}

} // verus!
