//! Sends a list of subscriptions, once.

use crate::message::{Message, MessageView};
use crate::outbox;
use crate::outbox::{EffectView, Outbox};
use vstd::prelude::*;

verus! {

/// The subscriptions to send, and whether they have been sent.
#[derive(Debug)]
pub struct SubscriptionState {
    pub subscriptions: Vec<String>,
    pub subscribed: bool,
}

impl Clone for SubscriptionState {
    fn clone(&self) -> (copy: Self)
        ensures
            copy.subscriptions@ == self.subscriptions@,
            copy.subscribed == self.subscribed,
    {
        Self { subscriptions: self.subscriptions.clone(), subscribed: self.subscribed }
    }
}

impl Default for SubscriptionState {
    /// Nothing to send, and not subscribed.
    fn default() -> (state: Self)
        ensures
            state.subscriptions@.len() == 0,
            !state.subscribed,
    {
        Self { subscriptions: vec![], subscribed: false }
    }
}

/// Each subscription shown and sent, in order.
pub open spec fn subscribe_all(subscriptions: Seq<String>) -> Seq<EffectView> {
    Seq::new(
        2 * subscriptions.len(),
        |i: int|
            {
                let sub = subscriptions[i / 2]@;
                if i % 2 == 0 {
                    EffectView::Print("📡 Subscribing: "@ + sub)
                } else {
                    EffectView::Send(MessageView::Text(sub))
                }
            },
    )
}

impl SubscriptionState {
    /// What a trigger asks for: every subscription, unless they have been sent before.
    pub open spec fn effects(self) -> Seq<EffectView> {
        if self.subscribed {
            Seq::empty()
        } else {
            subscribe_all(self.subscriptions@)
        }
    }

    /// The state after a trigger. Subscriptions that are there count as sent, without
    /// waiting for an answer; where there are none, more may still be added and sent.
    pub open spec fn next(self) -> SubscriptionState {
        SubscriptionState {
            subscriptions: self.subscriptions,
            subscribed: self.subscribed || self.subscriptions@.len() > 0,
        }
    }

    /// The state after `triggers` triggers.
    pub open spec fn after(self, triggers: nat) -> SubscriptionState
        decreases triggers,
    {
        if triggers == 0 {
            self
        } else {
            self.after((triggers - 1) as nat).next()
        }
    }

    /// What `triggers` triggers ask for together.
    pub open spec fn effects_of(self, triggers: nat) -> Seq<EffectView>
        decreases triggers,
    {
        if triggers == 0 {
            Seq::empty()
        } else {
            self.effects_of((triggers - 1) as nat) + self.after((triggers - 1) as nat).effects()
        }
    }
}

/// Sends every subscription in order, unless they have been sent before.
pub fn send_subscriptions(ws: &mut Outbox, state: &mut SubscriptionState, _trigger: ())
    ensures
        final(ws)@ == old(ws)@ + old(state).effects(),
        *final(state) == old(state).next(),
{
    if !state.subscribed && state.subscriptions.len() > 0 {
        let ghost before = ws@;
        let ghost subs = state.subscriptions@;
        let count: usize = state.subscriptions.len();
        let mut i: usize = 0;
        assert(ws@ == before + subscribe_all(subs.take(0)));
        while i < count
            invariant
                i <= count,
                count == subs.len(),
                subs == state.subscriptions@,
                *state == *old(state),
                ws@ == before + subscribe_all(subs.take(i as int)),
            decreases count - i,
        {
            let sub = &state.subscriptions[i];
            ws.print(outbox::labelled("📡 Subscribing: ", sub.as_str()));
            ws.send(Message::Text(sub.clone()));
            proof {
                subscribe_one_more(subs, i as int);
            }
            i = i + 1;
        }
        assert(subs.take(count as int) == subs);
        state.subscribed = true;
    }
}

/// What the first `n + 1` subscriptions ask for, from what the first `n` do.
proof fn subscribe_one_more(subs: Seq<String>, n: int)
    requires
        0 <= n < subs.len(),
    ensures
        subscribe_all(subs.take(n + 1)) == subscribe_all(subs.take(n)).push(
            EffectView::Print("📡 Subscribing: "@ + subs[n]@),
        ).push(EffectView::Send(MessageView::Text(subs[n]@))),
{
    let longer = subscribe_all(subs.take(n + 1));
    let shorter = subscribe_all(subs.take(n));
    assert forall|i: int| 0 <= i < shorter.len() implies longer[i] == shorter[i] by {
        assert(subs.take(n + 1)[i / 2] == subs.take(n)[i / 2]);
    }
}

/// However often it is triggered, subscribing asks for no more than the first trigger
/// does, and leaves the state that the first trigger leaves.
pub proof fn subscriptions_are_sent_once(state: SubscriptionState, triggers: nat)
    requires
        triggers > 0,
    ensures
        state.effects_of(triggers) == state.effects(),
        state.after(triggers) == state.next(),
    decreases triggers,
{
    if triggers == 1 {
        assert(state.after(0) == state);
        assert(state.effects_of(0) == Seq::<EffectView>::empty());
    } else {
        subscriptions_are_sent_once(state, (triggers - 1) as nat);
    }
}

/// A trigger sends each subscription as one text message, in order, and nothing else,
/// if they have not been sent yet.
pub proof fn subscriptions_are_sent_in_order(state: SubscriptionState)
    ensures
        outbox::sent_messages(state.effects()) == (if state.subscribed {
            Seq::empty()
        } else {
            state.subscriptions@.map_values(|sub: String| MessageView::Text(sub@))
        }),
{
    if !state.subscribed {
        sent_by_first(state.subscriptions@, state.subscriptions@.len());
        assert(state.subscriptions@.take(state.subscriptions@.len() as int)
            == state.subscriptions@);
    }
}

/// What the first `n` subscriptions send.
proof fn sent_by_first(subs: Seq<String>, n: nat)
    requires
        n <= subs.len(),
    ensures
        outbox::sent_messages(subscribe_all(subs.take(n as int))) == subs.take(
            n as int,
        ).map_values(|sub: String| MessageView::Text(sub@)),
    decreases n,
{
    if n > 0 {
        let m = (n - 1) as nat;
        sent_by_first(subs, m);
        subscribe_one_more(subs, m as int);
        let shorter = subscribe_all(subs.take(m as int));
        let shown = shorter.push(EffectView::Print("📡 Subscribing: "@ + subs[m as int]@));
        let longer = shown.push(EffectView::Send(MessageView::Text(subs[m as int]@)));
        assert(longer.drop_last() == shown);
        assert(shown.drop_last() == shorter);
        assert(outbox::sent_messages(shown) == outbox::sent_messages(shorter));
        assert(subs.take(n as int) == subs.take(m as int).push(subs[m as int]));
        assert(outbox::sent_messages(longer) == outbox::sent_messages(shown).push(
            MessageView::Text(subs[m as int]@),
        ));
    }
}

/// A trigger marks the session subscribed if there are subscriptions, and otherwise leaves
/// it as it was. The subscriptions stay.
pub proof fn a_trigger_subscribes_and_keeps_the_list(ws: &mut Outbox, state: &mut SubscriptionState)
    requires
        call_ensures(send_subscriptions, (old(ws), old(state), ()), ()),
    ensures
        final(state).subscriptions == old(state).subscriptions,
        old(state).subscriptions@.len() > 0 ==> final(state).subscribed,
        old(state).subscriptions@.len() == 0 ==> final(state).subscribed == old(state).subscribed,
{
}

/// Where the session was not subscribed, a trigger shows and then sends every subscription,
/// whole and in order, after what was asked for before, and asks for nothing else. Where it
/// was, a trigger asks for nothing.
pub proof fn every_subscription_is_shown_and_sent(ws: &mut Outbox, state: &mut SubscriptionState)
    requires
        call_ensures(send_subscriptions, (old(ws), old(state), ()), ()),
    ensures
        old(state).subscribed ==> final(ws)@ == old(ws)@,
        !old(state).subscribed ==> {
            let start = old(ws)@.len();
            let subs = old(state).subscriptions@;
            &&& final(ws)@.len() == start + 2 * subs.len()
            &&& final(ws)@.take(start as int) == old(ws)@
            &&& forall|i: int|
                0 <= i < subs.len() ==> {
                    &&& final(ws)@[start + 2 * i] == EffectView::Print(
                        "📡 Subscribing: "@ + (#[trigger] subs[i])@,
                    )
                    &&& final(ws)@[start + 2 * i + 1] == EffectView::Send(
                        MessageView::Text(subs[i]@),
                    )
                }
        },
{
    if !old(state).subscribed {
        let subs = old(state).subscriptions@;
        assert forall|i: int| 0 <= i < subs.len() implies {
            &&& final(ws)@[old(ws)@.len() + 2 * i] == EffectView::Print(
                "📡 Subscribing: "@ + (#[trigger] subs[i])@,
            )
            &&& final(ws)@[old(ws)@.len() + 2 * i + 1] == EffectView::Send(
                MessageView::Text(subs[i]@),
            )
        } by {
            assert((2 * i) / 2 == i && (2 * i + 1) / 2 == i);
        }
    }
}

/// A second trigger changes nothing: neither what is asked for nor the state.
pub proof fn a_second_trigger_changes_nothing(
    ws: &mut Outbox,
    state: &mut SubscriptionState,
    ws_again: &mut Outbox,
    state_again: &mut SubscriptionState,
)
    requires
        call_ensures(send_subscriptions, (old(ws), old(state), ()), ()),
        *old(ws_again) == *final(ws),
        *old(state_again) == *final(state),
        call_ensures(send_subscriptions, (old(ws_again), old(state_again), ()), ()),
    ensures
        final(ws_again)@ == final(ws)@,
        *final(state_again) == *final(state),
{
}

} // verus!
