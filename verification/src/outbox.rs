//! The effects that reactions ask for, in order.

use crate::message::{Message, MessageView};
use vstd::prelude::*;
use vstd::string::StringExecFns;

verus! {

/// Something the driver of a connection is asked to do.
#[derive(Debug, PartialEq, Eq)]
pub enum Effect {
    /// Show a line to the user.
    Print(String),
    /// Send a message to the peer. A failure to send is ignored.
    Send(Message),
}

/// The contents of an [`Effect`].
pub enum EffectView {
    Print(Seq<char>),
    Send(MessageView),
}

impl View for Effect {
    type V = EffectView;

    open spec fn view(&self) -> EffectView {
        match self {
            Effect::Print(line) => EffectView::Print(line@),
            Effect::Send(msg) => EffectView::Send(msg@),
        }
    }
}

impl Clone for Effect {
    fn clone(&self) -> (copy: Self)
        ensures
            copy@ == self@,
    {
        match self {
            Effect::Print(line) => Effect::Print(line.clone()),
            Effect::Send(msg) => Effect::Send(msg.clone()),
        }
    }
}

/// The effects asked for so far, the oldest first.
#[derive(Debug, PartialEq, Eq)]
pub struct Outbox {
    pub effects: Vec<Effect>,
}

impl View for Outbox {
    type V = Seq<EffectView>;

    open spec fn view(&self) -> Seq<EffectView> {
        self.effects@.map_values(|effect: Effect| effect@)
    }
}

impl Clone for Outbox {
    fn clone(&self) -> (copy: Self)
        ensures
            copy@ == self@,
    {
        let effects = self.effects.clone();
        assert forall|i: int| 0 <= i < effects@.len() implies #[trigger] effects@[i]@
            == self.effects@[i]@ by {
            assert(cloned(self.effects@[i], effects@[i]));
        }
        Outbox { effects }
    }
}

impl Outbox {
    /// An outbox that asks for nothing.
    pub fn new() -> (outbox: Outbox)
        ensures
            outbox@ == Seq::<EffectView>::empty(),
    {
        Outbox { effects: Vec::new() }
    }

    /// Asks for `line` to be shown.
    pub fn print(&mut self, line: String)
        ensures
            final(self)@ == old(self)@.push(EffectView::Print(line@)),
    {
        self.effects.push(Effect::Print(line));
    }

    /// Asks for `msg` to be sent.
    pub fn send(&mut self, msg: Message)
        ensures
            final(self)@ == old(self)@.push(EffectView::Send(msg@)),
    {
        self.effects.push(Effect::Send(msg));
    }
}

/// `prefix` followed by `text`.
pub(crate) fn labelled(prefix: &str, text: &str) -> (line: String)
    ensures
        line@ == prefix@ + text@,
{
    let mut line = prefix.to_owned();
    line.append(text);
    line
}

/// The messages that `effects` sends, in order.
pub open spec fn sent_messages(effects: Seq<EffectView>) -> Seq<MessageView>
    decreases effects.len(),
{
    if effects.len() == 0 {
        Seq::empty()
    } else {
        match effects.last() {
            EffectView::Send(msg) => sent_messages(effects.drop_last()).push(msg),
            EffectView::Print(_) => sent_messages(effects.drop_last()),
        }
    }
}

/// An outbox is viewed with every effect that it holds, in order, and with all that each
/// effect holds.
pub proof fn a_view_shows_every_effect(outbox: Outbox)
    ensures
        outbox@.len() == outbox.effects@.len(),
        forall|i: int|
            0 <= i < outbox.effects@.len() ==> match #[trigger] outbox.effects@[i] {
                Effect::Print(line) => outbox@[i] == EffectView::Print(line@),
                Effect::Send(msg) => outbox@[i] == EffectView::Send(msg@),
            },
{
}

/// Asking for a line adds that line at the end, and nothing else.
pub proof fn a_line_goes_to_the_end(outbox: &mut Outbox, line: String)
    requires
        call_ensures(Outbox::print, (old(outbox), line), ()),
    ensures
        final(outbox).effects@.len() == old(outbox).effects@.len() + 1,
        final(outbox).effects@.last() matches Effect::Print(added) && added@ == line@,
        final(outbox)@.drop_last() == old(outbox)@,
{
    assert(final(outbox)@.last() == final(outbox).effects@.last()@);
}

/// Asking for a message to be sent adds that message at the end, and nothing else.
pub proof fn a_message_goes_to_the_end(outbox: &mut Outbox, msg: Message)
    requires
        call_ensures(Outbox::send, (old(outbox), msg), ()),
    ensures
        final(outbox).effects@.len() == old(outbox).effects@.len() + 1,
        final(outbox).effects@.last() matches Effect::Send(added) && added@ == msg@,
        final(outbox)@.drop_last() == old(outbox)@,
{
    assert(final(outbox)@.last() == final(outbox).effects@.last()@);
}

/// A new outbox holds nothing.
pub proof fn a_new_outbox_is_empty(outbox: Outbox)
    requires
        call_ensures(Outbox::new, (), outbox),
    ensures
        outbox.effects@.len() == 0,
{
    assert(outbox@.len() == outbox.effects@.len());
}

/// A copy of an outbox asks for the same, in the same order.
pub proof fn a_copy_asks_for_the_same(outbox: Outbox, copy: Outbox)
    requires
        call_ensures(<Outbox as Clone>::clone, (&outbox,), copy),
    ensures
        copy.effects@.len() == outbox.effects@.len(),
        forall|i: int|
            0 <= i < outbox.effects@.len() ==> match (
                #[trigger] outbox.effects@[i],
                copy.effects@[i],
            ) {
                (Effect::Print(line), Effect::Print(copied)) => copied@ == line@,
                (Effect::Send(msg), Effect::Send(copied)) => copied@ == msg@,
                _ => false,
            },
{
    assert(copy@.len() == outbox@.len());
    assert forall|i: int| 0 <= i < outbox.effects@.len() implies match (
        #[trigger] outbox.effects@[i],
        copy.effects@[i],
    ) {
        (Effect::Print(line), Effect::Print(copied)) => copied@ == line@,
        (Effect::Send(msg), Effect::Send(copied)) => copied@ == msg@,
        _ => false,
    } by {
        assert(outbox@[i] == outbox.effects@[i]@);
        assert(copy@[i] == copy.effects@[i]@);
    }
}

/// What is sent in all is what each effect sends, in order: nothing by showing a line, and
/// just the message by sending one.
pub proof fn sent_is_what_each_effect_sends(
    effects: Seq<EffectView>,
    line: Seq<char>,
    msg: MessageView,
)
    ensures
        sent_messages(Seq::empty()) == Seq::<MessageView>::empty(),
        sent_messages(effects.push(EffectView::Print(line))) == sent_messages(effects),
        sent_messages(effects.push(EffectView::Send(msg))) == sent_messages(effects).push(msg),
{
    assert(effects.push(EffectView::Print(line)).drop_last() == effects);
    assert(effects.push(EffectView::Send(msg)).drop_last() == effects);
}

} // verus!
