//! The sending half of a channel, with a record of what went into it.

use tokio::sync::mpsc::error::SendError;
use tokio::sync::mpsc::UnboundedSender;
use vstd::prelude::*;

verus! {

/// A handle to an unbounded channel. Its record is complete: it holds every value that went
/// through this handle, in order.
#[verifier::reject_recursive_types(T)]
pub struct Sender<T> {
    channel: UnboundedSender<T>,
    handed: Ghost<Seq<T>>,
    accepted: Ghost<Seq<T>>,
}

impl<T> Sender<T> {
    /// The channel.
    pub closed spec fn channel(self) -> UnboundedSender<T> {
        self.channel
    }

    /// The values handed to the channel through this handle, the oldest first.
    pub closed spec fn handed(self) -> Seq<T> {
        self.handed@
    }

    /// Those of them that the channel accepted, the oldest first.
    pub closed spec fn accepted(self) -> Seq<T> {
        self.accepted@
    }

    /// A handle through which nothing has been handed over yet.
    pub fn new(channel: UnboundedSender<T>) -> (sender: Sender<T>)
        ensures
            sender.channel() == channel,
            sender.handed() == Seq::<T>::empty(),
            sender.accepted() == Seq::<T>::empty(),
    {
        Sender { channel, handed: Ghost(Seq::empty()), accepted: Ghost(Seq::empty()) }
    }

    /// Hands `value` to the channel, and gives the channel's reply.
    pub fn send(&mut self, value: T) -> (reply: Result<(), SendError<T>>)
        ensures
            call_ensures(UnboundedSender::<T>::send, (&old(self).channel(), value), reply),
            reply matches Err(refused) ==> refused.0 == value,
            final(self).channel() == old(self).channel(),
            final(self).handed() == old(self).handed().push(value),
            final(self).accepted() == (if reply is Ok {
                old(self).accepted().push(value)
            } else {
                old(self).accepted()
            }),
    {
        let ghost handed = value;
        let reply = self.channel.send(value);
        proof {
            self.handed@ = self.handed@.push(handed);
            if reply is Ok {
                self.accepted@ = self.accepted@.push(handed);
            }
        }
        reply
    }
}

impl<T: Clone> Clone for Sender<T> {
    /// Another handle to the same channel, through which nothing has been handed over yet.
    fn clone(&self) -> (copy: Self)
        ensures
            call_ensures(
                <UnboundedSender<T> as Clone>::clone,
                (&self.channel(),),
                copy.channel(),
            ),
            copy.handed() == Seq::<T>::empty(),
            copy.accepted() == Seq::<T>::empty(),
    {
        Sender::new(self.channel.clone())
    }
}

} // verus!
