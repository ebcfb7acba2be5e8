//! Types shared by every handler.

use anyhow::Result;
use vstd::prelude::*;

verus! {

/// What a handler wants to happen after it has seen a message.
#[derive(Clone, Copy, Debug, PartialEq, Eq, Structural)]
pub enum HandlerOutcome {
    /// Let the next handler see the message.
    Continue,
    /// Drop the connection and open a new one.
    Reconnect,
    /// End the session.
    Stop,
}

/// Whether `reply` lets the next handler see the message.
pub open spec fn continues(reply: Result<HandlerOutcome>) -> bool {
    reply matches Ok(HandlerOutcome::Continue)
}

/// A handler lets the next one see the message just by saying so: not by reconnecting, by
/// stopping or by failing.
pub proof fn only_continue_continues(reply: Result<HandlerOutcome>)
    ensures
        continues(reply) <==> reply == Ok::<HandlerOutcome, anyhow::Error>(HandlerOutcome::Continue),
{
}

} // verus!
