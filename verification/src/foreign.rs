//! Declarations of the types and functions of other crates, and of `std`, that
//! the library uses. Nothing in this file is proved: it is what the proofs of
//! the other modules rest on.

use frunk::{HCons, HNil};
use std::time::Instant;
use tokio::sync::mpsc::error::SendError;
use tokio::sync::mpsc::UnboundedSender;
use vstd::prelude::*;

verus! {

/// `anyhow::Error`, the error that a handler may answer with. It is only passed on.
#[verifier::external_type_specification]
#[verifier::external_body]
pub struct ExError(anyhow::Error);

/// `std::time::Instant`, a reading of the monotonic clock. It is only stored.
#[verifier::external_type_specification]
#[verifier::external_body]
pub struct ExInstant(Instant);

/// `tokio::sync::mpsc::UnboundedSender`, the sending half of an unbounded channel.
#[verifier::external_type_specification]
#[verifier::external_body]
#[verifier::reject_recursive_types(T)]
pub struct ExUnboundedSender<T>(UnboundedSender<T>);

/// `tokio::sync::mpsc::error::SendError`, with its one public field: the value that
/// was not sent.
#[verifier::external_type_specification]
#[verifier::reject_recursive_types(T)]
pub struct ExSendError<T>(SendError<T>);

/// `frunk::HCons`, a heterogeneous list with its two public fields: the first element
/// and the list of the others.
#[verifier::external_type_specification]
#[verifier::reject_recursive_types(H)]
#[verifier::reject_recursive_types(T)]
pub struct ExHCons<H, T>(HCons<H, T>);

/// `frunk::HNil`, the empty heterogeneous list.
#[verifier::external_type_specification]
pub struct ExHNil(HNil);

/// `Instant::now` reads the monotonic clock. Nothing is claimed of the reading: it
/// depends on the moment of the call. That readings do not go backwards is left unsaid,
/// since a call is not handed the readings before it.
pub assume_specification[ Instant::now ]() -> (now: Instant);

/// `UnboundedSender::clone` makes another handle to the same channel. Nothing is
/// claimed of it: which channel a handle belongs to cannot be seen.
pub assume_specification<T>[ <UnboundedSender<T> as Clone>::clone ](
    sender: &UnboundedSender<T>,
) -> (handle: UnboundedSender<T>);

/// `UnboundedSender::send` puts a value into the channel without blocking. Whether it
/// is accepted depends on the receiving half, which may be closed at any time; the
/// contract claims only that a refused value comes back in the error. That an accepted
/// value reaches the receiver is left unsaid: the sender does not show what the channel
/// holds.
pub assume_specification<T>[ UnboundedSender::<T>::send ](
    sender: &UnboundedSender<T>,
    message: T,
) -> (reply: Result<(), SendError<T>>)
    ensures
        reply matches Err(refused) ==> refused.0 == message,
;

} // verus!
