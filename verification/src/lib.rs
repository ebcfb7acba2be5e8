//! Composable building blocks for WebSocket clients.
//!
//! Each concern (authentication, subscriptions, forwarding, keep-alive, logging)
//! owns a small piece of state and a function that reacts to a trigger or to an
//! incoming message. Reactions never touch the network themselves: they append
//! the effects they want to an [`outbox::Outbox`], which the connection's driver
//! performs in order. Handlers for incoming messages compose into a chain of
//! responsibility (see [`handler`]).

pub mod app;
pub mod chain;
pub mod channel;
pub mod foreign;
pub mod handler;
pub mod message;
pub mod modules;
pub mod outbox;
pub mod state;
pub mod time;
pub mod types;
