//! Pieces of state that do not belong to one module.

use std::time::Instant;
use vstd::prelude::*;

pub use crate::modules::logging::LastMsg;

verus! {

/// Whether the connection is open.
#[derive(Debug)]
pub struct Conn {
    pub connected: bool,
}

impl Clone for Conn {
    fn clone(&self) -> (copy: Self)
        ensures
            copy == *self,
    {
        Self { connected: self.connected }
    }
}

impl Default for Conn {
    /// Not connected.
    fn default() -> (conn: Self)
        ensures
            !conn.connected,
    {
        Self { connected: false }
    }
}

/// When the peer last answered a ping.
#[derive(Debug)]
pub struct Heartbeat {
    pub last_pong: Instant,
}

impl Clone for Heartbeat {
    fn clone(&self) -> (copy: Self)
        ensures
            copy == *self,
    {
        Self { last_pong: self.last_pong }
    }
}

impl Default for Heartbeat {
    /// As if a pong had arrived just now.
    fn default() -> (heartbeat: Self)
        ensures
            call_ensures(Instant::now, (), heartbeat.last_pong),
    {
        Self { last_pong: Instant::now() }
    }
}

} // verus!
