pub mod auth;
pub mod forwarder;
pub mod logging;
pub mod ping_pong;
pub mod subscription;
