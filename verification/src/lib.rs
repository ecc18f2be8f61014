//! Verified core of a small position-sharing server: sessions and
//! bearer-token authentication, login and registration decisions,
//! the heartbeat history, picture upload checks and configuration.

pub mod account;
pub mod auth;
pub mod config;
pub mod heartbeat;
pub mod store;
pub mod time;
pub mod token;
pub mod upload;
