//! Verified core of a bridge between a cloud alarm-panel service and a
//! home-automation pub/sub bus.
pub mod actions;
pub mod cache_policy;
pub mod channels;
pub mod commands;
pub mod config;
pub mod correlator;
pub mod credential;
pub mod discovery;
pub mod home_assistant;
pub mod models;
pub mod panel;
pub mod router;
pub mod session;
pub mod text;
pub mod topic;
pub mod zones;
