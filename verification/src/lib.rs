//! Live-stream channel aggregation core: channel identity and normalization,
//! provider response validation and mapping, and the per-connection session
//! protocol.

pub mod auth;
pub mod channel;
pub mod config;
pub mod errors;
pub mod json;
pub mod mixer;
pub mod schema;
pub mod service;
pub mod services;
pub mod smashcast;
pub mod state;
pub mod strutil;
pub mod wsservice;
