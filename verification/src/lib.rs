//! Decision logic of a messenger backend: one-time codes, sessions, phone
//! hashes, WebSocket signaling and the errors they report.

pub mod auth;
pub mod clock;
pub mod dto;
pub mod error;
pub mod hash;
pub mod ids;
pub mod json;
pub mod keyspace;
pub mod migration;
pub mod otp;
pub mod otp_record;
pub mod rate_limit;
pub mod server;
pub mod store;
pub mod text;
pub mod ws;
