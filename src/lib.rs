//! A content-addressed blob store whose writes and deletes are authorized by
//! signed, single-purpose, short-lived nostr events.

pub mod action;
pub mod api;
pub mod auth;
pub mod blossom;
pub mod config;
pub mod handlers;
pub mod mime;
pub mod store;
pub mod telemetry;
pub mod text;
pub mod token;
pub mod whitelist;

pub use action::Action;
