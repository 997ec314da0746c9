//! A webhook-to-chat bridge library: it authenticates inbound notifications,
//! normalizes them into a closed event taxonomy, renders them as synchronized
//! plain-text/HTML messages, routes them to a chat room by pattern rules, and
//! drives room-membership acquisition with retry/backoff.

pub mod auth;
pub mod config;
pub mod escape;
pub mod generic;
pub mod github_events;
pub mod github_handlers;
pub mod membership;
pub mod message_builder;
pub mod pipeline;
pub mod prolosite;
pub mod response;
pub mod signing;
pub mod strings;
pub mod urls;
pub mod utils;
