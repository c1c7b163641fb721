//! Core of a multi-account messaging bot: a session registry, an inbound
//! event dispatcher, a bounded-retry reconnection supervisor, and a feed
//! poller that deduplicates against a persisted cursor and renders the
//! forwarded notification.
//!
//! The transport, the HTTP surface and all I/O live outside this crate; the
//! decisions they act on are made here, under contracts.

pub mod dispatch;
pub mod feed;
pub mod message;
pub mod poller;
pub mod processor;
pub mod reconnect;
pub mod registry;
pub mod session;
pub mod text;
pub mod timefmt;
