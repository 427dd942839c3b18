//! A verified conversation orchestrator for a single-user chat assistant.
//!
//! The library owns the session state — the active user profile and the
//! conversation transcript — renders the context string sent to a text
//! completion service, applies administrative commands behind an
//! allow-list gate, and models the profile store's find-or-create
//! contract. All I/O (chat transport, completion HTTP calls, database
//! persistence) lives outside the library and hands it plain values.

pub mod session;
pub mod store;
pub mod text;
pub mod user;
