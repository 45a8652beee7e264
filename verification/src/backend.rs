//! The message schemas of the backend RPC services.
//!
//! Each backend exposes a typed RPC interface; this crate only composes the
//! payloads those calls carry, so the schemas are held here as plain data.
//! Fields follow the wire convention of the services: a scalar field that a
//! backend may omit is an `Option`, and the translators decide — per the
//! contract of each endpoint — what a missing field means. Identifiers are
//! stable, caller-supplied-string-compatible tokens.

pub mod messages_api;
pub mod users_api;
