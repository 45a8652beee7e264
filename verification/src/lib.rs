//! Core of an HTTP gateway that fronts a set of backend RPC services.
//!
//! The crate holds the verified logic of the gateway: the bearer-credential
//! auth guard, the per-endpoint request/response translators, the aggregation
//! engine that joins the results of several dependent backend calls, and the
//! error mapper that classifies every failure into a uniform outward error.
//! Transport (HTTP serving, RPC channels, key loading) lives outside of it;
//! the gateway hands this crate plain values and receives plain values back.

pub mod auth;
pub mod backend;
pub mod contacts;
pub mod error;
pub mod flow;
pub mod json;
pub mod messages;
pub mod numbers;
pub mod settings;
pub mod sources;
pub mod topics;
pub mod user;
pub mod user_detail;
pub mod users;
