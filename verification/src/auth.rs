//! The authentication endpoints: join, complete, current session.

pub mod complete;
pub mod join;
pub mod me;
