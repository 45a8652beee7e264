//! The configured network endpoints of the backend services.
//!
//! Loading and validating the configuration is the business of the program
//! around this crate; the crate only defines the shape the gateway's logic
//! reads: one endpoint per backend client.

use vstd::prelude::*;

verus! {

/// The endpoints of the two backend processes the gateway talks to.
#[derive(Clone, Debug)]
pub struct ClientsSettings {
    pub bzd_users: ClientSettings,
    pub bzd_messages: ClientSettings,
}

/// One backend client's network endpoint.
#[derive(Clone, Debug)]
pub struct ClientSettings {
    pub endpoint: String,
}

} // verus!
