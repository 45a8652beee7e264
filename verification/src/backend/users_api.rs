//! Message schemas of the auth, users, contacts and sources backend services.

use vstd::prelude::*;

verus! {

/// A pending phone verification produced by the auth backend.
#[derive(Clone, Debug)]
pub struct Verification {
    pub verification_id: Option<String>,
}

/// Starts a join flow for a phone number.
#[derive(Clone, Debug)]
pub struct JoinRequest {
    pub phone_number: Option<i64>,
}

#[derive(Clone, Debug)]
pub struct JoinResponse {
    pub verification: Option<Verification>,
}

/// Completes a join flow with the code the user received.
#[derive(Clone, Debug)]
pub struct CompleteRequest {
    pub verification_id: Option<String>,
    pub code: Option<String>,
}

#[derive(Clone, Debug)]
pub struct CompleteResponse {
    pub jwt: Option<String>,
}

/// A user record as the users backend stores it.
#[derive(Clone, Debug)]
pub struct User {
    pub user_id: Option<String>,
    pub name: Option<String>,
    pub phone: Option<String>,
    pub abbr: Option<String>,
    pub color: Option<String>,
}

#[derive(Clone, Debug)]
pub struct GetUserRequest {
    pub user_id: Option<String>,
}

#[derive(Clone, Debug)]
pub struct GetUserResponse {
    pub user: Option<User>,
}

#[derive(Clone, Debug)]
pub struct GetUsersRequest {
    pub user_ids: Vec<String>,
}

#[derive(Clone, Debug)]
pub struct GetUsersResponse {
    pub users: Vec<User>,
}

/// One user's "source" relationship to another user.
#[derive(Clone, Debug)]
pub struct Source {
    pub source_id: Option<String>,
    pub user_id: Option<String>,
    pub source_user_id: Option<String>,
}

/// One user's contact entry referencing another user.
#[derive(Clone, Debug)]
pub struct Contact {
    pub contact_id: Option<String>,
    pub user_id: Option<String>,
    pub contact_user_id: Option<String>,
    pub name: Option<String>,
}

#[derive(Clone, Debug)]
pub struct GetSourceRequest {
    pub user_id: Option<String>,
    pub source_user_id: Option<String>,
}

#[derive(Clone, Debug)]
pub struct GetSourceResponse {
    pub source: Option<Source>,
}

#[derive(Clone, Debug)]
pub struct GetSourcesRequest {
    pub user_id: Option<String>,
}

/// Both relationship kinds of the caller, in backend-supplied order.
#[derive(Clone, Debug)]
pub struct GetSourcesResponse {
    pub sources: Vec<Source>,
    pub contacts: Vec<Contact>,
}

#[derive(Clone, Debug)]
pub struct CreateSourceRequest {
    pub user_id: Option<String>,
    pub source_user_id: Option<String>,
}

#[derive(Clone, Debug)]
pub struct CreateSourceResponse {
    pub source_id: Option<String>,
}

/// One contact to be created for the caller.
#[derive(Clone, Debug)]
pub struct ContactEntry {
    pub phone_number: Option<String>,
    pub name: Option<String>,
    pub device_contact_id: Option<String>,
}

#[derive(Clone, Debug)]
pub struct CreateContactsRequest {
    pub user_id: Option<String>,
    pub contacts: Vec<ContactEntry>,
}

#[derive(Clone, Debug)]
pub struct CreateContactsResponse {}

} // verus!
