//! Translators of the contacts endpoint: the caller uploads contact entries
//! referencing other users by phone number.

use vstd::prelude::*;

use crate::backend::users_api::{ContactEntry, CreateContactsRequest};
use crate::user::AppUser;

verus! {

/// Inbound document: the contacts to create for the caller.
#[derive(Clone, Debug)]
pub struct Request {
    pub contacts: Vec<Contact>,
}

/// One inbound contact entry.
#[derive(Clone, Debug)]
pub struct Contact {
    pub phone_number: String,
    pub name: String,
    pub device_contact_id: String,
}

/// Outward document: creation reports nothing back.
#[derive(Clone, Debug)]
pub struct Response {}

/// Does backend entry `e` carry exactly the fields of inbound contact `c`?
pub open spec fn entry_matches(e: ContactEntry, c: Contact) -> bool {
    &&& e.phone_number == Some(c.phone_number)
    &&& e.name == Some(c.name)
    &&& e.device_contact_id == Some(c.device_contact_id)
}

impl ContactEntry {
    /// Builds one backend contact entry out of one inbound contact.
    pub fn from(c: Contact) -> (r: ContactEntry)
        ensures
            entry_matches(r, c),
    {
        ContactEntry {
            phone_number: Some(c.phone_number),
            name: Some(c.name),
            device_contact_id: Some(c.device_contact_id),
        }
    }
}

impl CreateContactsRequest {
    /// Builds the contacts backend's request out of the inbound document,
    /// keeping every entry and its order; the owning user is attached by the
    /// handler.
    pub fn from(req: Request) -> (r: CreateContactsRequest)
        ensures
            r.user_id is None,
            r.contacts@.len() == req.contacts@.len(),
            forall|i: int|
                0 <= i < req.contacts@.len() ==> entry_matches(
                    #[trigger] r.contacts@[i],
                    req.contacts@[i],
                ),
    {
        let mut contacts: Vec<ContactEntry> = Vec::new();
        let mut i: usize = 0;
        while i < req.contacts.len()
            invariant
                i <= req.contacts@.len(),
                contacts@.len() == i,
                forall|k: int|
                    0 <= k < i ==> entry_matches(#[trigger] contacts@[k], req.contacts@[k]),
            decreases req.contacts@.len() - i,
        {
            let c = &req.contacts[i];
            contacts.push(
                ContactEntry {
                    phone_number: Some(c.phone_number.clone()),
                    name: Some(c.name.clone()),
                    device_contact_id: Some(c.device_contact_id.clone()),
                },
            );
            i += 1;
        }
        CreateContactsRequest { user_id: None, contacts }
    }
}

/// What the contacts endpoint sends to the backend for an authenticated
/// caller: the translated entries, owned by the caller.
pub fn create_contacts_request(user: AppUser, req: Request) -> (r: CreateContactsRequest)
    ensures
        r.user_id == Some(user.user_id),
        r.contacts@.len() == req.contacts@.len(),
        forall|i: int|
            0 <= i < req.contacts@.len() ==> entry_matches(
                #[trigger] r.contacts@[i],
                req.contacts@[i],
            ),
{
    let mut r = CreateContactsRequest::from(req);
    r.user_id = Some(user.user_id);
    r
}

impl Response {
    /// Builds the outward document: creation reports nothing back.
    pub fn from(_res: crate::backend::users_api::CreateContactsResponse) -> (r: Response) {
        Response {  }
    }
}

} // verus!
