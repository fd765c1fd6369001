//! The per-user metadata that is stored encrypted and handed to the client.

use vstd::prelude::*;

verus! {

/// The metadata of a user.
#[derive(Debug, Clone)]
pub struct Metadata {
    pub id: i32,
    pub email: String,
    pub latest_session: Session,
}

/// The login that the metadata was last written for.
#[derive(Debug, Clone)]
pub struct Session {
    pub email: String,
    pub created_at: String,
}

impl Metadata {
    /// The metadata written at registration: the new user's id and address,
    /// and a first session under the same address, dated `created_at`.
    pub fn for_new_user(id: i32, email: &str, created_at: &str) -> (r: Metadata)
        ensures
            r.id == id,
            r.email@ == email@,
            r.latest_session.email@ == email@,
            r.latest_session.created_at@ == created_at@,
    {
        Metadata {
            id,
            email: email.to_owned(),
            latest_session: Session { email: email.to_owned(), created_at: created_at.to_owned() },
        }
    }
}

} // verus!
