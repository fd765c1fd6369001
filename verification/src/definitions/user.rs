//! The record of a user.

use vstd::prelude::*;

verus! {

/// A user as storage holds it.
#[derive(Debug)]
pub struct User {
    pub id: i32,
    /// The sanitised address under which the account was created.
    pub email: String,
    pub display_name: String,
    /// The credential, never the password.
    pub password_hash: String,
    pub avatar_url: String,
    /// Whether the address was confirmed through a verification token.
    pub is_verified: bool,
    /// When the account was created, in seconds since the Unix epoch.
    pub created_at: i64,
}

impl User {
    /// The record of a user who has just registered: it carries the name
    /// and the address as given, and the address is not yet verified.
    pub fn registered(
        id: i32,
        display_name: &str,
        email: &str,
        password_hash: String,
        avatar_url: String,
        created_at: i64,
    ) -> (user: User)
        ensures
            user.id == id,
            user.display_name@ == display_name@,
            user.email@ == email@,
            user.password_hash == password_hash,
            user.avatar_url == avatar_url,
            !user.is_verified,
            user.created_at == created_at,
    {
        User {
            id,
            email: email.to_owned(),
            display_name: display_name.to_owned(),
            password_hash,
            avatar_url,
            is_verified: false,
            created_at,
        }
    }
}

} // verus!
