//! A user account record and its builder.

use vstd::prelude::*;

verus! {

/// An account: whether it is active, who owns it, and how often the
/// owner has signed in.
pub struct User {
    pub active: bool,
    pub username: String,
    pub email: String,
    pub sign_in_count: u64,
}

/// A fresh account for the given user: active, with a single sign-in
/// on record.
pub fn build_user(username: String, email: String) -> (u: User)
    ensures
        u.active == true,
        u.username@ == username@,
        u.email@ == email@,
        u.sign_in_count == 1,
{
    User { username, email, active: true, sign_in_count: 1 }
}

} // verus!
