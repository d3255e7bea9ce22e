//! The rows of the Users section: one per user decision, with whether the
//! user has a password set.

use vstd::prelude::*;
use crate::text::str_eq;

verus! {

/// What the image does with a user's password.
#[derive(Debug, Clone, Copy, PartialEq, Eq, Structural)]
pub enum UserPasswordChoice {
    /// No password in the image.
    NoPassword,
    /// The host's password hash is kept.
    Preserve,
    /// A new hash given by the user.
    New,
}

/// A user as the session's decisions record it.
#[derive(Debug, Clone)]
pub struct UserDecision {
    pub name: String,
    pub uid: u32,
    /// How the user is created in the Containerfile.
    pub containerfile_strategy: String,
    /// The password state found on the host (`password_set`, `locked`, ...).
    pub password_status: Option<String>,
    pub password_choice: UserPasswordChoice,
}

/// A row of the Users section.
#[derive(Debug, Clone)]
pub struct UserEntry {
    pub username: String,
    pub uid: u32,
    pub strategy: String,
    pub has_password: bool,
    pub password_choice: UserPasswordChoice,
}

/// The user has a password set: the host reported `password_set`.
pub open spec fn password_set(status: Option<String>) -> bool {
    status matches Some(s) && s@ == "password_set"@
}

/// The row of a user decision.
pub open spec fn entry_matches(e: UserEntry, u: UserDecision) -> bool {
    &&& e.username@ == u.name@
    &&& e.uid == u.uid
    &&& e.strategy@ == u.containerfile_strategy@
    &&& e.has_password == password_set(u.password_status)
    &&& e.password_choice == u.password_choice
}

/// Whether the host reported the user's password as set.
pub fn has_password_set(status: &Option<String>) -> (b: bool)
    ensures
        b == password_set(*status),
{
    match status {
        Some(s) => str_eq(s.as_str(), "password_set"),
        None => false,
    }
}

/// The rows of the Users section, one per user decision, in order.
pub fn build_user_entries(users: &Vec<UserDecision>) -> (v: Vec<UserEntry>)
    ensures
        v@.len() == users@.len(),
        forall|i: int| 0 <= i < v@.len() ==> entry_matches(#[trigger] v@[i], users@[i]),
{
    let mut v: Vec<UserEntry> = Vec::new();
    let mut i: usize = 0;
    while i < users.len()
        invariant
            0 <= i <= users@.len(),
            v@.len() == i,
            forall|k: int| 0 <= k < i ==> entry_matches(#[trigger] v@[k], users@[k]),
        decreases users@.len() - i,
    {
        let u = &users[i];
        let e = UserEntry {
            username: u.name.clone(),
            uid: u.uid,
            strategy: u.containerfile_strategy.clone(),
            has_password: has_password_set(&u.password_status),
            password_choice: u.password_choice,
        };
        v.push(e);
        i = i + 1;
    }
    v
}

} // verus!
