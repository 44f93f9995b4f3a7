//! User records and their public form, without the password hash.
use vstd::prelude::*;

verus! {

/// A point in time, in microseconds since the Unix epoch.
#[derive(Clone, Copy, Debug, PartialEq, Eq, Structural)]
pub struct Timestamp {
    pub micros: i64,
}

/// A user. `password` holds the PHC hash string and is `None` in any value
/// made for display. No `Debug`, so the hash is never formatted.
#[derive(Clone)]
pub struct User {
    pub user_id: i32,
    pub display_name: String,
    pub email: String,
    pub password: Option<String>,
    pub creation_time: Timestamp,
}

/// A user row as the store returns it.
#[derive(Clone)]
pub struct UserRow {
    pub user_id: i32,
    pub display_name: String,
    pub email: String,
    pub password: String,
    pub creation_time: Timestamp,
}

/// `u` is the public form of `row`: same fields, no password hash.
pub open spec fn public_of(u: User, row: UserRow) -> bool {
    &&& u.user_id == row.user_id
    &&& u.display_name@ == row.display_name@
    &&& u.email@ == row.email@
    &&& u.password is None
    &&& u.creation_time == row.creation_time
}

impl UserRow {
    /// The user this row stands for, with the password hash left out.
    pub fn to_public(&self) -> (r: User)
        ensures
            public_of(r, *self),
    {
        User {
            user_id: self.user_id,
            display_name: self.display_name.clone(),
            email: self.email.clone(),
            password: None,
            creation_time: self.creation_time,
        }
    }
}

} // verus!
