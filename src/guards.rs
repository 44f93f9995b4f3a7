//! The logged-in user of a request, as its session cookie names it.
use vstd::prelude::*;
use crate::session::{parse_i32, resolve};

verus! {

/// The id of the user whose session a request carries.
#[derive(Clone, Copy, Debug, PartialEq, Eq, Structural)]
pub struct CurrentUser(pub i32);

impl CurrentUser {
    /// The user named by the (decrypted) session value; `None` where there
    /// is none or it does not read as a user id, and the request goes on
    /// without a logged-in user.
    pub fn from_session(value: Option<&[u8]>) -> (r: Option<CurrentUser>)
        ensures
            r == match value {
                Some(v) => match parse_i32(v@) {
                    Some(id) => Some(CurrentUser(id)),
                    None => None,
                },
                None => None::<CurrentUser>,
            },
    {
        match resolve(value) {
            Some(id) => Some(CurrentUser(id)),
            None => None,
        }
    }
}

} // verus!
