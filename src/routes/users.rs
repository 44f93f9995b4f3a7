//! The user listing endpoints.
use vstd::prelude::*;
use crate::routes::{failure, fails_fixed, fails_with, route_is, Body, CookieChange, Detail, Endpoint, ErrorKind, Method, Reply, Route};
use crate::service::UserGetError;
use crate::user::User;

verus! {

/// The routes mounted under `/api/users`.
pub fn get_routes() -> (r: Vec<Route>)
    ensures
        r@.len() == 2,
        route_is(r@[0], Method::Get, "/"@, Endpoint::GetAllUsers),
        route_is(r@[1], Method::Get, "/<user_id>"@, Endpoint::GetUserById),
{
    vec![
        Route { method: Method::Get, path: "/", endpoint: Endpoint::GetAllUsers },
        Route { method: Method::Get, path: "/<user_id>", endpoint: Endpoint::GetUserById },
    ]
}

/// The reply listing all users; no user in it carries a password hash.
pub fn get_all(fetched: Result<Vec<User>, String>) -> (r: Reply)
    ensures
        match fetched {
            Ok(users) => {
                &&& r.status == 200
                &&& r.cookie is Keep
                &&& r.body matches Body::AllUsers(us) && us@.len() == users@.len()
                && forall|i: int| 0 <= i < us@.len() ==> {
                    &&& (#[trigger] us@[i]).user_id == users@[i].user_id
                    &&& us@[i].display_name@ == users@[i].display_name@
                    &&& us@[i].email@ == users@[i].email@
                    &&& us@[i].password is None
                }
            },
            Err(_) => fails_fixed(r, ErrorKind::DatabaseError),
        },
{
    match fetched {
        Ok(users) => {
            let mut us: Vec<User> = Vec::new();
            let mut i: usize = 0;
            while i < users.len()
                invariant
                    i <= users@.len(),
                    us@.len() == i,
                    forall|k: int| 0 <= k < i ==> {
                        &&& (#[trigger] us@[k]).user_id == users@[k].user_id
                        &&& us@[k].display_name@ == users@[k].display_name@
                        &&& us@[k].email@ == users@[k].email@
                        &&& us@[k].password is None
                    },
                decreases users@.len() - i,
            {
                let u = &users[i];
                us.push(User {
                    user_id: u.user_id,
                    display_name: u.display_name.clone(),
                    email: u.email.clone(),
                    password: None,
                    creation_time: u.creation_time,
                });
                i = i + 1;
            }
            Reply { status: 200, cookie: CookieChange::Keep, body: Body::AllUsers(us) }
        },
        Err(_) => failure(ErrorKind::DatabaseError, Detail::Fixed),
    }
}

/// The reply with one user, without its password hash; `NotFound` where the
/// store has no user with that id.
pub fn get_by_id(fetched: Result<User, UserGetError>) -> (r: Reply)
    ensures
        match fetched {
            Ok(u) => {
                &&& r.status == 200
                &&& r.cookie is Keep
                &&& r.body matches Body::OneUser(u2) && u2.user_id == u.user_id && u2.display_name@ == u.display_name@
                && u2.email@ == u.email@ && u2.password is None
            },
            Err(UserGetError::DatabaseError(_)) => fails_fixed(r, ErrorKind::DatabaseError),
            Err(UserGetError::DoesNotExist(id)) => {
                &&& fails_with(r, ErrorKind::NotFound)
                &&& r.body matches Body::Failure { kind: _, detail: Detail::Id(id2) } && id2 == id
            },
        },
{
    match fetched {
        Ok(u) => Reply {
            status: 200,
            cookie: CookieChange::Keep,
            body: Body::OneUser(User { password: None, ..u }),
        },
        Err(UserGetError::DatabaseError(_)) => failure(ErrorKind::DatabaseError, Detail::Fixed),
        Err(UserGetError::DoesNotExist(id)) => failure(ErrorKind::NotFound, Detail::Id(id)),
    }
}

} // verus!
