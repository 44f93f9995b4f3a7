//! The authentication endpoints.
use vstd::prelude::*;
use crate::routes::{
    failure, fails_fixed, fails_with, logs_in, route_is, start_session, Body, CookieChange,
    Detail, Endpoint, ErrorKind, Method, Reply, Route,
};
use crate::service::{LoginError, RegisterError, UserGetError};
use crate::user::User;

verus! {

/// The routes mounted under `/api/auth`.
pub fn get_routes() -> (r: Vec<Route>)
    ensures
        r@.len() == 5,
        route_is(r@[0], Method::Post, "/login"@, Endpoint::Login),
        route_is(r@[1], Method::Post, "/logout"@, Endpoint::Logout),
        route_is(r@[2], Method::Post, "/register"@, Endpoint::Register),
        route_is(r@[3], Method::Get, "/user_id"@, Endpoint::GetUserId),
        route_is(r@[4], Method::Get, "/current_user"@, Endpoint::GetCurrentUser),
{
    vec![
        Route { method: Method::Post, path: "/login", endpoint: Endpoint::Login },
        Route { method: Method::Post, path: "/logout", endpoint: Endpoint::Logout },
        Route { method: Method::Post, path: "/register", endpoint: Endpoint::Register },
        Route { method: Method::Get, path: "/user_id", endpoint: Endpoint::GetUserId },
        Route { method: Method::Get, path: "/current_user", endpoint: Endpoint::GetCurrentUser },
    ]
}

/// The reply to a login: a session on success, else the failure.
pub fn login(outcome: Result<i32, LoginError>) -> (r: Reply)
    ensures
        match outcome {
            Ok(id) => logs_in(r, id),
            Err(LoginError::InvalidUser) => fails_fixed(r, ErrorKind::InvalidUser),
            Err(LoginError::InvalidPassword) => fails_fixed(r, ErrorKind::InvalidPassword),
            Err(LoginError::PasswordHashError(_)) => fails_fixed(r, ErrorKind::PasswordHashError),
            Err(LoginError::DatabaseError(_)) => fails_fixed(r, ErrorKind::DatabaseError),
        },
{
    match outcome {
        Ok(id) => start_session(id),
        Err(LoginError::InvalidUser) => failure(ErrorKind::InvalidUser, Detail::Fixed),
        Err(LoginError::InvalidPassword) => failure(ErrorKind::InvalidPassword, Detail::Fixed),
        Err(LoginError::PasswordHashError(_)) => failure(ErrorKind::PasswordHashError, Detail::Fixed),
        Err(LoginError::DatabaseError(_)) => failure(ErrorKind::DatabaseError, Detail::Fixed),
    }
}

/// The reply to a logout: success, and the session cookie removed.
pub fn logout() -> (r: Reply)
    ensures
        r.status == 200,
        r.cookie is Remove,
        r.body is Success,
{
    Reply { status: 200, cookie: CookieChange::Remove, body: Body::Success }
}

/// The reply to a registration: a session on success, else the failure.
pub fn register(outcome: Result<i32, RegisterError>) -> (r: Reply)
    ensures
        match outcome {
            Ok(id) => logs_in(r, id),
            Err(RegisterError::EmailAlreadyInUse) => fails_fixed(r, ErrorKind::EmailAlreadyInUse),
            Err(RegisterError::PasswordHashError(_)) => fails_fixed(r, ErrorKind::PasswordHashError),
            Err(RegisterError::DatabaseError(_)) => fails_fixed(r, ErrorKind::DatabaseError),
        },
{
    match outcome {
        Ok(id) => start_session(id),
        Err(RegisterError::EmailAlreadyInUse) => failure(ErrorKind::EmailAlreadyInUse, Detail::Fixed),
        Err(RegisterError::PasswordHashError(_)) => failure(ErrorKind::PasswordHashError, Detail::Fixed),
        Err(RegisterError::DatabaseError(_)) => failure(ErrorKind::DatabaseError, Detail::Fixed),
    }
}

/// The reply to a request for the session's raw value (as decrypted).
pub fn get_user_id(session: Option<String>) -> (r: Reply)
    ensures
        match session {
            Some(v) => {
                &&& r.status == 200
                &&& r.cookie is Keep
                &&& r.body matches Body::UserId(u) && u@ == v@
            },
            None => fails_fixed(r, ErrorKind::NotLoggedIn),
        },
{
    match session {
        Some(v) => Reply { status: 200, cookie: CookieChange::Keep, body: Body::UserId(v) },
        None => failure(ErrorKind::NotLoggedIn, Detail::Fixed),
    }
}

/// The reply to a request for the logged-in user's profile. A session that
/// names a user the store lacks is an internal failure.
pub fn get_current_user(fetched: Result<User, UserGetError>) -> (r: Reply)
    ensures
        match fetched {
            Ok(u) => {
                &&& r.status == 200
                &&& r.cookie is Keep
                &&& r.body matches Body::OneUser(u2) && u2.user_id == u.user_id && u2.display_name@ == u.display_name@
                && u2.email@ == u.email@ && u2.password is None
            },
            Err(UserGetError::DatabaseError(_)) => fails_fixed(r, ErrorKind::DatabaseError),
            Err(UserGetError::DoesNotExist(id)) => {
                &&& fails_with(r, ErrorKind::UserDoesNotExist)
                &&& r.body matches Body::Failure { kind: _, detail: Detail::Id(id2) } && id2 == id
            },
        },
{
    match fetched {
        Ok(u) => Reply {
            status: 200,
            cookie: CookieChange::Keep,
            body: Body::OneUser(User { password: None, ..u }),
        },
        Err(UserGetError::DatabaseError(_)) => failure(ErrorKind::DatabaseError, Detail::Fixed),
        Err(UserGetError::DoesNotExist(id)) => failure(ErrorKind::UserDoesNotExist, Detail::Id(id)),
    }
}

} // verus!
