//! What each endpoint answers: its status, what it does to the session
//! cookie, and the envelope of its body.
pub mod auth;
pub mod users;

use vstd::prelude::*;
use crate::session::{establish, i32_text, lemma_resolve_establish, parse_i32};
use crate::user::User;

verus! {

#[derive(Clone, Copy, Debug, PartialEq, Eq, Structural)]
pub enum Method {
    Get,
    Post,
}

/// The endpoints of the service.
#[derive(Clone, Copy, Debug, PartialEq, Eq, Structural)]
pub enum Endpoint {
    Login,
    Logout,
    Register,
    GetUserId,
    GetCurrentUser,
    GetAllUsers,
    GetUserById,
}

/// A route: method and path (under its mount point) to an endpoint.
#[derive(Clone, Copy, Debug)]
pub struct Route {
    pub method: Method,
    pub path: &'static str,
    pub endpoint: Endpoint,
}

pub open spec fn route_is(r: Route, method: Method, path: Seq<char>, endpoint: Endpoint) -> bool {
    r.method == method && r.path@ == path && r.endpoint == endpoint
}

/// The failure kinds an endpoint reports.
#[derive(Clone, Copy, Debug, PartialEq, Eq, Structural)]
pub enum ErrorKind {
    EmailAlreadyInUse,
    InvalidUser,
    InvalidPassword,
    PasswordHashError,
    DatabaseError,
    NotFound,
    NotLoggedIn,
    UserDoesNotExist,
}

/// The status code each failure kind is reported with.
pub open spec fn status_of(k: ErrorKind) -> u16 {
    match k {
        ErrorKind::EmailAlreadyInUse => 400,
        ErrorKind::InvalidUser => 400,
        ErrorKind::InvalidPassword => 400,
        ErrorKind::PasswordHashError => 500,
        ErrorKind::DatabaseError => 500,
        ErrorKind::NotFound => 404,
        ErrorKind::NotLoggedIn => 400,
        ErrorKind::UserDoesNotExist => 500,
    }
}

/// The machine-readable `error_type` of each failure kind.
pub open spec fn error_type_text(k: ErrorKind) -> Seq<char> {
    match k {
        ErrorKind::EmailAlreadyInUse => "email_already_in_use"@,
        ErrorKind::InvalidUser => "invalid_user"@,
        ErrorKind::InvalidPassword => "invalid_password"@,
        ErrorKind::PasswordHashError => "password_hash_error"@,
        ErrorKind::DatabaseError => "database_error"@,
        ErrorKind::NotFound => "not_found"@,
        ErrorKind::NotLoggedIn => "not_logged_in"@,
        ErrorKind::UserDoesNotExist => "user does not exist"@,
    }
}

impl ErrorKind {
    pub fn status(&self) -> (r: u16)
        ensures
            r == status_of(*self),
    {
        match self {
            ErrorKind::EmailAlreadyInUse => 400,
            ErrorKind::InvalidUser => 400,
            ErrorKind::InvalidPassword => 400,
            ErrorKind::PasswordHashError => 500,
            ErrorKind::DatabaseError => 500,
            ErrorKind::NotFound => 404,
            ErrorKind::NotLoggedIn => 400,
            ErrorKind::UserDoesNotExist => 500,
        }
    }

    pub fn error_type(&self) -> (r: &'static str)
        ensures
            r@ == error_type_text(*self),
    {
        match self {
            ErrorKind::EmailAlreadyInUse => "email_already_in_use",
            ErrorKind::InvalidUser => "invalid_user",
            ErrorKind::InvalidPassword => "invalid_password",
            ErrorKind::PasswordHashError => "password_hash_error",
            ErrorKind::DatabaseError => "database_error",
            ErrorKind::NotFound => "not_found",
            ErrorKind::NotLoggedIn => "not_logged_in",
            ErrorKind::UserDoesNotExist => "user does not exist",
        }
    }
}

/// What a failure says beyond its kind. Internal faults (store, hasher)
/// are reported with the fixed wording alone: their messages stay on the
/// server.
#[derive(Clone, Copy, Debug, PartialEq, Eq, Structural)]
pub enum Detail {
    /// The kind's own fixed wording.
    Fixed,
    /// The id of a user that does not exist.
    Id(i32),
}

/// The body of a reply: `"status": "success"` with its payload, or
/// `"status": "error"` with the failure.
#[derive(Clone)]
pub enum Body {
    Success,
    OneUser(User),
    AllUsers(Vec<User>),
    /// The raw session value, reported without the `status` key.
    UserId(String),
    Failure { kind: ErrorKind, detail: Detail },
}

/// What a reply does to the session cookie.
#[derive(Clone, Debug)]
pub enum CookieChange {
    Keep,
    Start(Vec<u8>),
    Remove,
}

#[derive(Clone)]
pub struct Reply {
    pub status: u16,
    pub cookie: CookieChange,
    pub body: Body,
}

/// `r` reports failure `kind` and leaves the cookie alone.
pub open spec fn fails_with(r: Reply, kind: ErrorKind) -> bool {
    &&& r.status == status_of(kind)
    &&& r.cookie is Keep
    &&& r.body matches Body::Failure { kind: k, detail: _ } && k == kind
}

/// `r` reports failure `kind` with its fixed wording and nothing more.
pub open spec fn fails_fixed(r: Reply, kind: ErrorKind) -> bool {
    &&& fails_with(r, kind)
    &&& r.body matches Body::Failure { kind: _, detail: d } && d == Detail::Fixed
}

/// `r` succeeds and starts a session that resolves to `user_id`.
pub open spec fn logs_in(r: Reply, user_id: i32) -> bool {
    &&& r.status == 200
    &&& r.body is Success
    &&& r.cookie matches CookieChange::Start(v) && v@ == i32_text(user_id)
    &&& r.cookie matches CookieChange::Start(v) && parse_i32(v@) == Some(user_id)
}

pub fn failure(kind: ErrorKind, detail: Detail) -> (r: Reply)
    ensures
        fails_with(r, kind),
        r.body matches Body::Failure { kind: _, detail: d } && d == detail,
{
    Reply { status: kind.status(), cookie: CookieChange::Keep, body: Body::Failure { kind, detail } }
}

/// A success that starts a session for `user_id`.
pub fn start_session(user_id: i32) -> (r: Reply)
    ensures
        logs_in(r, user_id),
{
    proof {
        lemma_resolve_establish(user_id);
    }
    Reply { status: 200, cookie: CookieChange::Start(establish(user_id)), body: Body::Success }
}

} // verus!
