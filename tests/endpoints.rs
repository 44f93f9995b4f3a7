use expense_auth::routes::{auth, users, Body, CookieChange, Detail, Endpoint, ErrorKind, Method};
use expense_auth::service::{
    get_by_id, login, register, Credentials, LoginBody, LoginError, RegisterBody, RegisterError,
    RegisterEvent, RegisterStep, UserGetError,
};
use expense_auth::session::resolve;
use expense_auth::user::{Timestamp, User, UserRow};

fn user(id: i32) -> User {
    User {
        user_id: id,
        display_name: "Alice".to_string(),
        email: "alice@x.com".to_string(),
        password: Some("$argon2id$stored".to_string()),
        creation_time: Timestamp { micros: 0 },
    }
}

#[test]
fn error_kinds_map_to_status_and_type() {
    let table = [
        (ErrorKind::EmailAlreadyInUse, 400, "email_already_in_use"),
        (ErrorKind::InvalidUser, 400, "invalid_user"),
        (ErrorKind::InvalidPassword, 400, "invalid_password"),
        (ErrorKind::PasswordHashError, 500, "password_hash_error"),
        (ErrorKind::DatabaseError, 500, "database_error"),
        (ErrorKind::NotFound, 404, "not_found"),
        (ErrorKind::NotLoggedIn, 400, "not_logged_in"),
        (ErrorKind::UserDoesNotExist, 500, "user does not exist"),
    ];
    for (k, status, text) in table {
        assert_eq!(k.status(), status);
        assert_eq!(k.error_type(), text);
    }
}

#[test]
fn route_tables() {
    let a = auth::get_routes();
    assert_eq!(a.len(), 5);
    assert_eq!((a[0].method, a[0].path, a[0].endpoint), (Method::Post, "/login", Endpoint::Login));
    assert_eq!((a[4].method, a[4].path, a[4].endpoint), (Method::Get, "/current_user", Endpoint::GetCurrentUser));
    let u = users::get_routes();
    assert_eq!(u.len(), 2);
    assert_eq!((u[1].method, u[1].path, u[1].endpoint), (Method::Get, "/<user_id>", Endpoint::GetUserById));
}

#[test]
fn login_reply_sets_session() {
    let r = auth::login(Ok(17));
    assert_eq!(r.status, 200);
    assert!(matches!(r.body, Body::Success));
    match r.cookie {
        CookieChange::Start(v) => assert_eq!(resolve(Some(&v)), Some(17)),
        other => panic!("expected a session, got {:?}", other),
    }
}

#[test]
fn login_reply_failures() {
    let r = auth::login(Err(LoginError::InvalidUser));
    assert_eq!(r.status, 400);
    assert!(matches!(r.cookie, CookieChange::Keep));
    assert!(matches!(r.body, Body::Failure { kind: ErrorKind::InvalidUser, detail: Detail::Fixed }));
    let r = auth::login(Err(LoginError::DatabaseError("down".to_string())));
    assert_eq!(r.status, 500);
    assert!(matches!(r.body, Body::Failure { kind: ErrorKind::DatabaseError, detail: Detail::Fixed }));
    let r = auth::login(Err(LoginError::PasswordHashError("bad".to_string())));
    assert_eq!(r.status, 500);
    assert!(matches!(r.body, Body::Failure { kind: ErrorKind::PasswordHashError, detail: Detail::Fixed }));
}

#[test]
fn register_reply_cases() {
    let r = auth::register(Ok(3));
    assert_eq!(r.status, 200);
    assert!(matches!(r.cookie, CookieChange::Start(v) if v == b"3".to_vec()));
    let r = auth::register(Err(RegisterError::EmailAlreadyInUse));
    assert_eq!(r.status, 400);
    assert!(matches!(r.body, Body::Failure { kind: ErrorKind::EmailAlreadyInUse, detail: Detail::Fixed }));
    let r = auth::register(Err(RegisterError::DatabaseError("duplicate key in users_email_key".to_string())));
    assert_eq!(r.status, 500);
    assert!(matches!(r.body, Body::Failure { kind: ErrorKind::DatabaseError, detail: Detail::Fixed }));
}

#[test]
fn logout_and_user_id_replies() {
    let r = auth::logout();
    assert_eq!(r.status, 200);
    assert!(matches!(r.cookie, CookieChange::Remove));
    let r = auth::get_user_id(Some("5".to_string()));
    assert_eq!(r.status, 200);
    assert!(matches!(r.body, Body::UserId(v) if v == "5"));
    let r = auth::get_user_id(None);
    assert_eq!(r.status, 400);
    assert!(matches!(r.body, Body::Failure { kind: ErrorKind::NotLoggedIn, detail: Detail::Fixed }));
}

#[test]
fn current_user_replies() {
    let r = auth::get_current_user(Ok(user(1)));
    assert_eq!(r.status, 200);
    assert!(matches!(r.body, Body::OneUser(u) if u.password.is_none() && u.email == "alice@x.com"));
    let r = auth::get_current_user(Err(UserGetError::DoesNotExist(8)));
    assert_eq!(r.status, 500);
    assert!(matches!(r.body, Body::Failure { kind: ErrorKind::UserDoesNotExist, detail: Detail::Id(8) }));
}

#[test]
fn users_replies() {
    let r = users::get_all(Ok(vec![user(1), user(2)]));
    assert_eq!(r.status, 200);
    assert!(matches!(r.body, Body::AllUsers(us) if us.len() == 2 && us.iter().all(|u| u.password.is_none())));
    let r = users::get_all(Err("down".to_string()));
    assert_eq!(r.status, 500);
    assert!(matches!(r.body, Body::Failure { kind: ErrorKind::DatabaseError, detail: Detail::Fixed }));
    let r = users::get_by_id(Err(UserGetError::DoesNotExist(999)));
    assert_eq!(r.status, 404);
    assert!(matches!(r.body, Body::Failure { kind: ErrorKind::NotFound, detail: Detail::Id(999) }));
}

#[test]
fn alice_end_to_end() {
    let body = RegisterBody {
        display_name: "Alice".to_string(),
        email: "alice@x.com".to_string(),
        password: "secret123".to_string(),
    };
    let stored = match register(&body, RegisterEvent::EmailChecked(None)) {
        RegisterStep::Insert(nu) => nu,
        _ => panic!("expected an insert"),
    };
    let outcome = match register(&body, RegisterEvent::IdFetched(1)) {
        RegisterStep::Done(r) => r,
        _ => panic!("expected the end"),
    };
    assert!(stored.password_hash.starts_with("$argon2id$"));
    assert_ne!(stored.password_hash, "secret123");
    let reply = auth::register(outcome);
    assert_eq!(reply.status, 200);
    let cookie = match reply.cookie {
        CookieChange::Start(v) => v,
        other => panic!("expected a session, got {:?}", other),
    };
    let id = resolve(Some(&cookie)).unwrap();
    assert_eq!(id, 1);
    let row = UserRow {
        user_id: id,
        display_name: stored.display_name.clone(),
        email: stored.email.clone(),
        password: stored.password_hash.clone(),
        creation_time: Timestamp { micros: 0 },
    };
    let reply = auth::get_current_user(get_by_id(id, Ok(Some(row))));
    assert_eq!(reply.status, 200);
    assert!(matches!(reply.body, Body::OneUser(u)
        if u.user_id == 1 && u.display_name == "Alice" && u.email == "alice@x.com" && u.password.is_none()));
    let wrong = LoginBody { email: "alice@x.com".to_string(), password: "wrong".to_string() };
    let creds = Credentials { user_id: 1, password: stored.password_hash.clone() };
    let reply = auth::login(login(&wrong, Ok(Some(creds))));
    assert_eq!(reply.status, 400);
    assert!(matches!(reply.body, Body::Failure { kind: ErrorKind::InvalidPassword, .. }));
    let reply = users::get_by_id(get_by_id(999, Ok(None)));
    assert_eq!(reply.status, 404);
    assert!(matches!(reply.body, Body::Failure { kind: ErrorKind::NotFound, .. }));
}
