//! The user service: listing and lookup of users, registration and login.
//! The store is reached by the caller; these functions take what it returned
//! and decide.
use vstd::prelude::*;
use crate::hasher::{hash, hashable_password, is_argon2id_phc, verify, verify_outcome};
use crate::user::{public_of, User, UserRow};

verus! {

/// Failure of a lookup by id.
#[derive(Clone, Debug)]
pub enum UserGetError {
    DatabaseError(String),
    DoesNotExist(i32),
}

#[derive(Clone)]
pub struct RegisterBody {
    pub display_name: String,
    pub email: String,
    pub password: String,
}

#[derive(Clone, Debug)]
pub enum RegisterError {
    EmailAlreadyInUse,
    DatabaseError(String),
    PasswordHashError(String),
}

#[derive(Clone)]
pub struct LoginBody {
    pub email: String,
    pub password: String,
}

#[derive(Clone, Debug)]
pub enum LoginError {
    InvalidUser,
    InvalidPassword,
    PasswordHashError(String),
    DatabaseError(String),
}

/// What the store holds for a login: the user's id and stored hash string.
#[derive(Clone)]
pub struct Credentials {
    pub user_id: i32,
    pub password: String,
}

/// A user row to insert.
#[derive(Clone)]
pub struct NewUser {
    pub display_name: String,
    pub email: String,
    pub password_hash: String,
}

/// What the store answered to the last step of a registration.
#[derive(Clone, Debug)]
pub enum RegisterEvent {
    Started,
    EmailChecked(Option<i32>),
    Inserted,
    /// The insert broke the store's uniqueness constraint on emails.
    EmailConflict,
    IdFetched(i32),
    StoreFailed(String),
}

/// What a registration does next.
pub enum RegisterStep {
    /// Look the email up.
    CheckEmail(String),
    /// Insert the row.
    Insert(NewUser),
    /// Read the id the store gave the user with this email.
    FetchId(String),
    /// The registration is over.
    Done(Result<i32, RegisterError>),
}

/// All users, each with the password hash left out.
pub fn get_all(fetched: Result<Vec<UserRow>, String>) -> (r: Result<Vec<User>, String>)
    ensures
        fetched is Err <==> r is Err,
        fetched matches Err(m) ==> r matches Err(m2) && m2@ == m@,
        fetched matches Ok(rows) ==> r matches Ok(users) && users@.len() == rows@.len()
            && forall|i: int| 0 <= i < rows@.len() ==> public_of(#[trigger] users@[i], rows@[i]),
{
    match fetched {
        Err(m) => Err(m),
        Ok(rows) => {
            let mut users: Vec<User> = Vec::new();
            let mut i: usize = 0;
            while i < rows.len()
                invariant
                    i <= rows@.len(),
                    users@.len() == i,
                    forall|k: int| 0 <= k < i ==> public_of(#[trigger] users@[k], rows@[k]),
                decreases rows@.len() - i,
            {
                users.push(rows[i].to_public());
                i = i + 1;
            }
            Ok(users)
        },
    }
}

/// The user with id `user_id`, password hash left out; `DoesNotExist` where
/// the store had none.
pub fn get_by_id(user_id: i32, fetched: Result<Option<UserRow>, String>) -> (r: Result<User, UserGetError>)
    ensures
        match fetched {
            Err(m) => r matches Err(UserGetError::DatabaseError(m2)) && m2@ == m@,
            Ok(None) => r matches Err(UserGetError::DoesNotExist(id)) && id == user_id,
            Ok(Some(row)) => r matches Ok(u) && public_of(u, row),
        },
{
    match fetched {
        Err(m) => Err(UserGetError::DatabaseError(m)),
        Ok(None) => Err(UserGetError::DoesNotExist(user_id)),
        Ok(Some(row)) => Ok(row.to_public()),
    }
}

/// The step after the password was hashed (or failed to be).
pub fn insert_or_fail(body: &RegisterBody, hashed: Result<String, String>) -> (r: RegisterStep)
    ensures
        match hashed {
            Ok(h) => r matches RegisterStep::Insert(nu) && nu.display_name@ == body.display_name@
                && nu.email@ == body.email@ && nu.password_hash@ == h@,
            Err(m) => r matches RegisterStep::Done(Err(RegisterError::PasswordHashError(m2))) && m2@ == m@,
        },
{
    match hashed {
        Ok(h) => RegisterStep::Insert(NewUser {
            display_name: body.display_name.clone(),
            email: body.email.clone(),
            password_hash: h,
        }),
        Err(m) => RegisterStep::Done(Err(RegisterError::PasswordHashError(m))),
    }
}

/// The next step of registering `body`, given the store's answer to the
/// last one. An email already in use ends it with `EmailAlreadyInUse`
/// before any insert, as does a conflict the store reports at the insert; a
/// row is inserted only with an Argon2id hash that verifies the password.
pub fn register(body: &RegisterBody, event: RegisterEvent) -> (r: RegisterStep)
    ensures
        match event {
            RegisterEvent::Started => r matches RegisterStep::CheckEmail(e) && e@ == body.email@,
            RegisterEvent::EmailChecked(Some(_)) => r matches RegisterStep::Done(Err(RegisterError::EmailAlreadyInUse)),
            RegisterEvent::EmailChecked(None) => {
                &&& hashable_password(body.password@) ==> r is Insert
                &&& (r is Insert || r matches RegisterStep::Done(Err(RegisterError::PasswordHashError(_))))
                &&& (r matches RegisterStep::Insert(nu) ==> {
                    &&& nu.display_name@ == body.display_name@
                    &&& nu.email@ == body.email@
                    &&& verify_outcome(body.password@, nu.password_hash@) == Some(true)
                    &&& is_argon2id_phc(nu.password_hash@)
                })
            },
            RegisterEvent::Inserted => r matches RegisterStep::FetchId(e) && e@ == body.email@,
            RegisterEvent::EmailConflict => r matches RegisterStep::Done(Err(RegisterError::EmailAlreadyInUse)),
            RegisterEvent::IdFetched(id) => r matches RegisterStep::Done(Ok(id2)) && id2 == id,
            RegisterEvent::StoreFailed(m) => r matches RegisterStep::Done(Err(RegisterError::DatabaseError(m2))) && m2@ == m@,
        },
{
    match event {
        RegisterEvent::Started => RegisterStep::CheckEmail(body.email.clone()),
        RegisterEvent::EmailChecked(Some(_)) => RegisterStep::Done(Err(RegisterError::EmailAlreadyInUse)),
        RegisterEvent::EmailChecked(None) => {
            let hashed = hash(body.password.as_str());
            insert_or_fail(body, hashed)
        },
        RegisterEvent::Inserted => RegisterStep::FetchId(body.email.clone()),
        RegisterEvent::EmailConflict => RegisterStep::Done(Err(RegisterError::EmailAlreadyInUse)),
        RegisterEvent::IdFetched(id) => RegisterStep::Done(Ok(id)),
        RegisterEvent::StoreFailed(m) => RegisterStep::Done(Err(RegisterError::DatabaseError(m))),
    }
}

/// The login outcome for a user found with id `user_id`, given the result
/// of checking the password against the stored hash.
pub fn login_outcome(user_id: i32, verified: Result<bool, String>) -> (r: Result<i32, LoginError>)
    ensures
        match verified {
            Ok(true) => r == Ok::<i32, LoginError>(user_id),
            Ok(false) => r matches Err(LoginError::InvalidPassword),
            Err(m) => r matches Err(LoginError::PasswordHashError(m2)) && m2@ == m@,
        },
{
    match verified {
        Ok(true) => Ok(user_id),
        Ok(false) => Err(LoginError::InvalidPassword),
        Err(m) => Err(LoginError::PasswordHashError(m)),
    }
}

/// Logs in with `body`, given what the store holds for its email.
pub fn login(body: &LoginBody, fetched: Result<Option<Credentials>, String>) -> (r: Result<i32, LoginError>)
    ensures
        match fetched {
            Err(m) => r matches Err(LoginError::DatabaseError(m2)) && m2@ == m@,
            Ok(None) => r matches Err(LoginError::InvalidUser),
            Ok(Some(c)) => match verify_outcome(body.password@, c.password@) {
                Some(true) => r == Ok::<i32, LoginError>(c.user_id),
                Some(false) => r matches Err(LoginError::InvalidPassword),
                None => r matches Err(LoginError::PasswordHashError(_)),
            },
        },
{
    match fetched {
        Err(m) => Err(LoginError::DatabaseError(m)),
        Ok(None) => Err(LoginError::InvalidUser),
        Ok(Some(c)) => {
            let verified = verify(body.password.as_str(), c.password.as_str());
            login_outcome(c.user_id, verified)
        },
    }
}

} // verus!
