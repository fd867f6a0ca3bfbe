//! Users, their credentials, and the bodies of the user endpoints.

use vstd::prelude::*;
use vstd::string::*;
use validator::ValidateEmail;
use crate::error::user_error::{ValidationIssues, ValidationIssuesView};
use crate::text::{opt_text, texts};

verus! {

/// A registered user.
#[derive(Debug, Clone)]
pub struct User {
    pub id: u128,
    pub name: String,
    pub email: String,
    /// Seconds since the epoch.
    pub created_at: u64,
    pub updated_at: u64,
}

/// The credential of a user: how they prove who they are, and the one
/// refresh token that is live for them, if any.
#[derive(Debug, Clone)]
pub struct UserAuth {
    pub id: u128,
    pub user_id: u128,
    /// Absent where the user came in through an outside provider.
    pub password_hash: Option<String>,
    pub auth_provider: String,
    pub avatar_url: Option<String>,
    pub refresh_token: Option<String>,
    /// Seconds since the epoch.
    pub refresh_token_expires_at: Option<u64>,
    pub created_at: u64,
    pub updated_at: u64,
}

impl UserAuth {
    /// The refresh token and its expiry are both set or both absent.
    pub open spec fn well_formed(&self) -> bool {
        self.refresh_token is Some <==> self.refresh_token_expires_at is Some
    }
}

/// A user to be inserted, with their credential and roles.
#[derive(Debug, Clone)]
pub struct NewUser {
    pub name: String,
    pub email: String,
    pub password_hash: String,
    pub auth_provider: String,
    pub auth_provider_id: Option<String>,
    pub avatar_url: Option<String>,
    pub roles: Vec<String>,
}

/// A role granted to a user.
#[derive(Debug, Clone, Copy, PartialEq, Eq, Structural)]
pub struct UserRole {
    pub id: u128,
    pub role_id: u128,
    pub created_at: u64,
    pub updated_at: u64,
}

/// What a user may see of themselves.
#[derive(Debug, Clone)]
pub struct PublicUser {
    pub id: u128,
    pub name: String,
    pub email: String,
    pub auth_provider: String,
    pub avatar_url: Option<String>,
    pub roles: Vec<String>,
    pub created_at: u64,
    pub updated_at: u64,
}

/// The least number of characters in a password.
pub const MIN_PASSWORD_LENGTH: u64 = 8;

/// The body of a registration.
#[derive(Debug, Clone)]
pub struct RegisterUserRequest {
    pub name: String,
    pub email: String,
    pub password: String,
}

/// The body of a login.
#[derive(Debug, Clone)]
pub struct LoginRequest {
    pub email: String,
    pub password: String,
}

/// The pair of tokens that opens a session.
#[derive(Debug, Clone)]
pub struct LoginResponse {
    pub access_token: String,
    pub refresh_token: String,
    pub token_type: String,
}

/// The body of a refresh.
#[derive(Debug, Clone)]
pub struct RefreshTokenRequest {
    pub refresh_token: String,
}

/// The identifier of a role.
#[derive(Debug, Clone, Copy, PartialEq, Eq, Structural)]
pub struct RoleId {
    pub id: u128,
}

/// A user together with what is needed to log them in.
#[derive(Debug, Clone)]
pub struct UserWithAuth {
    pub id: u128,
    pub name: String,
    pub email: String,
    /// Absent where the user came in through an outside provider.
    pub password_hash: Option<String>,
    pub auth_provider: String,
    pub refresh_token: Option<String>,
    pub refresh_token_expires_at: Option<u64>,
}

/// A user as plain values.
pub ghost struct UserView {
    pub id: u128,
    pub name: Seq<char>,
    pub email: Seq<char>,
    pub created_at: u64,
    pub updated_at: u64,
}

impl View for User {
    type V = UserView;

    open spec fn view(&self) -> UserView {
        UserView {
            id: self.id,
            name: self.name@,
            email: self.email@,
            created_at: self.created_at,
            updated_at: self.updated_at,
        }
    }
}

/// A user to be inserted, as plain values.
pub ghost struct NewUserView {
    pub name: Seq<char>,
    pub email: Seq<char>,
    pub password_hash: Seq<char>,
    pub auth_provider: Seq<char>,
    pub auth_provider_id: Option<Seq<char>>,
    pub avatar_url: Option<Seq<char>>,
    pub roles: Seq<Seq<char>>,
}

impl View for NewUser {
    type V = NewUserView;

    open spec fn view(&self) -> NewUserView {
        NewUserView {
            name: self.name@,
            email: self.email@,
            password_hash: self.password_hash@,
            auth_provider: self.auth_provider@,
            auth_provider_id: opt_text(self.auth_provider_id),
            avatar_url: opt_text(self.avatar_url),
            roles: texts(self.roles@),
        }
    }
}

/// A profile as plain values.
pub ghost struct PublicUserView {
    pub id: u128,
    pub name: Seq<char>,
    pub email: Seq<char>,
    pub auth_provider: Seq<char>,
    pub avatar_url: Option<Seq<char>>,
    pub roles: Seq<Seq<char>>,
    pub created_at: u64,
    pub updated_at: u64,
}

impl View for PublicUser {
    type V = PublicUserView;

    open spec fn view(&self) -> PublicUserView {
        PublicUserView {
            id: self.id,
            name: self.name@,
            email: self.email@,
            auth_provider: self.auth_provider@,
            avatar_url: opt_text(self.avatar_url),
            roles: texts(self.roles@),
            created_at: self.created_at,
            updated_at: self.updated_at,
        }
    }
}

/// A user with their credential, as plain values.
pub ghost struct UserWithAuthView {
    pub id: u128,
    pub name: Seq<char>,
    pub email: Seq<char>,
    pub password_hash: Option<Seq<char>>,
    pub auth_provider: Seq<char>,
    pub refresh_token: Option<Seq<char>>,
    pub refresh_token_expires_at: Option<u64>,
}

impl View for UserWithAuth {
    type V = UserWithAuthView;

    open spec fn view(&self) -> UserWithAuthView {
        UserWithAuthView {
            id: self.id,
            name: self.name@,
            email: self.email@,
            password_hash: opt_text(self.password_hash),
            auth_provider: self.auth_provider@,
            refresh_token: opt_text(self.refresh_token),
            refresh_token_expires_at: self.refresh_token_expires_at,
        }
    }
}

/// A pair of tokens as plain values.
pub ghost struct LoginResponseView {
    pub access_token: Seq<char>,
    pub refresh_token: Seq<char>,
    pub token_type: Seq<char>,
}

impl View for LoginResponse {
    type V = LoginResponseView;

    open spec fn view(&self) -> LoginResponseView {
        LoginResponseView {
            access_token: self.access_token@,
            refresh_token: self.refresh_token@,
            token_type: self.token_type@,
        }
    }
}

/// Whether `email` is an address as HTML5 forms understand one.
pub uninterp spec fn email_well_formed(email: Seq<char>) -> bool;

/// Checks an address, by `validator::ValidateEmail::validate_email`.
/// Trusted: the outcome is named `email_well_formed`; an address that
/// passes is not empty and holds an `@`, which the check tests first.
#[verifier::external_body]
fn is_email(email: &str) -> (valid: bool)
    ensures
        valid == email_well_formed(email@),
        valid ==> email@.len() > 0 && email@.contains('@'),
{
    email.validate_email()
}

/// The fields of a body that are refused: an address that is not well
/// formed, which is then quoted, and a password of fewer than eight
/// characters.
pub open spec fn request_issues(email: Seq<char>, password: Seq<char>) -> ValidationIssuesView {
    ValidationIssuesView {
        email: if email_well_formed(email) {
            None
        } else {
            Some(email)
        },
        password: password.len() < MIN_PASSWORD_LENGTH,
    }
}

/// Whether no field is refused.
pub open spec fn request_accepted(email: Seq<char>, password: Seq<char>) -> bool {
    email_well_formed(email) && password.len() >= MIN_PASSWORD_LENGTH
}

/// Whether `checked` is what checking the two fields must give: nothing
/// where both are accepted, and otherwise the fields that are refused.
pub open spec fn checked_fields(
    email: Seq<char>,
    password: Seq<char>,
    checked: Result<(), ValidationIssues>,
) -> bool {
    match checked {
        Ok(_) => request_accepted(email, password),
        Err(issues) => !request_accepted(email, password) && issues@ == request_issues(
            email,
            password,
        ),
    }
}

/// Checks the two fields that both bodies share.
fn validate_fields(email: &str, password: &str) -> (checked: Result<(), ValidationIssues>)
    ensures
        checked_fields(email@, password@, checked),
        request_accepted(email@, password@) ==> email@.contains('@'),
{
    let refused_email = if is_email(email) {
        None
    } else {
        Some(email.to_owned())
    };
    let short_password = password.unicode_len() < 8;
    if refused_email.is_some() || short_password {
        Err(ValidationIssues { email: refused_email, password: short_password })
    } else {
        Ok(())
    }
}

impl RegisterUserRequest {
    /// Accepts the body, or says which fields are refused. An address
    /// without an `@` is never accepted.
    pub fn validate(&self) -> (checked: Result<(), ValidationIssues>)
        ensures
            checked_fields(self.email@, self.password@, checked),
            request_accepted(self.email@, self.password@) ==> self.email@.contains('@'),
    {
        validate_fields(self.email.as_str(), self.password.as_str())
    }
}

impl LoginRequest {
    /// Accepts the body, or says which fields are refused. An address
    /// without an `@` is never accepted.
    pub fn validate(&self) -> (checked: Result<(), ValidationIssues>)
        ensures
            checked_fields(self.email@, self.password@, checked),
            request_accepted(self.email@, self.password@) ==> self.email@.contains('@'),
    {
        validate_fields(self.email.as_str(), self.password.as_str())
    }
}

} // verus!
