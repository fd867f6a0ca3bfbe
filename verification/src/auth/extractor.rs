//! The check that runs before every protected handler: from the value of
//! the authorization header to the caller's identity, or to a refusal.

use vstd::prelude::*;
use vstd::string::*;
use crate::auth::identity::{parse_user_id, uuid_of_text};
use crate::auth::jwt::{current_timestamp, live_claims, validate_token_at, Keys};
use crate::error::app_error::{fails_with, AppError};
use crate::error::user_error::{UserError, UserErrorView};
use crate::text::same_text;

verus! {

/// The caller of a protected route, as recovered from an access token.
#[derive(Debug, Clone, Copy, PartialEq, Eq, Structural)]
pub struct AuthenticatedUser {
    pub user_id: u128,
}

/// Whether `value` opens with the scheme `Bearer`, in any mix of upper and
/// lower case, and a single space after it.
pub open spec fn has_bearer_scheme(value: Seq<char>) -> bool {
    &&& value.len() > 6
    &&& (value[0] == 'B' || value[0] == 'b')
    &&& (value[1] == 'E' || value[1] == 'e')
    &&& (value[2] == 'A' || value[2] == 'a')
    &&& (value[3] == 'R' || value[3] == 'r')
    &&& (value[4] == 'E' || value[4] == 'e')
    &&& (value[5] == 'R' || value[5] == 'r')
    &&& value[6] == ' '
}

/// A space or a tab: the blanks that a header value can hold.
pub open spec fn is_blank(c: char) -> bool {
    c == ' ' || c == '\t'
}

/// The first position at or after `from` that holds no blank, or the
/// length of `value` if only blanks follow.
pub open spec fn blanks_end(value: Seq<char>, from: int) -> int
    decreases value.len() - from,
{
    if 0 <= from < value.len() && is_blank(value[from]) {
        blanks_end(value, from + 1)
    } else {
        from
    }
}

/// The token that a header value of the form `Bearer <token>` carries:
/// what follows the scheme and its space, without leading blanks. A value
/// of any other form carries none.
pub open spec fn bearer_token_of(value: Seq<char>) -> Option<Seq<char>> {
    if has_bearer_scheme(value) {
        Some(value.subrange(blanks_end(value, 7), value.len() as int))
    } else {
        None
    }
}

/// Takes the token out of the value of an authorization header.
pub fn bearer_token(value: &str) -> (token: Option<String>)
    ensures
        match bearer_token_of(value@) {
            Some(text) => token matches Some(found) && found@ == text,
            None => token is None,
        },
{
    let length = value.unicode_len();
    if length <= 6 {
        return None;
    }
    let b = value.get_char(0);
    let e = value.get_char(1);
    let a = value.get_char(2);
    let r = value.get_char(3);
    let e2 = value.get_char(4);
    let r2 = value.get_char(5);
    let space = value.get_char(6);
    let scheme = (b == 'B' || b == 'b') && (e == 'E' || e == 'e') && (a == 'A' || a == 'a') && (r
        == 'R' || r == 'r') && (e2 == 'E' || e2 == 'e') && (r2 == 'R' || r2 == 'r') && space == ' ';
    if !scheme {
        return None;
    }
    let mut start: usize = 7;
    let mut blank = true;
    while blank && start < length
        invariant
            7 <= start <= length,
            length == value@.len(),
            blanks_end(value@, 7) == blanks_end(value@, start as int),
            !blank ==> start < length && !is_blank(value@[start as int]),
        decreases length - start + (if blank { 1int } else { 0int }),
    {
        let c = value.get_char(start);
        if c == ' ' || c == '\t' {
            start = start + 1;
        } else {
            blank = false;
        }
    }
    let token = value.substring_char(start, length);
    Some(String::from_str(token))
}

/// What the check decides for a request whose authorization header holds
/// `authorization` (or is absent), under `secret` at second `now`. In
/// order: the header must be there and carry a bearer token; the token must
/// be genuine and not expired; it must be an access token; its subject must
/// spell a user identifier. Only a genuine token of the wrong kind is told
/// apart from the other refusals.
pub open spec fn authentication_outcome(
    authorization: Option<Seq<char>>,
    secret: Seq<u8>,
    now: u64,
) -> Result<u128, UserErrorView> {
    match authorization {
        None => Err(UserErrorView::InvalidCredentials),
        Some(value) => match bearer_token_of(value) {
            None => Err(UserErrorView::InvalidCredentials),
            Some(token) => match live_claims(token, secret, now) {
                None => Err(UserErrorView::InvalidCredentials),
                Some(claims) => if claims.token_type != "access"@ {
                    Err(UserErrorView::Unauthorized)
                } else {
                    match uuid_of_text(claims.sub) {
                        None => Err(UserErrorView::InvalidCredentials),
                        Some(user_id) => Ok(user_id),
                    }
                },
            },
        },
    }
}

/// The header value as plain text, where there is one.
pub open spec fn header_text(authorization: Option<&str>) -> Option<Seq<char>> {
    match authorization {
        Some(value) => Some(value@),
        None => None,
    }
}

impl AuthenticatedUser {
    /// Runs the check as of second `now`.
    pub fn from_authorization_at(keys: &Keys, authorization: Option<&str>, now: u64) -> (checked:
        Result<Self, AppError>)
        ensures
            match authentication_outcome(header_text(authorization), keys@, now) {
                Ok(user_id) => checked matches Ok(user) && user.user_id == user_id,
                Err(refusal) => fails_with(checked, refusal),
            },
    {
        let value = match authorization {
            Some(value) => value,
            None => {
                return Err(AppError::UserError(UserError::InvalidCredentials));
            },
        };
        let token = match bearer_token(value) {
            Some(token) => token,
            None => {
                return Err(AppError::UserError(UserError::InvalidCredentials));
            },
        };
        let claims = match validate_token_at(keys, token.as_str(), now) {
            Ok(claims) => claims,
            Err(error) => {
                return Err(error);
            },
        };
        if !same_text(claims.token_type.as_str(), "access") {
            return Err(AppError::UserError(UserError::Unauthorized));
        }
        match parse_user_id(claims.sub.as_str()) {
            Some(user_id) => Ok(AuthenticatedUser { user_id }),
            None => Err(AppError::UserError(UserError::InvalidCredentials)),
        }
    }

    /// Runs the check as of the current time.
    pub fn from_request_parts(keys: &Keys, authorization: Option<&str>) -> (checked: Result<
        Self,
        AppError,
    >)
        ensures
            exists|now: u64|
                match #[trigger] authentication_outcome(header_text(authorization), keys@, now) {
                    Ok(user_id) => checked matches Ok(user) && user.user_id == user_id,
                    Err(refusal) => fails_with(checked, refusal),
                },
            authorization is None ==> fails_with(checked, UserErrorView::InvalidCredentials),
            (authorization matches Some(value) && bearer_token_of(value@) is None) ==> fails_with(
                checked,
                UserErrorView::InvalidCredentials,
            ),
            checked is Err ==> fails_with(checked, UserErrorView::InvalidCredentials) || fails_with(
                checked,
                UserErrorView::Unauthorized,
            ),
    {
        let now = current_timestamp();
        Self::from_authorization_at(keys, authorization, now)
    }
}

} // verus!
