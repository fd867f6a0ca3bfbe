//! Signed, expiring identity tokens. A token is three dot-joined base64url
//! segments (header, claims, signature) under HMAC-SHA256 with the
//! process-wide secret; its claims name the user, the kind of token and the
//! second at which it expires.

use vstd::prelude::*;
use vstd::slice::*;
use crate::auth::identity::{format_user_id, uuid_of_text, uuid_text};
use crate::error::app_error::{fails_with, AppError};
use crate::error::user_error::{UserError, UserErrorView};
use crate::text::same_text;

verus! {

/// Seconds for which an access token is good: fifteen minutes.
pub const ACCESS_TOKEN_EXPIRATION: u64 = 900;

/// Seconds for which a refresh token is good: seven days.
pub const REFRESH_TOKEN_EXPIRATION: u64 = 604800;

/// The signing secret, read once at start and handed to whoever issues or
/// checks a token.
pub struct Keys {
    secret: Vec<u8>,
}

impl View for Keys {
    type V = Seq<u8>;

    closed spec fn view(&self) -> Seq<u8> {
        self.secret@
    }
}

impl Keys {
    /// Keeps a copy of the secret.
    pub fn new(secret: &[u8]) -> (keys: Self)
        ensures
            keys@ == secret@,
    {
        Keys { secret: slice_to_vec(secret) }
    }
}

/// What a token says: who, which kind, and until when.
#[derive(Debug, Clone)]
pub struct Claims {
    pub sub: String,
    pub token_type: String,
    pub expire: u64,
}

/// The claims of a token as plain values.
pub ghost struct ClaimsView {
    pub sub: Seq<char>,
    pub token_type: Seq<char>,
    pub expire: u64,
}

impl View for Claims {
    type V = ClaimsView;

    open spec fn view(&self) -> ClaimsView {
        ClaimsView { sub: self.sub@, token_type: self.token_type@, expire: self.expire }
    }
}

/// The compact token that signing these claims under `secret` gives, if
/// signing succeeds.
pub uninterp spec fn hs256_token(
    sub: Seq<char>,
    token_type: Seq<char>,
    expire: u64,
    secret: Seq<u8>,
) -> Option<Seq<char>>;

/// The claims that `token` carries, if it is well formed, holds the three
/// claims, and its signature verifies under `secret`. Expiry plays no part.
pub uninterp spec fn signed_claims(token: Seq<char>, secret: Seq<u8>) -> Option<ClaimsView>;

/// Signs the three claims, by `jsonwebtoken::encode` with the default
/// header (HS256) and a key made by `EncodingKey::from_secret`. Trusted:
/// the token is named `hs256_token`, and decoding it under the same secret
/// gives the same claims back.
#[verifier::external_body]
fn sign_claims(sub: &str, token_type: &str, expire: u64, secret: &[u8]) -> (token: Option<String>)
    ensures
        match token {
            Some(text) => hs256_token(sub@, token_type@, expire, secret@) == Some(text@)
                && signed_claims(text@, secret@) == Some(
                (ClaimsView { sub: sub@, token_type: token_type@, expire }),
            ),
            None => hs256_token(sub@, token_type@, expire, secret@) is None,
        },
{
    let mut claims = serde_json::Map::new();
    claims.insert("sub".to_owned(), serde_json::Value::from(sub));
    claims.insert("token_type".to_owned(), serde_json::Value::from(token_type));
    claims.insert("expire".to_owned(), serde_json::Value::from(expire));
    let key = jsonwebtoken::EncodingKey::from_secret(secret);
    jsonwebtoken::encode(&jsonwebtoken::Header::default(), &claims, &key).ok()
}

/// Checks the signature and reads the three claims, by
/// `jsonwebtoken::decode` under HS256 with a key made by
/// `DecodingKey::from_secret`. The crate's own expiry rule is switched off,
/// since it reads another claim; expiry is checked by the caller. Trusted:
/// the outcome is named `signed_claims`.
#[verifier::external_body]
fn read_claims(token: &str, secret: &[u8]) -> (claims: Option<Claims>)
    ensures
        match claims {
            Some(found) => signed_claims(token@, secret@) == Some(found@),
            None => signed_claims(token@, secret@) is None,
        },
{
    let mut rules = jsonwebtoken::Validation::new(jsonwebtoken::Algorithm::HS256);
    rules.validate_exp = false;
    rules.required_spec_claims.clear();
    let key = jsonwebtoken::DecodingKey::from_secret(secret);
    let found = jsonwebtoken::decode::<serde_json::Value>(token, &key, &rules).ok()?.claims;
    Some(Claims {
        sub: found.get("sub")?.as_str()?.to_owned(),
        token_type: found.get("token_type")?.as_str()?.to_owned(),
        expire: found.get("expire")?.as_u64()?,
    })
}

/// The current time in seconds since the epoch, by
/// `jsonwebtoken::get_current_timestamp`. Trusted; nothing is claimed of
/// the value. The call gives up if the system clock stands before the epoch.
#[verifier::external_body]
pub(crate) fn current_timestamp() -> (now: u64) {
    jsonwebtoken::get_current_timestamp()
}

/// How long a token of the given kind is good for, in seconds. Only
/// `access` and `refresh` are kinds.
pub open spec fn expiration_window(token_type: Seq<char>) -> Option<u64> {
    if token_type == "access"@ {
        Some(ACCESS_TOKEN_EXPIRATION)
    } else if token_type == "refresh"@ {
        Some(REFRESH_TOKEN_EXPIRATION)
    } else {
        None
    }
}

/// The claims put into a token issued at `now` with a window of `window`
/// seconds.
pub open spec fn claims_at(
    user_id: u128,
    token_type: Seq<char>,
    now: u64,
    window: u64,
) -> ClaimsView
    recommends
        now + window <= u64::MAX,
{
    ClaimsView { sub: uuid_text(user_id), token_type, expire: (now + window) as u64 }
}

/// The token of kind `token_type` that is issued for `user_id` at second
/// `now`: the signed form of the claims. There is none where the kind is
/// unknown, where the expiry would lie past the last representable second,
/// or where signing fails.
pub open spec fn issued_token(
    secret: Seq<u8>,
    user_id: u128,
    token_type: Seq<char>,
    now: u64,
) -> Option<Seq<char>> {
    match expiration_window(token_type) {
        Some(window) => if now + window <= u64::MAX {
            hs256_token(uuid_text(user_id), token_type, (now + window) as u64, secret)
        } else {
            None
        },
        None => None,
    }
}

/// Whether `token` reads back, under the secret it was signed with, as a
/// token of kind `token_type` for `user_id` that expires `window` seconds
/// after `now`.
pub open spec fn reads_back(
    token: Seq<char>,
    secret: Seq<u8>,
    user_id: u128,
    token_type: Seq<char>,
    now: u64,
    window: u64,
) -> bool {
    &&& now + window <= u64::MAX
    &&& signed_claims(token, secret) == Some(claims_at(user_id, token_type, now, window))
    &&& uuid_of_text(uuid_text(user_id)) == Some(user_id)
}

/// Whether `issued` is what issuing a token of kind `token_type` for
/// `user_id` at second `now` must give: an unknown kind is refused as
/// unauthorized; where there is no token for another reason, that is an
/// internal error; otherwise it is the issued token, and it reads back as
/// what it was issued for.
pub open spec fn issue_outcome(
    secret: Seq<u8>,
    user_id: u128,
    token_type: Seq<char>,
    now: u64,
    issued: Result<String, AppError>,
) -> bool {
    match expiration_window(token_type) {
        None => fails_with(issued, UserErrorView::Unauthorized),
        Some(window) => match issued_token(secret, user_id, token_type, now) {
            Some(text) => {
                &&& issued matches Ok(token) && token@ == text
                &&& reads_back(text, secret, user_id, token_type, now, window)
            },
            None => issued matches Err(AppError::InternalServerError),
        },
    }
}

/// Whether `token` is genuine under `secret` and still good at second
/// `now`: its expiry must lie strictly in the future.
pub open spec fn live_claims(token: Seq<char>, secret: Seq<u8>, now: u64) -> Option<ClaimsView> {
    match signed_claims(token, secret) {
        Some(claims) => if claims.expire > now {
            Some(claims)
        } else {
            None
        },
        None => None,
    }
}

/// Issues a token of kind `token_type` for `user_id` as of second `now`.
pub fn generate_token_at(keys: &Keys, user_id: u128, token_type: &str, now: u64) -> (issued: Result<
    String,
    AppError,
>)
    ensures
        issue_outcome(keys@, user_id, token_type@, now, issued),
{
    let window: u64 = if same_text(token_type, "access") {
        ACCESS_TOKEN_EXPIRATION
    } else if same_text(token_type, "refresh") {
        REFRESH_TOKEN_EXPIRATION
    } else {
        return Err(AppError::UserError(UserError::Unauthorized));
    };
    let expire: u64 = match now.checked_add(window) {
        Some(expire) => expire,
        None => {
            return Err(AppError::InternalServerError);
        },
    };
    let sub = format_user_id(user_id);
    match sign_claims(sub.as_str(), token_type, expire, keys.secret.as_slice()) {
        Some(token) => Ok(token),
        None => Err(AppError::InternalServerError),
    }
}

/// Issues a token of kind `token_type` for `user_id` as of the current
/// time.
pub fn generate_token(keys: &Keys, user_id: u128, token_type: &str) -> (issued: Result<
    String,
    AppError,
>)
    ensures
        exists|now: u64| issue_outcome(keys@, user_id, token_type@, now, issued),
{
    let now = current_timestamp();
    generate_token_at(keys, user_id, token_type, now)
}

/// Checks a token as of second `now`. Whatever is wrong with it (the
/// signature, the shape, the expiry), the failure is the same.
pub fn validate_token_at(keys: &Keys, token: &str, now: u64) -> (decoded: Result<Claims, AppError>)
    ensures
        match live_claims(token@, keys@, now) {
            Some(claims) => decoded matches Ok(found) && found@ == claims,
            None => fails_with(decoded, UserErrorView::InvalidCredentials),
        },
{
    match read_claims(token, keys.secret.as_slice()) {
        Some(claims) => {
            if claims.expire > now {
                Ok(claims)
            } else {
                Err(AppError::UserError(UserError::InvalidCredentials))
            }
        },
        None => Err(AppError::UserError(UserError::InvalidCredentials)),
    }
}

/// Checks a token as of the current time.
pub fn validate_token(keys: &Keys, token: &str) -> (decoded: Result<Claims, AppError>)
    ensures
        exists|now: u64|
            match #[trigger] live_claims(token@, keys@, now) {
                Some(claims) => decoded matches Ok(found) && found@ == claims,
                None => fails_with(decoded, UserErrorView::InvalidCredentials),
            },
{
    let now = current_timestamp();
    validate_token_at(keys, token, now)
}

/// A genuine token is good at second `now` exactly when its expiry lies
/// strictly after `now`: one that expired a second ago is rejected, as is
/// one that expires this very second; one that expires a second from now
/// is accepted.
pub proof fn lemma_expiry_boundary(token: Seq<char>, secret: Seq<u8>, now: u64)
    requires
        signed_claims(token, secret) is Some,
    ensures
        live_claims(token, secret, now) is Some <==> signed_claims(token, secret).unwrap().expire
            > now,
        signed_claims(token, secret).unwrap().expire + 1 == now ==> live_claims(token, secret, now)
            is None,
        signed_claims(token, secret).unwrap().expire == now + 1 ==> live_claims(token, secret, now)
            == signed_claims(token, secret),
{
}

/// A token that reads back as issued at second `issued_at` with a window
/// of `window` seconds is good before `issued_at + window` and at no
/// second from then on.
pub proof fn lemma_issued_token_lifetime(
    token: Seq<char>,
    secret: Seq<u8>,
    user_id: u128,
    token_type: Seq<char>,
    issued_at: u64,
    window: u64,
    now: u64,
)
    requires
        reads_back(token, secret, user_id, token_type, issued_at, window),
    ensures
        live_claims(token, secret, now) is Some <==> now < issued_at + window,
        live_claims(token, secret, now) is Some ==> live_claims(token, secret, now) == Some(
            claims_at(user_id, token_type, issued_at, window),
        ),
{
}

/// Two tokens that read back as issued at different seconds, with the same
/// window, are different tokens; so are two of different kinds, and two
/// for different users.
pub proof fn lemma_issued_tokens_differ(
    first: Seq<char>,
    second: Seq<char>,
    secret: Seq<u8>,
    first_user: u128,
    second_user: u128,
    first_type: Seq<char>,
    second_type: Seq<char>,
    first_at: u64,
    second_at: u64,
    window: u64,
)
    requires
        reads_back(first, secret, first_user, first_type, first_at, window),
        reads_back(second, secret, second_user, second_type, second_at, window),
        first_at != second_at || first_type != second_type || first_user != second_user,
    ensures
        first != second,
{
}

} // verus!
