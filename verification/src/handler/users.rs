//! The user endpoints: registration, login, logout, refresh and the
//! caller's own profile. Each endpoint is laid out twice: as the decisions
//! it takes between two calls into the persistence layer, for a server that
//! keeps its users elsewhere, and as one call on a `UserStore`.

use vstd::prelude::*;
use vstd::string::*;
use crate::auth::extractor::{authentication_outcome, bearer_token_of, AuthenticatedUser};
use crate::auth::hashing::{
    argon2id_digest, digest_accepts, hash_outcome, hash_password, hashed_under, verify_password,
};
use crate::auth::identity::{format_user_id, fresh_user_id, uuid_of_text, uuid_text};
use crate::auth::jwt::{
    current_timestamp, generate_token_at, issued_token, live_claims, reads_back, signed_claims,
    validate_token_at, Claims, ClaimsView, Keys, ACCESS_TOKEN_EXPIRATION,
    REFRESH_TOKEN_EXPIRATION,
};
use crate::db::users::{
    email_exists, email_taken, first_from, first_record, get_user_by_id,
    get_user_by_refresh_token_at, get_user_with_auth_by_email, has_email, has_id,
    holds_live_token, insert_refusal, insert_user_as, invalidate_refresh_token, lemma_first_from,
    login_view_of, new_record, owner_of_token, profile_of, store_refresh_token_at, with_session,
    UserRecordView, UserStore, UserTableView, STORED_TOKEN_LIFETIME,
};
use crate::error::app_error::{fails_as, fails_with, AppError, AppErrorView};
use crate::error::user_error::{UserError, UserErrorView};
use crate::models::users::{
    request_accepted, request_issues, LoginRequest, LoginResponse, LoginResponseView, NewUser,
    NewUserView, PublicUser, RefreshTokenRequest, RegisterUserRequest, UserWithAuth,
    UserWithAuthView,
};
use crate::text::same_text;
use crate::utils::response::{ApiResponse, EmptyResponse};

verus! {

/// The pair of tokens issued for `user_id` at second `now`: an access token
/// and a refresh token, labelled as bearer tokens. There is none unless
/// both tokens can be issued.
pub open spec fn session_at(secret: Seq<u8>, user_id: u128, now: u64) -> Option<LoginResponseView> {
    match (
        issued_token(secret, user_id, "access"@, now),
        issued_token(secret, user_id, "refresh"@, now),
    ) {
        (Some(access_token), Some(refresh_token)) => Some(
            LoginResponseView { access_token, refresh_token, token_type: "Bearer"@ },
        ),
        _ => None,
    }
}

/// Both tokens of a pair read back as what they were issued for.
pub open spec fn session_reads_back(
    session: LoginResponseView,
    secret: Seq<u8>,
    user_id: u128,
    now: u64,
) -> bool {
    &&& reads_back(session.access_token, secret, user_id, "access"@, now, ACCESS_TOKEN_EXPIRATION)
    &&& reads_back(
        session.refresh_token,
        secret,
        user_id,
        "refresh"@,
        now,
        REFRESH_TOKEN_EXPIRATION,
    )
}

/// Issues the pair of tokens for `user_id` as of second `now`.
pub fn issue_session_at(keys: &Keys, user_id: u128, now: u64) -> (issued: Result<
    LoginResponse,
    AppError,
>)
    ensures
        match session_at(keys@, user_id, now) {
            Some(session) => issued matches Ok(response) && response@ == session
                && session_reads_back(session, keys@, user_id, now),
            None => issued matches Err(AppError::InternalServerError),
        },
{
    proof {
        reveal_strlit("access");
        reveal_strlit("refresh");
        assert("access"@.len() != "refresh"@.len());
    }
    let access_token = match generate_token_at(keys, user_id, "access", now) {
        Ok(token) => token,
        Err(_) => {
            return Err(AppError::InternalServerError);
        },
    };
    let refresh_token = match generate_token_at(keys, user_id, "refresh", now) {
        Ok(token) => token,
        Err(_) => {
            return Err(AppError::InternalServerError);
        },
    };
    Ok(LoginResponse { access_token, refresh_token, token_type: String::from_str("Bearer") })
}

/// Issues the pair of tokens for `user_id` as of the current time.
pub fn issue_session(keys: &Keys, user_id: u128) -> (issued: Result<LoginResponse, AppError>)
    ensures
        exists|now: u64|
            match #[trigger] session_at(keys@, user_id, now) {
                Some(session) => issued matches Ok(response) && response@ == session
                    && session_reads_back(session, keys@, user_id, now),
                None => issued matches Err(AppError::InternalServerError),
            },
{
    let now = current_timestamp();
    issue_session_at(keys, user_id, now)
}

/// The user to insert for a registration by email and password: the
/// provider is `email`, the one role is `user`.
pub open spec fn email_user(
    name: Seq<char>,
    email: Seq<char>,
    password_hash: Seq<char>,
) -> NewUserView {
    NewUserView {
        name,
        email,
        password_hash,
        auth_provider: "email"@,
        auth_provider_id: None,
        avatar_url: None,
        roles: seq!["user"@],
    }
}

/// Builds the user to insert for a registration.
pub fn new_email_user(payload: RegisterUserRequest, password_hash: String) -> (new_user: NewUser)
    ensures
        new_user@ == email_user(payload.name@, payload.email@, password_hash@),
{
    let mut roles: Vec<String> = Vec::new();
    roles.push(String::from_str("user"));
    let new_user = NewUser {
        name: payload.name,
        email: payload.email,
        password_hash,
        auth_provider: String::from_str("email"),
        auth_provider_id: None,
        avatar_url: None,
        roles,
    };
    assert(new_user@.roles =~= seq!["user"@]);
    new_user
}

/// Who logs in with `password`, given the user found under the email: the
/// user, if they have a digest and it accepts the password. An unknown
/// email, a user without a digest and a wrong password are one and the same
/// refusal.
pub open spec fn password_subject(
    found: Option<UserWithAuthView>,
    password: Seq<char>,
) -> Result<u128, UserErrorView> {
    match found {
        Some(user) => match user.password_hash {
            Some(digest) => if digest_accepts(digest, password) {
                Ok(user.id)
            } else {
                Err(UserErrorView::InvalidCredentials)
            },
            None => Err(UserErrorView::InvalidCredentials),
        },
        None => Err(UserErrorView::InvalidCredentials),
    }
}

/// The view of a user that may be absent.
pub open spec fn found_view(found: Option<UserWithAuth>) -> Option<UserWithAuthView> {
    match found {
        Some(user) => Some(user@),
        None => None,
    }
}

/// Decides a login from the user found under the email.
pub fn check_password(found: &Option<UserWithAuth>, password: &str) -> (checked: Result<
    u128,
    AppError,
>)
    ensures
        match password_subject(found_view(*found), password@) {
            Ok(user_id) => checked == Ok::<u128, AppError>(user_id),
            Err(refusal) => fails_with(checked, refusal),
        },
{
    match found {
        Some(user) => match &user.password_hash {
            Some(digest) => {
                if verify_password(password, digest.as_str()) {
                    Ok(user.id)
                } else {
                    Err(AppError::UserError(UserError::InvalidCredentials))
                }
            },
            None => Err(AppError::UserError(UserError::InvalidCredentials)),
        },
        None => Err(AppError::UserError(UserError::InvalidCredentials)),
    }
}

/// The claims of a token presented for refreshing at second `now`: it must
/// be genuine and not expired, and it must be a refresh token.
pub open spec fn refresh_claims(
    token: Seq<char>,
    secret: Seq<u8>,
    now: u64,
) -> Result<ClaimsView, UserErrorView> {
    match live_claims(token, secret, now) {
        Some(claims) => if claims.token_type == "refresh"@ {
            Ok(claims)
        } else {
            Err(UserErrorView::Unauthorized)
        },
        None => Err(UserErrorView::InvalidCredentials),
    }
}

/// Checks a token presented for refreshing, as of second `now`.
pub fn check_refresh_token_at(keys: &Keys, refresh_token: &str, now: u64) -> (checked: Result<
    Claims,
    AppError,
>)
    ensures
        match refresh_claims(refresh_token@, keys@, now) {
            Ok(claims) => checked matches Ok(found) && found@ == claims,
            Err(refusal) => fails_with(checked, refusal),
        },
{
    let claims = match validate_token_at(keys, refresh_token, now) {
        Ok(claims) => claims,
        Err(error) => {
            return Err(error);
        },
    };
    if !same_text(claims.token_type.as_str(), "refresh") {
        return Err(AppError::UserError(UserError::Unauthorized));
    }
    Ok(claims)
}

/// Checks a token presented for refreshing, as of the current time.
pub fn check_refresh_token(keys: &Keys, refresh_token: &str) -> (checked: Result<Claims, AppError>)
    ensures
        exists|now: u64|
            match #[trigger] refresh_claims(refresh_token@, keys@, now) {
                Ok(claims) => checked matches Ok(found) && found@ == claims,
                Err(refusal) => fails_with(checked, refusal),
            },
{
    let now = current_timestamp();
    check_refresh_token_at(keys, refresh_token, now)
}

/// The owner of a refresh token, as the table reported it. A token that
/// the table does not hold as live is refused, whatever it says of itself.
pub fn require_owner(found: Option<u128>) -> (owner: Result<u128, AppError>)
    ensures
        match found {
            Some(user_id) => owner == Ok::<u128, AppError>(user_id),
            None => fails_with(owner, UserErrorView::Unauthorized),
        },
{
    match found {
        Some(user_id) => Ok(user_id),
        None => Err(AppError::UserError(UserError::Unauthorized)),
    }
}

/// The message for a caller whose token is good but whose record is gone.
pub open spec fn missing_user_message(user_id: u128) -> Seq<char> {
    "User id "@ + uuid_text(user_id) + " not found!"@
}

/// The profile found for `user_id`, or the failure that says it is gone.
pub fn profile_or_not_found(found: Option<PublicUser>, user_id: u128) -> (profile: Result<
    PublicUser,
    AppError,
>)
    ensures
        match found {
            Some(user) => profile == Ok::<PublicUser, AppError>(user),
            None => profile matches Err(AppError::NotFound(text)) && text@ == missing_user_message(
                user_id,
            ),
        },
{
    match found {
        Some(user) => Ok(user),
        None => {
            let id_text = format_user_id(user_id);
            let mut text = String::from_str("User id ");
            text.append(id_text.as_str());
            text.append(" not found!");
            Err(AppError::NotFound(text))
        },
    }
}

/// How an endpoint that opens a session ends: what it answers, and the
/// records it leaves behind.
pub ghost struct FlowOutcome {
    pub result: Result<LoginResponseView, AppErrorView>,
    pub rows: Seq<UserRecordView>,
}

/// The endpoint refuses and leaves the records as they were.
pub open spec fn refused(rows: Seq<UserRecordView>, refusal: UserErrorView) -> FlowOutcome {
    FlowOutcome { result: Err(AppErrorView::UserError(refusal)), rows }
}

/// The endpoint fails and leaves the records as they were.
pub open spec fn failed(rows: Seq<UserRecordView>, failure: AppErrorView) -> FlowOutcome {
    FlowOutcome { result: Err(failure), rows }
}

/// Opening a session for `user_id` at second `now`: a fresh pair of tokens
/// is issued, and the refresh token becomes the one stored for the user, in
/// place of any other, good for seven days. Where no pair can be issued the
/// records stay as they were.
pub open spec fn opened_session(
    rows: Seq<UserRecordView>,
    secret: Seq<u8>,
    user_id: u128,
    now: u64,
) -> FlowOutcome {
    match session_at(secret, user_id, now) {
        Some(session) => FlowOutcome {
            result: Ok(session),
            rows: with_session(
                rows,
                user_id,
                Some(session.refresh_token),
                Some((now + STORED_TOKEN_LIFETIME) as u64),
            ),
        },
        None => FlowOutcome { result: Err(AppErrorView::InternalServerError), rows },
    }
}

/// Whether `response` is the answer with status `status` that `expected`
/// calls for.
pub open spec fn answers(
    response: Result<ApiResponse<LoginResponse>, AppError>,
    status: u16,
    expected: Result<LoginResponseView, AppErrorView>,
) -> bool {
    match expected {
        Ok(session) => {
            &&& response matches Ok(body)
            &&& body.success
            &&& body.status_code == status
            &&& body.error is None
            &&& body.data matches Some(data) && data@ == session
        },
        Err(failure) => fails_as(response, failure),
    }
}

/// Whether the pair in an answer, where the answer is a success, reads back
/// as one access token and one refresh token issued for `user_id` at second
/// `now`.
pub open spec fn pair_reads_back(
    response: Result<ApiResponse<LoginResponse>, AppError>,
    secret: Seq<u8>,
    user_id: u128,
    now: u64,
) -> bool {
    response matches Ok(body) ==> (body.data matches Some(session) && session_reads_back(
        session@,
        secret,
        user_id,
        now,
    ))
}

/// The user found under an email, as the login sees them.
pub open spec fn login_candidate(rows: Seq<UserRecordView>, email: Seq<char>) -> Option<
    UserWithAuthView,
> {
    match first_record(rows, has_email(email)) {
        Some(row) => Some(login_view_of(row)),
        None => None,
    }
}

/// Who a login with `email` and `password` logs in: the body must be
/// accepted, and the password must be that of the user under the email.
pub open spec fn login_subject(
    rows: Seq<UserRecordView>,
    email: Seq<char>,
    password: Seq<char>,
) -> Result<u128, UserErrorView> {
    if !request_accepted(email, password) {
        Err(UserErrorView::ValidationError(request_issues(email, password)))
    } else {
        password_subject(login_candidate(rows, email), password)
    }
}

/// How a login with `email` and `password` at second `now` ends. A body
/// that is refused, an unknown email and a wrong password leave the records
/// as they were; a success opens a session for the user.
pub open spec fn login_outcome(
    rows: Seq<UserRecordView>,
    secret: Seq<u8>,
    email: Seq<char>,
    password: Seq<char>,
    now: u64,
) -> FlowOutcome {
    match login_subject(rows, email, password) {
        Ok(user_id) => opened_session(rows, secret, user_id, now),
        Err(refusal) => refused(rows, refusal),
    }
}

/// Who a refresh with `token` at second `now` opens a new session for: the
/// user for whom the table holds the token as live, once the token has
/// passed as a refresh token.
pub open spec fn refresh_subject(
    rows: Seq<UserRecordView>,
    secret: Seq<u8>,
    token: Seq<char>,
    now: u64,
) -> Result<u128, UserErrorView> {
    match refresh_claims(token, secret, now) {
        Ok(_) => match owner_of_token(rows, token, now) {
            Some(user_id) => Ok(user_id),
            None => Err(UserErrorView::Unauthorized),
        },
        Err(refusal) => Err(refusal),
    }
}

/// How a refresh with `token` at second `now` ends. The token must pass as
/// a refresh token, and the table must hold it as the live token of a user;
/// what the token says of its subject plays no part. A success opens a new
/// session for that user, which takes the place of the one presented.
pub open spec fn refresh_outcome(
    rows: Seq<UserRecordView>,
    secret: Seq<u8>,
    token: Seq<char>,
    now: u64,
) -> FlowOutcome {
    match refresh_subject(rows, secret, token, now) {
        Ok(user_id) => opened_session(rows, secret, user_id, now),
        Err(refusal) => refused(rows, refusal),
    }
}

/// Why a registration is turned away before anything is hashed or stored:
/// the body is refused, or the email is taken.
pub open spec fn registration_refusal(
    rows: Seq<UserRecordView>,
    email: Seq<char>,
    password: Seq<char>,
) -> Option<UserErrorView> {
    if !request_accepted(email, password) {
        Some(UserErrorView::ValidationError(request_issues(email, password)))
    } else if email_taken(rows, email) {
        Some(UserErrorView::EmailAlreadyExists)
    } else {
        None
    }
}

/// How an admitted registration ends, given what hashing the password
/// gave, the identifier drawn for the user and the second `now`. Where
/// hashing failed, its failure is handed on and nothing is stored. A user
/// who cannot be inserted leaves the records as they were. Once the user is
/// in, a session is opened; where no tokens can be issued the user stays
/// in, without one.
pub open spec fn registration_outcome(
    store: UserTableView,
    secret: Seq<u8>,
    name: Seq<char>,
    email: Seq<char>,
    hashed: Result<Seq<char>, AppErrorView>,
    user_id: u128,
    now: u64,
) -> FlowOutcome {
    match hashed {
        Ok(password_hash) => {
            let new_user = email_user(name, email, password_hash);
            match insert_refusal(store, new_user, user_id) {
                Some(refusal) => failed(store.rows, refusal),
                None => opened_session(
                    store.rows.push(new_record(new_user, user_id, now)),
                    secret,
                    user_id,
                    now,
                ),
            }
        },
        Err(failure) => failed(store.rows, failure),
    }
}

/// What hashing gave, as plain values.
pub open spec fn hashed_view(hashed: Result<String, AppError>) -> Result<Seq<char>, AppErrorView> {
    match hashed {
        Ok(digest) => Ok(digest@),
        Err(error) => Err(error@),
    }
}

/// Whether `token` is a genuine token whose subject spells `user_id`.
pub open spec fn token_belongs_to(token: Seq<char>, secret: Seq<u8>, user_id: u128) -> bool {
    signed_claims(token, secret) matches Some(claims) && uuid_of_text(claims.sub) == Some(user_id)
}

/// Whether every refresh token in the table is a genuine token of the user
/// it is stored for. This holds of an empty table, and every endpoint keeps
/// it.
pub open spec fn sessions_genuine(rows: Seq<UserRecordView>, secret: Seq<u8>) -> bool {
    forall|i: int|
        0 <= i < rows.len() ==> ((#[trigger] rows[i]).refresh_token matches Some(token)
            ==> token_belongs_to(token, secret, rows[i].id))
}

/// Setting the session of a user to a token of their own, or to none,
/// keeps the stored tokens genuine.
pub proof fn lemma_with_session_genuine(
    rows: Seq<UserRecordView>,
    secret: Seq<u8>,
    user_id: u128,
    token: Option<Seq<char>>,
    expiry: Option<u64>,
)
    requires
        sessions_genuine(rows, secret),
        token matches Some(text) ==> token_belongs_to(text, secret, user_id),
    ensures
        sessions_genuine(with_session(rows, user_id, token, expiry), secret),
{
    let after = with_session(rows, user_id, token, expiry);
    assert forall|i: int| 0 <= i < after.len() implies ((#[trigger] after[i]).refresh_token matches Some(
        text,
    ) ==> token_belongs_to(text, secret, after[i].id)) by {
        assert(rows[i].id == after[i].id);
    }
}

/// Whether an endpoint that took the table from `before` to `after` kept
/// the stored tokens genuine.
pub open spec fn keeps_genuine(
    before: Seq<UserRecordView>,
    after: Seq<UserRecordView>,
    secret: Seq<u8>,
) -> bool {
    sessions_genuine(before, secret) ==> sessions_genuine(after, secret)
}

/// A new user comes without a session, so inserting one keeps the stored
/// tokens genuine.
pub proof fn lemma_insert_genuine(
    rows: Seq<UserRecordView>,
    secret: Seq<u8>,
    new_user: NewUserView,
    user_id: u128,
    now: u64,
)
    requires
        sessions_genuine(rows, secret),
    ensures
        sessions_genuine(rows.push(new_record(new_user, user_id, now)), secret),
{
    let after = rows.push(new_record(new_user, user_id, now));
    assert forall|i: int| 0 <= i < after.len() implies ((#[trigger] after[i]).refresh_token matches Some(
        text,
    ) ==> token_belongs_to(text, secret, after[i].id)) by {
        if i < rows.len() {
            assert(after[i] == rows[i]);
        }
    }
}

/// Opens a session for `user_id` and answers with `status`.
fn open_session(db: &mut UserStore, keys: &Keys, user_id: u128, now: u64, status: u16) -> (response:
    Result<ApiResponse<LoginResponse>, AppError>)
    requires
        old(db).well_formed(),
    ensures
        final(db).well_formed(),
        final(db)@.roles == old(db)@.roles,
        answers(response, status, opened_session(old(db)@.rows, keys@, user_id, now).result),
        final(db)@.rows == opened_session(old(db)@.rows, keys@, user_id, now).rows,
        response matches Ok(body) ==> session_reads_back(
            body.data.unwrap()@,
            keys@,
            user_id,
            now,
        ),
        keeps_genuine(old(db)@.rows, final(db)@.rows, keys@),
{
    let session = match issue_session_at(keys, user_id, now) {
        Ok(session) => session,
        Err(error) => {
            return Err(error);
        },
    };
    store_refresh_token_at(db, user_id, session.refresh_token.as_str(), now);
    proof {
        if sessions_genuine(old(db)@.rows, keys@) {
            lemma_with_session_genuine(
                old(db)@.rows,
                keys@,
                user_id,
                Some(session.refresh_token@),
                Some((now + STORED_TOKEN_LIFETIME) as u64),
            );
        }
    }
    Ok(ApiResponse::success(status, session))
}

/// Logs a user in, as of second `now`.
pub fn login_at(db: &mut UserStore, keys: &Keys, payload: LoginRequest, now: u64) -> (response:
    Result<ApiResponse<LoginResponse>, AppError>)
    requires
        old(db).well_formed(),
    ensures
        final(db).well_formed(),
        final(db)@.roles == old(db)@.roles,
        answers(
            response,
            200,
            login_outcome(old(db)@.rows, keys@, payload.email@, payload.password@, now).result,
        ),
        final(db)@.rows == login_outcome(
            old(db)@.rows,
            keys@,
            payload.email@,
            payload.password@,
            now,
        ).rows,
        login_subject(old(db)@.rows, payload.email@, payload.password@) matches Ok(user_id)
            ==> pair_reads_back(response, keys@, user_id, now),
        request_accepted(payload.email@, payload.password@) ==> payload.email@.contains('@'),
        keeps_genuine(old(db)@.rows, final(db)@.rows, keys@),
{
    match payload.validate() {
        Ok(_) => {},
        Err(issues) => {
            return Err(AppError::UserError(UserError::from(issues)));
        },
    }
    let found = get_user_with_auth_by_email(db, payload.email.as_str());
    let user_id = match check_password(&found, payload.password.as_str()) {
        Ok(user_id) => user_id,
        Err(error) => {
            return Err(error);
        },
    };
    open_session(db, keys, user_id, now, 200)
}

/// Logs a user in, as of the current time.
pub fn login(db: &mut UserStore, keys: &Keys, payload: LoginRequest) -> (response: Result<
    ApiResponse<LoginResponse>,
    AppError,
>)
    requires
        old(db).well_formed(),
    ensures
        final(db).well_formed(),
        final(db)@.roles == old(db)@.roles,
        exists|now: u64|
            {
                let outcome = #[trigger] login_outcome(
                    old(db)@.rows,
                    keys@,
                    payload.email@,
                    payload.password@,
                    now,
                );
                &&& answers(response, 200, outcome.result)
                &&& final(db)@.rows == outcome.rows
                &&& login_subject(old(db)@.rows, payload.email@, payload.password@) matches Ok(
                    user_id,
                ) ==> pair_reads_back(response, keys@, user_id, now)
            },
        request_accepted(payload.email@, payload.password@) ==> payload.email@.contains('@'),
        keeps_genuine(old(db)@.rows, final(db)@.rows, keys@),
{
    let now = current_timestamp();
    login_at(db, keys, payload, now)
}

/// Logs a user out: their stored refresh token is cleared, whether or not
/// there was one. This always succeeds, and logging out once more would
/// leave the table as it is.
pub fn logout(db: &mut UserStore, user: AuthenticatedUser) -> (response: Result<
    ApiResponse<EmptyResponse>,
    AppError,
>)
    requires
        old(db).well_formed(),
    ensures
        final(db).well_formed(),
        final(db)@.roles == old(db)@.roles,
        final(db)@.rows == with_session(old(db)@.rows, user.user_id, None, None),
        final(db)@.rows == with_session(final(db)@.rows, user.user_id, None, None),
        response matches Ok(body) && body.success && body.status_code == 200 && body.data
            == Some(EmptyResponse {  }) && body.error is None,
        forall|secret: Seq<u8>| #[trigger] keeps_genuine(old(db)@.rows, final(db)@.rows, secret),
{
    invalidate_refresh_token(db, user.user_id);
    proof {
        assert forall|secret: Seq<u8>| #[trigger]
            keeps_genuine(old(db)@.rows, db@.rows, secret) by {
            if sessions_genuine(old(db)@.rows, secret) {
                lemma_with_session_genuine(old(db)@.rows, secret, user.user_id, None, None);
            }
        }
    }
    Ok(ApiResponse::success(200, EmptyResponse {  }))
}

/// Whether a refresh succeeded and gave a refresh token other than the
/// one presented.
pub open spec fn rotated(
    presented: Seq<char>,
    response: Result<ApiResponse<LoginResponse>, AppError>,
) -> bool {
    response matches Ok(body) && (body.data matches Some(session) && session.refresh_token@
        != presented)
}

/// Where the stored tokens were genuine and the refresh rotated the token,
/// the table holds the presented token for nobody, at whatever second it is
/// presented again.
pub open spec fn replay_refused(
    before: Seq<UserRecordView>,
    after: Seq<UserRecordView>,
    secret: Seq<u8>,
    presented: Seq<char>,
    response: Result<ApiResponse<LoginResponse>, AppError>,
) -> bool {
    sessions_genuine(before, secret) && rotated(presented, response) ==> forall|later: u64|
        owner_of_token(after, presented, later) is None
}

/// Exchanges a refresh token for a new pair, as of second `now`.
pub fn refresh_token_at(
    db: &mut UserStore,
    keys: &Keys,
    payload: RefreshTokenRequest,
    now: u64,
) -> (response: Result<ApiResponse<LoginResponse>, AppError>)
    requires
        old(db).well_formed(),
    ensures
        final(db).well_formed(),
        final(db)@.roles == old(db)@.roles,
        answers(
            response,
            200,
            refresh_outcome(old(db)@.rows, keys@, payload.refresh_token@, now).result,
        ),
        final(db)@.rows == refresh_outcome(old(db)@.rows, keys@, payload.refresh_token@, now).rows,
        refresh_subject(old(db)@.rows, keys@, payload.refresh_token@, now) matches Ok(user_id)
            ==> pair_reads_back(response, keys@, user_id, now),
        keeps_genuine(old(db)@.rows, final(db)@.rows, keys@),
        replay_refused(old(db)@.rows, final(db)@.rows, keys@, payload.refresh_token@, response),
{
    match check_refresh_token_at(keys, payload.refresh_token.as_str(), now) {
        Ok(_) => {},
        Err(error) => {
            return Err(error);
        },
    }
    let found = get_user_by_refresh_token_at(db, payload.refresh_token.as_str(), now);
    let user_id = match require_owner(found) {
        Ok(user_id) => user_id,
        Err(error) => {
            return Err(error);
        },
    };
    let response = open_session(db, keys, user_id, now, 200);
    proof {
        if sessions_genuine(old(db)@.rows, keys@) && rotated(payload.refresh_token@, response) {
            assert forall|later: u64|
                owner_of_token(db@.rows, payload.refresh_token@, later) is None by {
                lemma_rotation_invalidates(
                    old(db)@.rows,
                    keys@,
                    payload.refresh_token@,
                    now,
                    later,
                );
            }
        }
    }
    response
}

/// Exchanges a refresh token for a new pair, as of the current time.
pub fn refresh_token(db: &mut UserStore, keys: &Keys, payload: RefreshTokenRequest) -> (response:
    Result<ApiResponse<LoginResponse>, AppError>)
    requires
        old(db).well_formed(),
    ensures
        final(db).well_formed(),
        final(db)@.roles == old(db)@.roles,
        exists|now: u64|
            {
                let outcome = #[trigger] refresh_outcome(
                    old(db)@.rows,
                    keys@,
                    payload.refresh_token@,
                    now,
                );
                &&& answers(response, 200, outcome.result)
                &&& final(db)@.rows == outcome.rows
                &&& refresh_subject(old(db)@.rows, keys@, payload.refresh_token@, now) matches Ok(
                    user_id,
                ) ==> pair_reads_back(response, keys@, user_id, now)
            },
        keeps_genuine(old(db)@.rows, final(db)@.rows, keys@),
        replay_refused(old(db)@.rows, final(db)@.rows, keys@, payload.refresh_token@, response),
{
    let now = current_timestamp();
    refresh_token_at(db, keys, payload, now)
}

/// The profile of the caller.
pub fn get_me(db: &UserStore, user: AuthenticatedUser) -> (response: Result<
    ApiResponse<PublicUser>,
    AppError,
>)
    ensures
        match first_record(db@.rows, has_id(user.user_id)) {
            Some(row) => {
                &&& response matches Ok(body)
                &&& body.success
                &&& body.status_code == 200
                &&& body.error is None
                &&& body.data matches Some(profile) && profile@ == profile_of(row)
            },
            None => response matches Err(AppError::NotFound(text)) && text@
                == missing_user_message(user.user_id),
        },
{
    let found = get_user_by_id(db, user.user_id);
    match profile_or_not_found(found, user.user_id) {
        Ok(profile) => Ok(ApiResponse::success(200, profile)),
        Err(error) => Err(error),
    }
}

/// Refuses a registration whose email is taken.
pub fn require_free_email(taken: bool) -> (free: Result<(), AppError>)
    ensures
        taken ==> fails_with(free, UserErrorView::EmailAlreadyExists),
        !taken ==> free is Ok,
{
    if taken {
        Err(AppError::UserError(UserError::EmailAlreadyExists))
    } else {
        Ok(())
    }
}

/// Turns a registration away, or admits it to hashing and storing.
pub fn admit_registration(db: &UserStore, payload: &RegisterUserRequest) -> (admitted: Result<
    (),
    AppError,
>)
    ensures
        match registration_refusal(db@.rows, payload.email@, payload.password@) {
            Some(refusal) => fails_with(admitted, refusal),
            None => admitted is Ok,
        },
        request_accepted(payload.email@, payload.password@) ==> payload.email@.contains('@'),
{
    match payload.validate() {
        Ok(_) => {},
        Err(issues) => {
            return Err(AppError::UserError(UserError::from(issues)));
        },
    }
    require_free_email(email_exists(db, payload.email.as_str()))
}

/// Carries an admitted registration through, given what hashing the
/// password gave, the identifier drawn for the user and the second `now`.
/// A failure of the hashing is handed on as it is.
pub fn complete_registration(
    db: &mut UserStore,
    keys: &Keys,
    payload: RegisterUserRequest,
    hashed: Result<String, AppError>,
    user_id: u128,
    now: u64,
) -> (response: Result<ApiResponse<LoginResponse>, AppError>)
    requires
        old(db).well_formed(),
    ensures
        final(db).well_formed(),
        final(db)@.roles == old(db)@.roles,
        answers(
            response,
            201,
            registration_outcome(
                old(db)@,
                keys@,
                payload.name@,
                payload.email@,
                hashed_view(hashed),
                user_id,
                now,
            ).result,
        ),
        final(db)@.rows == registration_outcome(
            old(db)@,
            keys@,
            payload.name@,
            payload.email@,
            hashed_view(hashed),
            user_id,
            now,
        ).rows,
        pair_reads_back(response, keys@, user_id, now),
        keeps_genuine(old(db)@.rows, final(db)@.rows, keys@),
{
    let password_hash = match hashed {
        Ok(digest) => digest,
        Err(error) => {
            return Err(error);
        },
    };
    let new_user = new_email_user(payload, password_hash);
    let ghost inserted = new_user@;
    match insert_user_as(db, new_user, user_id, now) {
        Ok(_) => {},
        Err(error) => {
            return Err(error);
        },
    }
    proof {
        if sessions_genuine(old(db)@.rows, keys@) {
            lemma_insert_genuine(old(db)@.rows, keys@, inserted, user_id, now);
        }
    }
    open_session(db, keys, user_id, now, 201)
}

/// Registers a user by email and password, under a fresh random identifier
/// and as of the current time. A body that is refused or an email that is
/// taken is turned away before anything else happens. Otherwise the outcome
/// is that of an admitted registration for the salt, the identifier and the
/// second that came up: the password is hashed under that salt, and where
/// the hasher derives a digest, the digest accepts the password; a pair of
/// tokens, where one is returned, reads back as issued for the new user.
pub fn register_user(db: &mut UserStore, keys: &Keys, payload: RegisterUserRequest) -> (response:
    Result<ApiResponse<LoginResponse>, AppError>)
    requires
        old(db).well_formed(),
    ensures
        final(db).well_formed(),
        final(db)@.roles == old(db)@.roles,
        keeps_genuine(old(db)@.rows, final(db)@.rows, keys@),
        request_accepted(payload.email@, payload.password@) ==> payload.email@.contains('@'),
        match registration_refusal(old(db)@.rows, payload.email@, payload.password@) {
            Some(refusal) => fails_with(response, refusal) && final(db)@ == old(db)@,
            None => exists|salt: Seq<char>, user_id: u128, now: u64|
                {
                    let outcome = #[trigger] registration_outcome(
                        old(db)@,
                        keys@,
                        payload.name@,
                        payload.email@,
                        hash_outcome(payload.password@, salt),
                        user_id,
                        now,
                    );
                    &&& answers(response, 201, outcome.result)
                    &&& final(db)@.rows == outcome.rows
                    &&& pair_reads_back(response, keys@, user_id, now)
                    &&& argon2id_digest(payload.password@, salt) matches Some(digest)
                        ==> digest_accepts(digest, payload.password@)
                },
        },
{
    match admit_registration(db, &payload) {
        Ok(_) => {},
        Err(error) => {
            return Err(error);
        },
    }
    let hashed = hash_password(payload.password.as_str());
    let user_id = fresh_user_id();
    let now = current_timestamp();
    let ghost salt = choose|salt: Seq<char>| hashed_under(payload.password@, salt, hashed);
    assert(hashed_view(hashed) == hash_outcome(payload.password@, salt));
    let response = complete_registration(db, keys, payload, hashed, user_id, now);
    proof {
        let outcome = registration_outcome(
            old(db)@,
            keys@,
            payload.name@,
            payload.email@,
            hash_outcome(payload.password@, salt),
            user_id,
            now,
        );
        assert(answers(response, 201, outcome.result));
    }
    response
}

/// Logging out twice leaves the table as logging out once does.
pub proof fn lemma_logout_idempotent(rows: Seq<UserRecordView>, user_id: u128)
    ensures
        with_session(with_session(rows, user_id, None, None), user_id, None, None) == with_session(
            rows,
            user_id,
            None,
            None,
        ),
{
    assert(with_session(with_session(rows, user_id, None, None), user_id, None, None)
        =~= with_session(rows, user_id, None, None));
}

/// The position of the first record that holds `token` as a live token.
pub open spec fn position_of_token(rows: Seq<UserRecordView>, token: Seq<char>, now: u64) -> int {
    first_from(rows, 0, holds_live_token(token, now)).unwrap()
}

/// Once a refresh token was exchanged for a new pair, presenting it again
/// is refused: the table no longer holds it for anyone. While the old
/// token is not expired the refusal is `Unauthorized`.
///
/// This needs the new refresh token to differ from the old one, which it
/// does unless both were issued for the same user within one second.
pub proof fn lemma_rotation_invalidates(
    rows: Seq<UserRecordView>,
    secret: Seq<u8>,
    token: Seq<char>,
    now: u64,
    later: u64,
)
    requires
        sessions_genuine(rows, secret),
        refresh_outcome(rows, secret, token, now).result matches Ok(session)
            && session.refresh_token != token && token_belongs_to(
            session.refresh_token,
            secret,
            owner_of_token(rows, token, now).unwrap(),
        ),
    ensures
        owner_of_token(refresh_outcome(rows, secret, token, now).rows, token, later) is None,
        refresh_outcome(refresh_outcome(rows, secret, token, now).rows, secret, token, later)
            == refused(
            refresh_outcome(rows, secret, token, now).rows,
            if live_claims(token, secret, later) is Some {
                UserErrorView::Unauthorized
            } else {
                UserErrorView::InvalidCredentials
            },
        ),
{
    let after = refresh_outcome(rows, secret, token, now).rows;
    let owner = owner_of_token(rows, token, now).unwrap();
    lemma_first_from(rows, 0, holds_live_token(token, now));
    lemma_first_from(after, 0, holds_live_token(token, later));
    let held = position_of_token(rows, token, now);
    assert(token_belongs_to(token, secret, owner)) by {
        assert(rows[held].refresh_token == Some(token));
    }
    if owner_of_token(after, token, later) is Some {
        let again = position_of_token(after, token, later);
        assert(after[again].refresh_token == Some(token));
        assert(rows[again].id != owner);
        assert(rows[again].refresh_token == Some(token));
        assert(token_belongs_to(token, secret, rows[again].id));
    }
}

/// A token is good for one purpose only. A genuine, unexpired refresh
/// token in the authorization header is refused by the check that guards
/// protected routes; a genuine, unexpired access token presented for
/// refreshing is refused, and the table is left as it was.
pub proof fn lemma_type_confinement(
    rows: Seq<UserRecordView>,
    value: Seq<char>,
    token: Seq<char>,
    secret: Seq<u8>,
    now: u64,
)
    requires
        live_claims(token, secret, now) is Some,
    ensures
        live_claims(token, secret, now).unwrap().token_type == "refresh"@ && bearer_token_of(value)
            == Some(token) ==> authentication_outcome(Some(value), secret, now) == Err::<
            u128,
            UserErrorView,
        >(UserErrorView::Unauthorized),
        live_claims(token, secret, now).unwrap().token_type == "access"@ ==> refresh_outcome(
            rows,
            secret,
            token,
            now,
        ) == refused(rows, UserErrorView::Unauthorized),
{
    reveal_strlit("access");
    reveal_strlit("refresh");
    assert("access"@.len() != "refresh"@.len());
}

} // verus!
