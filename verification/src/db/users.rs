//! The user table: one record for each user, holding the credential and
//! the one refresh token that is live for them. Records are found by
//! email, by identifier and by refresh token.

use vstd::prelude::*;
use crate::auth::identity::fresh_user_id;
use crate::auth::jwt::current_timestamp;
use crate::error::app_error::{
    database_failure, fails_as, fails_with, AppError, AppErrorView, DatabaseFailure,
};
use crate::error::user_error::{UserError, UserErrorView};
use crate::models::users::{
    NewUser, NewUserView, PublicUser, PublicUserView, User, UserView, UserWithAuth,
    UserWithAuthView,
};
use crate::text::{copy_opt_text, copy_texts, holds_text, opt_text, same_text, texts};

verus! {

/// Seconds for which a stored refresh token stays live: seven days, counted
/// from the moment it is stored, whatever the token itself says.
pub const STORED_TOKEN_LIFETIME: u64 = 604800;

/// One user with their credential.
#[derive(Debug, Clone)]
pub struct UserRecord {
    pub id: u128,
    pub name: String,
    pub email: String,
    pub password_hash: Option<String>,
    pub auth_provider: String,
    pub avatar_url: Option<String>,
    pub refresh_token: Option<String>,
    pub refresh_token_expires_at: Option<u64>,
    pub roles: Vec<String>,
    pub created_at: u64,
    pub updated_at: u64,
}

/// A record as plain values.
pub ghost struct UserRecordView {
    pub id: u128,
    pub name: Seq<char>,
    pub email: Seq<char>,
    pub password_hash: Option<Seq<char>>,
    pub auth_provider: Seq<char>,
    pub avatar_url: Option<Seq<char>>,
    pub refresh_token: Option<Seq<char>>,
    pub refresh_token_expires_at: Option<u64>,
    pub roles: Seq<Seq<char>>,
    pub created_at: u64,
    pub updated_at: u64,
}

impl View for UserRecord {
    type V = UserRecordView;

    open spec fn view(&self) -> UserRecordView {
        UserRecordView {
            id: self.id,
            name: self.name@,
            email: self.email@,
            password_hash: opt_text(self.password_hash),
            auth_provider: self.auth_provider@,
            avatar_url: opt_text(self.avatar_url),
            refresh_token: opt_text(self.refresh_token),
            refresh_token_expires_at: self.refresh_token_expires_at,
            roles: texts(self.roles@),
            created_at: self.created_at,
            updated_at: self.updated_at,
        }
    }
}

/// The table as plain values: the records in the order in which they were
/// inserted, and the names of the roles that exist.
pub ghost struct UserTableView {
    pub rows: Seq<UserRecordView>,
    pub roles: Seq<Seq<char>>,
}

/// The position of the first record at or after `from` that `wanted`
/// holds of.
pub open spec fn first_from(
    rows: Seq<UserRecordView>,
    from: int,
    wanted: spec_fn(UserRecordView) -> bool,
) -> Option<int>
    decreases rows.len() - from,
{
    if 0 <= from < rows.len() {
        if wanted(rows[from]) {
            Some(from)
        } else {
            first_from(rows, from + 1, wanted)
        }
    } else {
        None
    }
}

/// The first record that `wanted` holds of.
pub open spec fn first_record(
    rows: Seq<UserRecordView>,
    wanted: spec_fn(UserRecordView) -> bool,
) -> Option<UserRecordView> {
    match first_from(rows, 0, wanted) {
        Some(position) => Some(rows[position]),
        None => None,
    }
}

/// The record has this email.
pub open spec fn has_email(email: Seq<char>) -> spec_fn(UserRecordView) -> bool {
    |row: UserRecordView| row.email == email
}

/// The record has this identifier.
pub open spec fn has_id(user_id: u128) -> spec_fn(UserRecordView) -> bool {
    |row: UserRecordView| row.id == user_id
}

/// Whether some user has this email.
pub open spec fn email_taken(rows: Seq<UserRecordView>, email: Seq<char>) -> bool {
    exists|i: int| 0 <= i < rows.len() && (#[trigger] rows[i]).email == email
}

/// Whether some user has this identifier.
pub open spec fn id_taken(rows: Seq<UserRecordView>, user_id: u128) -> bool {
    exists|i: int| 0 <= i < rows.len() && (#[trigger] rows[i]).id == user_id
}

/// The record holds exactly this refresh token, and its stored expiry lies
/// strictly after `now`.
pub open spec fn holds_live_token(token: Seq<char>, now: u64) -> spec_fn(UserRecordView) -> bool {
    |row: UserRecordView|
        row.refresh_token == Some(token) && (row.refresh_token_expires_at matches Some(expiry)
            && expiry > now)
}

/// The user whose live refresh token is `token`, if there is one.
pub open spec fn owner_of_token(rows: Seq<UserRecordView>, token: Seq<char>, now: u64) -> Option<
    u128,
> {
    match first_record(rows, holds_live_token(token, now)) {
        Some(row) => Some(row.id),
        None => None,
    }
}

/// The records after the session of `user_id` was set to `token` and
/// `expiry`: both present, or both absent. Other users are untouched.
pub open spec fn with_session(
    rows: Seq<UserRecordView>,
    user_id: u128,
    token: Option<Seq<char>>,
    expiry: Option<u64>,
) -> Seq<UserRecordView> {
    Seq::new(
        rows.len(),
        |i: int|
            if rows[i].id == user_id {
                UserRecordView { refresh_token: token, refresh_token_expires_at: expiry, ..rows[i] }
            } else {
                rows[i]
            },
    )
}

/// No two records share an identifier or an email, and in each record the
/// refresh token and its expiry are both set or both absent.
pub open spec fn rows_valid(rows: Seq<UserRecordView>) -> bool {
    &&& forall|i: int, j: int|
        0 <= i < rows.len() && 0 <= j < rows.len() && i != j ==> rows[i].id != rows[j].id
    &&& forall|i: int, j: int|
        0 <= i < rows.len() && 0 <= j < rows.len() && i != j ==> rows[i].email != rows[j].email
    &&& forall|i: int|
        0 <= i < rows.len() ==> (rows[i].refresh_token is Some
            <==> rows[i].refresh_token_expires_at is Some)
}

/// Where `first_from` finds a record, `wanted` holds of it and of none
/// between `from` and it; where it finds none, `wanted` holds of none from
/// `from` on.
pub proof fn lemma_first_from(
    rows: Seq<UserRecordView>,
    from: int,
    wanted: spec_fn(UserRecordView) -> bool,
)
    requires
        0 <= from,
    ensures
        match first_from(rows, from, wanted) {
            Some(position) => {
                &&& from <= position < rows.len()
                &&& wanted(rows[position])
                &&& forall|i: int| from <= i < position ==> !wanted(rows[i])
            },
            None => forall|i: int| from <= i < rows.len() ==> !wanted(rows[i]),
        },
    decreases rows.len() - from,
{
    if from < rows.len() && !wanted(rows[from]) {
        lemma_first_from(rows, from + 1, wanted);
    }
}

/// A record with a given email, or with a given identifier, is found
/// exactly when there is one.
pub proof fn lemma_found_when_taken(rows: Seq<UserRecordView>, email: Seq<char>, user_id: u128)
    ensures
        first_record(rows, has_email(email)) is Some <==> email_taken(rows, email),
        first_record(rows, has_id(user_id)) is Some <==> id_taken(rows, user_id),
{
    lemma_first_from(rows, 0, has_email(email));
    lemma_first_from(rows, 0, has_id(user_id));
    if first_from(rows, 0, has_email(email)) is Some {
        let position = first_from(rows, 0, has_email(email)).unwrap();
        assert(rows[position].email == email);
    }
    if first_from(rows, 0, has_id(user_id)) is Some {
        let position = first_from(rows, 0, has_id(user_id)).unwrap();
        assert(rows[position].id == user_id);
    }
}

/// The record made for a new user with identifier `user_id` at second
/// `now`: the credential as given, and no session.
pub open spec fn new_record(new_user: NewUserView, user_id: u128, now: u64) -> UserRecordView {
    UserRecordView {
        id: user_id,
        name: new_user.name,
        email: new_user.email,
        password_hash: Some(new_user.password_hash),
        auth_provider: new_user.auth_provider,
        avatar_url: new_user.avatar_url,
        refresh_token: None,
        refresh_token_expires_at: None,
        roles: new_user.roles,
        created_at: now,
        updated_at: now,
    }
}

/// Whether each wanted role is among the known ones.
pub open spec fn roles_exist(known: Seq<Seq<char>>, wanted: Seq<Seq<char>>) -> bool {
    forall|i: int| 0 <= i < wanted.len() ==> known.contains(#[trigger] wanted[i])
}

/// Why a new user cannot be inserted, if they cannot. In this order: their
/// email is taken, which is a conflict; their identifier is taken, which
/// is reported as a failure of the table without detail; one of their
/// roles does not exist.
pub open spec fn insert_refusal(
    store: UserTableView,
    new_user: NewUserView,
    user_id: u128,
) -> Option<AppErrorView> {
    if email_taken(store.rows, new_user.email) {
        Some(AppErrorView::UserError(UserErrorView::EmailAlreadyExists))
    } else if id_taken(store.rows, user_id) {
        Some(database_failure())
    } else if !roles_exist(store.roles, new_user.roles) {
        Some(AppErrorView::UserError(UserErrorView::RoleNotFound))
    } else {
        None
    }
}

/// What a record shows of the user alone.
pub open spec fn user_of(row: UserRecordView) -> UserView {
    UserView {
        id: row.id,
        name: row.name,
        email: row.email,
        created_at: row.created_at,
        updated_at: row.updated_at,
    }
}

/// What a record shows for logging the user in.
pub open spec fn login_view_of(row: UserRecordView) -> UserWithAuthView {
    UserWithAuthView {
        id: row.id,
        name: row.name,
        email: row.email,
        password_hash: row.password_hash,
        auth_provider: row.auth_provider,
        refresh_token: row.refresh_token,
        refresh_token_expires_at: row.refresh_token_expires_at,
    }
}

/// What a record shows to the user themselves.
pub open spec fn profile_of(row: UserRecordView) -> PublicUserView {
    PublicUserView {
        id: row.id,
        name: row.name,
        email: row.email,
        auth_provider: row.auth_provider,
        avatar_url: row.avatar_url,
        roles: row.roles,
        created_at: row.created_at,
        updated_at: row.updated_at,
    }
}

/// Setting a session keeps a valid table valid, as long as token and
/// expiry are both present or both absent.
pub proof fn lemma_with_session_valid(
    rows: Seq<UserRecordView>,
    user_id: u128,
    token: Option<Seq<char>>,
    expiry: Option<u64>,
)
    requires
        rows_valid(rows),
        token is Some <==> expiry is Some,
    ensures
        rows_valid(with_session(rows, user_id, token, expiry)),
{
}

/// The role found under a name. A name under which there is none is
/// refused.
pub fn require_role(found: Option<u128>) -> (role: Result<u128, AppError>)
    ensures
        match found {
            Some(role_id) => role == Ok::<u128, AppError>(role_id),
            None => fails_with(role, UserErrorView::RoleNotFound),
        },
{
    match found {
        Some(role_id) => Ok(role_id),
        None => Err(AppError::UserError(UserError::RoleNotFound)),
    }
}

/// The user table.
pub struct UserStore {
    rows: Vec<UserRecord>,
    roles: Vec<String>,
}

impl View for UserStore {
    type V = UserTableView;

    closed spec fn view(&self) -> UserTableView {
        UserTableView {
            rows: self.rows@.map_values(|row: UserRecord| row@),
            roles: texts(self.roles@),
        }
    }
}

impl UserStore {
    /// The table is valid: see `rows_valid`.
    pub open spec fn well_formed(&self) -> bool {
        rows_valid(self@.rows)
    }

    /// An empty table in which the given roles exist.
    pub fn new(roles: Vec<String>) -> (store: Self)
        ensures
            store@.rows.len() == 0,
            store@.roles == texts(roles@),
            store.well_formed(),
    {
        UserStore { rows: Vec::new(), roles }
    }

    /// The position of the first record with this email.
    fn position_of_email(&self, email: &str) -> (found: Option<usize>)
        ensures
            match found {
                Some(position) => first_from(self@.rows, 0, has_email(email@)) == Some(
                    position as int,
                ) && position < self.rows.len(),
                None => first_from(self@.rows, 0, has_email(email@)) is None,
            },
    {
        let mut next: usize = 0;
        while next < self.rows.len()
            invariant
                next <= self.rows.len(),
                first_from(self@.rows, 0, has_email(email@)) == first_from(
                    self@.rows,
                    next as int,
                    has_email(email@),
                ),
            decreases self.rows.len() - next,
        {
            if same_text(self.rows[next].email.as_str(), email) {
                return Some(next);
            }
            next = next + 1;
        }
        None
    }

    /// The position of the first record with this identifier.
    fn position_of_id(&self, user_id: u128) -> (found: Option<usize>)
        ensures
            match found {
                Some(position) => first_from(self@.rows, 0, has_id(user_id)) == Some(
                    position as int,
                ) && position < self.rows.len(),
                None => first_from(self@.rows, 0, has_id(user_id)) is None,
            },
    {
        let mut next: usize = 0;
        while next < self.rows.len()
            invariant
                next <= self.rows.len(),
                first_from(self@.rows, 0, has_id(user_id)) == first_from(
                    self@.rows,
                    next as int,
                    has_id(user_id),
                ),
            decreases self.rows.len() - next,
        {
            if self.rows[next].id == user_id {
                return Some(next);
            }
            next = next + 1;
        }
        None
    }

    /// Whether each of `wanted` is a role that exists.
    fn knows_roles(&self, wanted: &Vec<String>) -> (known: bool)
        ensures
            known == roles_exist(self@.roles, texts(wanted@)),
    {
        let mut next: usize = 0;
        while next < wanted.len()
            invariant
                next <= wanted.len(),
                forall|i: int| 0 <= i < next ==> self@.roles.contains(#[trigger] texts(wanted@)[i]),
            decreases wanted.len() - next,
        {
            if !holds_text(&self.roles, wanted[next].as_str()) {
                assert(!self@.roles.contains(texts(wanted@)[next as int]));
                return false;
            }
            next = next + 1;
        }
        true
    }
}

/// Whether some user has this email.
pub fn email_exists(db: &UserStore, email: &str) -> (exists: bool)
    ensures
        exists == email_taken(db@.rows, email@),
{
    proof {
        lemma_found_when_taken(db@.rows, email@, 0);
    }
    db.position_of_email(email).is_some()
}

/// The user whose live refresh token is `refresh_token`, as of second
/// `now`. A token that was never stored, one that was superseded and
/// one whose stored expiry has passed all give nothing.
pub fn get_user_by_refresh_token_at(db: &UserStore, refresh_token: &str, now: u64) -> (owner:
    Option<u128>)
    ensures
        owner == owner_of_token(db@.rows, refresh_token@, now),
{
    let mut next: usize = 0;
    while next < db.rows.len()
        invariant
            next <= db.rows.len(),
            first_from(db@.rows, 0, holds_live_token(refresh_token@, now)) == first_from(
                db@.rows,
                next as int,
                holds_live_token(refresh_token@, now),
            ),
        decreases db.rows.len() - next,
    {
        let row = &db.rows[next];
        let same = match &row.refresh_token {
            Some(stored) => same_text(stored.as_str(), refresh_token),
            None => false,
        };
        let live = match row.refresh_token_expires_at {
            Some(expiry) => expiry > now,
            None => false,
        };
        if same && live {
            return Some(row.id);
        }
        next = next + 1;
    }
    None
}

/// The user whose live refresh token is `refresh_token`, as of the
/// current time.
pub fn get_user_by_refresh_token(db: &UserStore, refresh_token: &str) -> (owner: Option<u128>)
    ensures
        exists|now: u64| owner == #[trigger] owner_of_token(db@.rows, refresh_token@, now),
{
    let now = current_timestamp();
    get_user_by_refresh_token_at(db, refresh_token, now)
}

/// Sets the session of the record at `position`.
fn set_session(db: &mut UserStore, position: usize, token: Option<String>, expiry: Option<u64>)
    requires
        position < old(db)@.rows.len(),
        old(db).well_formed(),
        token is Some <==> expiry is Some,
    ensures
        final(db)@.rows == with_session(
            old(db)@.rows,
            old(db)@.rows[position as int].id,
            opt_text(token),
            expiry,
        ),
        final(db)@.roles == old(db)@.roles,
        final(db).well_formed(),
{
    let ghost before = db@.rows;
    let mut row = db.rows.remove(position);
    row.refresh_token = token;
    row.refresh_token_expires_at = expiry;
    db.rows.insert(position, row);
    proof {
        let after = with_session(before, before[position as int].id, opt_text(token), expiry);
        assert(db@.rows =~= after);
        lemma_with_session_valid(before, before[position as int].id, opt_text(token), expiry);
    }
}

/// Makes `refresh_token` the one live refresh token of `user_id`, good
/// for seven days from second `now`. Whatever was stored for the user
/// before is overwritten; a user who is not in the table is passed over.
pub fn store_refresh_token_at(db: &mut UserStore, user_id: u128, refresh_token: &str, now: u64)
    requires
        old(db).well_formed(),
        now + STORED_TOKEN_LIFETIME <= u64::MAX,
    ensures
        final(db)@.rows == with_session(
            old(db)@.rows,
            user_id,
            Some(refresh_token@),
            Some((now + STORED_TOKEN_LIFETIME) as u64),
        ),
        final(db)@.roles == old(db)@.roles,
        final(db).well_formed(),
{
    proof {
        lemma_first_from(db@.rows, 0, has_id(user_id));
    }
    match db.position_of_id(user_id) {
        Some(position) => {
            set_session(
                db,
                position,
                Some(refresh_token.to_owned()),
                Some(now + STORED_TOKEN_LIFETIME),
            );
        },
        None => {
            assert(db@.rows =~= with_session(
                db@.rows,
                user_id,
                Some(refresh_token@),
                Some((now + STORED_TOKEN_LIFETIME) as u64),
            ));
        },
    }
}

/// Makes `refresh_token` the one live refresh token of `user_id`, good
/// for seven days from the current time. Nothing is stored if seven
/// days from now is past the last representable second. Whatever second
/// the clock gave, the result says whether seven days from it can be
/// represented, and the table is what storing at that second leaves.
pub fn store_refresh_token(db: &mut UserStore, user_id: u128, refresh_token: &str) -> (stored: bool)
    requires
        old(db).well_formed(),
    ensures
        final(db).well_formed(),
        final(db)@.roles == old(db)@.roles,
        exists|now: u64|
            stored == expiry_fits(now) && final(db)@.rows == #[trigger] rows_after_storing(
                old(db)@.rows,
                user_id,
                refresh_token@,
                now,
            ),
        !stored ==> final(db)@ == old(db)@,
{
    let now = current_timestamp();
    store_refresh_token_from(db, user_id, refresh_token, now)
}

/// Whether seven days from second `now` is a second that can be
/// represented.
pub open spec fn expiry_fits(now: u64) -> bool {
    now + STORED_TOKEN_LIFETIME <= u64::MAX
}

/// The records after `token` was handed in for storing at second `now`:
/// it is the session of `user_id`, good for seven days, where that expiry
/// can be represented; otherwise the records are as they were.
pub open spec fn rows_after_storing(
    rows: Seq<UserRecordView>,
    user_id: u128,
    token: Seq<char>,
    now: u64,
) -> Seq<UserRecordView> {
    if expiry_fits(now) {
        with_session(rows, user_id, Some(token), Some((now + STORED_TOKEN_LIFETIME) as u64))
    } else {
        rows
    }
}

/// Makes `refresh_token` the one live refresh token of `user_id`, good
/// for seven days from second `now`, where that expiry can be represented,
/// and says whether it did. Where it cannot, the table is left as it is.
pub fn store_refresh_token_from(
    db: &mut UserStore,
    user_id: u128,
    refresh_token: &str,
    now: u64,
) -> (stored: bool)
    requires
        old(db).well_formed(),
    ensures
        final(db).well_formed(),
        final(db)@.roles == old(db)@.roles,
        stored == expiry_fits(now),
        final(db)@.rows == rows_after_storing(old(db)@.rows, user_id, refresh_token@, now),
        !stored ==> final(db)@ == old(db)@,
{
    if now <= u64::MAX - STORED_TOKEN_LIFETIME {
        store_refresh_token_at(db, user_id, refresh_token, now);
        true
    } else {
        false
    }
}

/// Clears the refresh token of `user_id` and its expiry. Doing so again
/// changes nothing.
pub fn invalidate_refresh_token(db: &mut UserStore, user_id: u128)
    requires
        old(db).well_formed(),
    ensures
        final(db)@.rows == with_session(old(db)@.rows, user_id, None, None),
        final(db)@.rows == with_session(final(db)@.rows, user_id, None, None),
        final(db)@.roles == old(db)@.roles,
        final(db).well_formed(),
{
    proof {
        lemma_first_from(db@.rows, 0, has_id(user_id));
    }
    match db.position_of_id(user_id) {
        Some(position) => {
            set_session(db, position, None, None);
        },
        None => {
            assert(db@.rows =~= with_session(db@.rows, user_id, None, None));
        },
    }
    assert(db@.rows =~= with_session(db@.rows, user_id, None, None));
}

/// Inserts a new user under the identifier `user_id` at second `now`,
/// with their credential and without a session. Either the whole user
/// goes in or nothing changes.
pub fn insert_user_as(db: &mut UserStore, new_user: NewUser, user_id: u128, now: u64) -> (inserted:
    Result<User, AppError>)
    requires
        old(db).well_formed(),
    ensures
        final(db).well_formed(),
        final(db)@.roles == old(db)@.roles,
        match insert_refusal(old(db)@, new_user@, user_id) {
            Some(refusal) => fails_as(inserted, refusal) && final(db)@ == old(db)@,
            None => {
                &&& inserted matches Ok(user) && user@ == user_of(
                    new_record(new_user@, user_id, now),
                )
                &&& final(db)@.rows == old(db)@.rows.push(
                    new_record(new_user@, user_id, now),
                )
            },
        },
{
    proof {
        lemma_found_when_taken(db@.rows, new_user.email@, user_id);
    }
    if db.position_of_email(new_user.email.as_str()).is_some() {
        return Err(AppError::from_database(DatabaseFailure::EmailTaken));
    }
    if db.position_of_id(user_id).is_some() {
        return Err(AppError::from_database(DatabaseFailure::Other));
    }
    if !db.knows_roles(&new_user.roles) {
        return Err(AppError::UserError(UserError::RoleNotFound));
    }
    let user = User {
        id: user_id,
        name: new_user.name.clone(),
        email: new_user.email.clone(),
        created_at: now,
        updated_at: now,
    };
    let ghost before = db@.rows;
    let ghost record = new_record(new_user@, user_id, now);
    let row = UserRecord {
        id: user_id,
        name: new_user.name,
        email: new_user.email,
        password_hash: Some(new_user.password_hash),
        auth_provider: new_user.auth_provider,
        avatar_url: new_user.avatar_url,
        refresh_token: None,
        refresh_token_expires_at: None,
        roles: new_user.roles,
        created_at: now,
        updated_at: now,
    };
    assert(row@ == record);
    db.rows.push(row);
    proof {
        assert(db@.rows =~= before.push(record));
        lemma_first_from(before, 0, has_email(record.email));
        lemma_first_from(before, 0, has_id(user_id));
    }
    Ok(user)
}

/// Inserts a new user under a fresh random identifier, as of the
/// current time.
pub fn insert_user(db: &mut UserStore, new_user: NewUser) -> (inserted: Result<User, AppError>)
    requires
        old(db).well_formed(),
    ensures
        final(db).well_formed(),
        final(db)@.roles == old(db)@.roles,
        exists|user_id: u128, now: u64|
            match #[trigger] insert_refusal(old(db)@, new_user@, user_id) {
                Some(refusal) => fails_as(inserted, refusal) && final(db)@ == old(db)@,
                None => {
                    &&& inserted matches Ok(user) && user@ == user_of(
                        #[trigger] new_record(new_user@, user_id, now),
                    )
                    &&& final(db)@.rows == old(db)@.rows.push(
                        new_record(new_user@, user_id, now),
                    )
                },
            },
{
    let user_id = fresh_user_id();
    let now = current_timestamp();
    insert_user_as(db, new_user, user_id, now)
}

/// The user with this email.
pub fn get_user_by_email(db: &UserStore, email: &str) -> (found: Option<User>)
    ensures
        match first_record(db@.rows, has_email(email@)) {
            Some(row) => found matches Some(user) && user@ == user_of(row),
            None => found is None,
        },
{
    match db.position_of_email(email) {
        Some(position) => {
            let row = &db.rows[position];
            Some(
                User {
                    id: row.id,
                    name: row.name.clone(),
                    email: row.email.clone(),
                    created_at: row.created_at,
                    updated_at: row.updated_at,
                },
            )
        },
        None => None,
    }
}

/// The user with this email, together with their credential.
pub fn get_user_with_auth_by_email(db: &UserStore, email: &str) -> (found: Option<UserWithAuth>)
    ensures
        match first_record(db@.rows, has_email(email@)) {
            Some(row) => found matches Some(user) && user@ == login_view_of(row),
            None => found is None,
        },
{
    match db.position_of_email(email) {
        Some(position) => {
            let row = &db.rows[position];
            Some(
                UserWithAuth {
                    id: row.id,
                    name: row.name.clone(),
                    email: row.email.clone(),
                    password_hash: copy_opt_text(&row.password_hash),
                    auth_provider: row.auth_provider.clone(),
                    refresh_token: copy_opt_text(&row.refresh_token),
                    refresh_token_expires_at: row.refresh_token_expires_at,
                },
            )
        },
        None => None,
    }
}

/// The profile of the user with this identifier.
pub fn get_user_by_id(db: &UserStore, id: u128) -> (found: Option<PublicUser>)
    ensures
        match first_record(db@.rows, has_id(id)) {
            Some(row) => found matches Some(user) && user@ == profile_of(row),
            None => found is None,
        },
{
    match db.position_of_id(id) {
        Some(position) => {
            let row = &db.rows[position];
            Some(
                PublicUser {
                    id: row.id,
                    name: row.name.clone(),
                    email: row.email.clone(),
                    auth_provider: row.auth_provider.clone(),
                    avatar_url: copy_opt_text(&row.avatar_url),
                    roles: copy_texts(&row.roles),
                    created_at: row.created_at,
                    updated_at: row.updated_at,
                },
            )
        },
        None => None,
    }
}

} // verus!
