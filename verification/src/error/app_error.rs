//! Every failure that can reach the request boundary.

use vstd::prelude::*;
use vstd::string::*;
use crate::error::user_error::{UserError, UserErrorView};
use crate::utils::response::ApiResponse;

verus! {

/// How a call into the persistence layer failed.
#[derive(Debug, Clone, Copy, PartialEq, Eq, Structural)]
pub enum DatabaseFailure {
    /// A row that had to be there was not.
    RowNotFound,
    /// A user with the same email is already there: the unique key on
    /// the email refused the row.
    EmailTaken,
    /// Anything else; the cause is logged, never returned.
    Other,
}

/// A failure, as it reaches the request boundary.
#[derive(Debug, Clone, PartialEq, Eq)]
pub enum AppError {
    NotFound(String),
    BadRequest(String),
    Conflict(String),
    InternalServerError,
    Unexpected(String),
    DatabaseError(String),
    UserError(UserError),
}

/// A failure as plain values.
pub ghost enum AppErrorView {
    NotFound(Seq<char>),
    BadRequest(Seq<char>),
    Conflict(Seq<char>),
    InternalServerError,
    Unexpected(Seq<char>),
    DatabaseError(Seq<char>),
    UserError(UserErrorView),
}

impl View for AppError {
    type V = AppErrorView;

    open spec fn view(&self) -> AppErrorView {
        match self {
            AppError::NotFound(text) => AppErrorView::NotFound(text@),
            AppError::BadRequest(text) => AppErrorView::BadRequest(text@),
            AppError::Conflict(text) => AppErrorView::Conflict(text@),
            AppError::InternalServerError => AppErrorView::InternalServerError,
            AppError::Unexpected(text) => AppErrorView::Unexpected(text@),
            AppError::DatabaseError(text) => AppErrorView::DatabaseError(text@),
            AppError::UserError(user_error) => AppErrorView::UserError(user_error@),
        }
    }
}

impl AppErrorView {
    /// The HTTP status under which the failure is reported.
    pub open spec fn status_code(self) -> u16 {
        match self {
            AppErrorView::InternalServerError => 500,
            AppErrorView::NotFound(_) => 404,
            AppErrorView::BadRequest(_) => 400,
            AppErrorView::Conflict(_) => 409,
            AppErrorView::Unexpected(_) => 500,
            AppErrorView::DatabaseError(_) => 500,
            AppErrorView::UserError(user_error) => user_error.status_code(),
        }
    }

    /// The text shown to the caller.
    pub open spec fn message(self) -> Seq<char> {
        match self {
            AppErrorView::InternalServerError => "Internal Server Error"@,
            AppErrorView::NotFound(text) => text,
            AppErrorView::BadRequest(text) => text,
            AppErrorView::Conflict(text) => text,
            AppErrorView::Unexpected(text) => text,
            AppErrorView::DatabaseError(text) => text,
            AppErrorView::UserError(user_error) => user_error.message(),
        }
    }
}

/// The failure reported when something outside the caller's control went
/// wrong; no detail is given.
pub open spec fn unexpected_failure() -> AppErrorView {
    AppErrorView::Unexpected("Internal Server Error!"@)
}

/// The failure reported when the persistence layer failed in a way that is
/// not told to the caller.
pub open spec fn database_failure() -> AppErrorView {
    AppErrorView::DatabaseError("Database error occurred!"@)
}

/// What a failure of the persistence layer is folded into: a missing row
/// is reported as such, a taken email as the conflict it is, anything else
/// without detail.
pub open spec fn folded(failure: DatabaseFailure) -> AppErrorView {
    match failure {
        DatabaseFailure::RowNotFound => AppErrorView::NotFound("Database record not found"@),
        DatabaseFailure::EmailTaken => AppErrorView::UserError(UserErrorView::EmailAlreadyExists),
        DatabaseFailure::Other => database_failure(),
    }
}

impl AppError {
    /// The HTTP status under which the failure is reported.
    pub open spec fn spec_status_code(self) -> u16 {
        self@.status_code()
    }

    /// The text shown to the caller.
    pub open spec fn spec_message(self) -> Seq<char> {
        self@.message()
    }

    /// Whether this is the given user error.
    pub open spec fn is_user_error(self, user_error: UserErrorView) -> bool {
        self@ == AppErrorView::UserError(user_error)
    }

    /// The failure reported when something outside the caller's control
    /// went wrong; no detail is given.
    pub fn unexpected() -> (error: Self)
        ensures
            error@ == unexpected_failure(),
    {
        AppError::Unexpected(String::from_str("Internal Server Error!"))
    }

    /// The HTTP status under which the failure is reported.
    pub fn status_code(&self) -> (status: u16)
        ensures
            status == self.spec_status_code(),
    {
        match self {
            AppError::InternalServerError => 500,
            AppError::NotFound(_) => 404,
            AppError::BadRequest(_) => 400,
            AppError::Conflict(_) => 409,
            AppError::Unexpected(_) => 500,
            AppError::DatabaseError(_) => 500,
            AppError::UserError(user_error) => user_error.status_code(),
        }
    }

    /// The failed envelope that reports this error.
    pub fn into_response(self) -> (response: ApiResponse<()>)
        ensures
            !response.success,
            response.status_code == self.spec_status_code(),
            response.data is None,
            response.error matches Some(text) && text@ == self.spec_message(),
    {
        let (status, error_message): (u16, String) = match self {
            AppError::InternalServerError => (500, String::from_str("Internal Server Error")),
            AppError::NotFound(text) => (404, text),
            AppError::BadRequest(text) => (400, text),
            AppError::Conflict(text) => (409, text),
            AppError::Unexpected(text) => (500, text),
            AppError::DatabaseError(text) => (500, text),
            AppError::UserError(user_error) => {
                return user_error.into_response();
            },
        };
        ApiResponse::error(status, error_message)
    }

    /// Folds a failure of the persistence layer into what the caller may
    /// see.
    pub fn from_database(failure: DatabaseFailure) -> (error: Self)
        ensures
            error@ == folded(failure),
    {
        match failure {
            DatabaseFailure::RowNotFound => AppError::NotFound(
                String::from_str("Database record not found"),
            ),
            DatabaseFailure::EmailTaken => AppError::UserError(UserError::EmailAlreadyExists),
            DatabaseFailure::Other => AppError::DatabaseError(
                String::from_str("Database error occurred!"),
            ),
        }
    }
}

impl From<UserError> for AppError {
    fn from(err: UserError) -> (error: Self) {
        AppError::UserError(err)
    }
}

impl vstd::std_specs::convert::FromSpecImpl<UserError> for AppError {
    open spec fn obeys_from_spec() -> bool {
        true
    }

    open spec fn from_spec(err: UserError) -> Self {
        AppError::UserError(err)
    }
}

/// Whether `result` is a failure, and that failure is `user_error`.
pub open spec fn fails_with<T>(result: Result<T, AppError>, user_error: UserErrorView) -> bool {
    result matches Err(error) && error.is_user_error(user_error)
}

/// Whether `result` is the failure `failure`.
pub open spec fn fails_as<T>(result: Result<T, AppError>, failure: AppErrorView) -> bool {
    result matches Err(error) && error@ == failure
}

} // verus!
