//! Failures that a caller of the user endpoints can cause.

use vstd::prelude::*;
use vstd::string::*;
use crate::text::opt_text;
use crate::utils::response::ApiResponse;

verus! {

/// Which fields of a request body were refused.
#[derive(Debug, Clone, PartialEq, Eq)]
pub struct ValidationIssues {
    /// The email address that is not well formed, where it is not.
    pub email: Option<String>,
    /// The password is shorter than the minimum.
    pub password: bool,
}

/// The refused fields as plain values.
pub ghost struct ValidationIssuesView {
    pub email: Option<Seq<char>>,
    pub password: bool,
}

impl View for ValidationIssues {
    type V = ValidationIssuesView;

    open spec fn view(&self) -> ValidationIssuesView {
        ValidationIssuesView { email: opt_text(self.email), password: self.password }
    }
}

/// A failure that the caller of a user endpoint caused.
#[derive(Debug, Clone, PartialEq, Eq)]
pub enum UserError {
    /// A wrong password, an unknown email, or a token that is forged,
    /// malformed or expired. The cause is never told apart.
    InvalidCredentials,
    EmailAlreadyExists,
    /// A genuine token of the wrong kind, or one that is no longer stored.
    Unauthorized,
    ValidationError(ValidationIssues),
    RoleNotFound,
}

/// A failure of a caller as plain values.
pub ghost enum UserErrorView {
    InvalidCredentials,
    EmailAlreadyExists,
    Unauthorized,
    ValidationError(ValidationIssuesView),
    RoleNotFound,
}

impl View for UserError {
    type V = UserErrorView;

    open spec fn view(&self) -> UserErrorView {
        match self {
            UserError::InvalidCredentials => UserErrorView::InvalidCredentials,
            UserError::EmailAlreadyExists => UserErrorView::EmailAlreadyExists,
            UserError::Unauthorized => UserErrorView::Unauthorized,
            UserError::ValidationError(issues) => UserErrorView::ValidationError(issues@),
            UserError::RoleNotFound => UserErrorView::RoleNotFound,
        }
    }
}

/// The line that the validator shows for a refused email address; it
/// quotes the address.
pub uninterp spec fn refused_email_line(address: Seq<char>) -> Seq<char>;

/// Renders the refusal of an address, by the `to_string` of a
/// `validator::ValidationErrors` that holds, for the field `email`, one
/// `validator::ValidationError` of code `email` with the address as its
/// `value`. Trusted: the text is named `refused_email_line`.
#[verifier::external_body]
fn render_refused_email(address: &str) -> (line: String)
    ensures
        line@ == refused_email_line(address@),
{
    let mut error = validator::ValidationError::new("email");
    error.add_param(std::borrow::Cow::from("value"), &address);
    let mut errors = validator::ValidationErrors::new();
    errors.add("email", error);
    errors.to_string()
}

/// The line shown for a password that is too short.
pub open spec fn short_password_line() -> Seq<char> {
    "password: Password must be at least 8 characters long"@
}

/// The text that lists the refused fields, one line for each: the email
/// first, then the password.
pub open spec fn issues_message(issues: ValidationIssuesView) -> Seq<char> {
    match issues.email {
        Some(address) => if issues.password {
            refused_email_line(address) + "\n"@ + short_password_line()
        } else {
            refused_email_line(address)
        },
        None => if issues.password {
            short_password_line()
        } else {
            ""@
        },
    }
}

impl ValidationIssues {
    /// The text that lists the refused fields.
    pub fn message(&self) -> (text: String)
        ensures
            text@ == issues_message(self@),
    {
        match &self.email {
            Some(address) => {
                let mut text = render_refused_email(address.as_str());
                if self.password {
                    text.append("\n");
                    text.append("password: Password must be at least 8 characters long");
                }
                text
            },
            None => {
                if self.password {
                    String::from_str("password: Password must be at least 8 characters long")
                } else {
                    String::from_str("")
                }
            },
        }
    }
}

impl UserErrorView {
    /// The HTTP status under which the failure is reported. Both kinds of
    /// rejected credential share one status.
    pub open spec fn status_code(self) -> u16 {
        match self {
            UserErrorView::InvalidCredentials => 401,
            UserErrorView::EmailAlreadyExists => 409,
            UserErrorView::ValidationError(_) => 400,
            UserErrorView::Unauthorized => 401,
            UserErrorView::RoleNotFound => 400,
        }
    }

    /// The text shown to the caller.
    pub open spec fn message(self) -> Seq<char> {
        match self {
            UserErrorView::InvalidCredentials => "Invalid credentials"@,
            UserErrorView::EmailAlreadyExists => "Email already registered"@,
            UserErrorView::ValidationError(issues) => issues_message(issues),
            UserErrorView::Unauthorized => "Unauthorized"@,
            UserErrorView::RoleNotFound => "Role not found"@,
        }
    }
}

impl UserError {
    /// The HTTP status under which the failure is reported.
    pub open spec fn spec_status_code(self) -> u16 {
        self@.status_code()
    }

    /// The text shown to the caller.
    pub open spec fn spec_message(self) -> Seq<char> {
        self@.message()
    }

    /// The HTTP status under which the failure is reported.
    pub fn status_code(&self) -> (status: u16)
        ensures
            status == self.spec_status_code(),
    {
        match self {
            UserError::InvalidCredentials => 401,
            UserError::EmailAlreadyExists => 409,
            UserError::ValidationError(_) => 400,
            UserError::Unauthorized => 401,
            UserError::RoleNotFound => 400,
        }
    }

    /// The text shown to the caller.
    pub fn message(&self) -> (text: String)
        ensures
            text@ == self.spec_message(),
    {
        match self {
            UserError::InvalidCredentials => String::from_str("Invalid credentials"),
            UserError::EmailAlreadyExists => String::from_str("Email already registered"),
            UserError::ValidationError(issues) => issues.message(),
            UserError::Unauthorized => String::from_str("Unauthorized"),
            UserError::RoleNotFound => String::from_str("Role not found"),
        }
    }

    /// The failed envelope that reports this error.
    pub fn into_response(self) -> (response: ApiResponse<()>)
        ensures
            !response.success,
            response.status_code == self.spec_status_code(),
            response.data is None,
            response.error matches Some(text) && text@ == self.spec_message(),
    {
        ApiResponse::error(self.status_code(), self.message())
    }
}

impl From<ValidationIssues> for UserError {
    fn from(issues: ValidationIssues) -> (error: Self) {
        UserError::ValidationError(issues)
    }
}

impl vstd::std_specs::convert::FromSpecImpl<ValidationIssues> for UserError {
    open spec fn obeys_from_spec() -> bool {
        true
    }

    open spec fn from_spec(issues: ValidationIssues) -> Self {
        UserError::ValidationError(issues)
    }
}

} // verus!
