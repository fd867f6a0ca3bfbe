use backend::error::app_error::{AppError, DatabaseFailure};
use backend::error::job_error::JobError;
use backend::error::user_error::{UserError, ValidationIssues};
use backend::models::jobs::JobSourceType;
use backend::models::users::{LoginRequest, RegisterUserRequest, MIN_PASSWORD_LENGTH};
use backend::utils::response::{ApiResponse, EmptyResponse};

#[test]
fn user_errors_map_to_status_and_message() {
    assert_eq!(UserError::InvalidCredentials.status_code(), 401);
    assert_eq!(UserError::InvalidCredentials.message(), "Invalid credentials");
    assert_eq!(UserError::Unauthorized.status_code(), 401);
    assert_eq!(UserError::Unauthorized.message(), "Unauthorized");
    assert_eq!(UserError::EmailAlreadyExists.status_code(), 409);
    assert_eq!(UserError::EmailAlreadyExists.message(), "Email already registered");
    assert_eq!(UserError::RoleNotFound.status_code(), 400);
    assert_eq!(UserError::RoleNotFound.message(), "Role not found");
}

#[test]
fn validation_error_lists_the_refused_fields() {
    let both = UserError::ValidationError(ValidationIssues {
        email: Some("invalid-email".to_string()),
        password: true,
    });
    assert_eq!(both.status_code(), 400);
    assert_eq!(
        both.message(),
        "email: Validation error: email [{\"value\": String(\"invalid-email\")}]\npassword: Password must be at least 8 characters long"
    );
    let email = UserError::from(ValidationIssues {
        email: Some("a \"b\"".to_string()),
        password: false,
    });
    assert_eq!(
        email.message(),
        "email: Validation error: email [{\"value\": String(\"a \\\"b\\\"\")}]"
    );
    assert_eq!(email.clone().into_response().error, Some(email.message()));
    let none = ValidationIssues { email: None, password: false };
    assert_eq!(none.message(), "");
    let password = UserError::from(ValidationIssues { email: None, password: true });
    assert_eq!(
        password.message(),
        "password: Password must be at least 8 characters long"
    );
}

#[test]
fn app_errors_map_to_status_and_message() {
    let cases: Vec<(AppError, u16, &str)> = vec![
        (AppError::InternalServerError, 500, "Internal Server Error"),
        (AppError::NotFound("gone".to_string()), 404, "gone"),
        (AppError::BadRequest("bad".to_string()), 400, "bad"),
        (AppError::Conflict("twice".to_string()), 409, "twice"),
        (AppError::Unexpected("oops".to_string()), 500, "oops"),
        (AppError::DatabaseError("db".to_string()), 500, "db"),
        (AppError::UserError(UserError::InvalidCredentials), 401, "Invalid credentials"),
        (AppError::from(UserError::EmailAlreadyExists), 409, "Email already registered"),
    ];
    for (error, status, message) in cases {
        assert_eq!(error.status_code(), status);
        let response = error.into_response();
        assert!(!response.success);
        assert_eq!(response.status_code, status);
        assert!(response.data.is_none());
        assert_eq!(response.error.as_deref(), Some(message));
    }
}

#[test]
fn rejected_credentials_look_alike_whatever_the_cause() {
    let first = AppError::from(UserError::InvalidCredentials).into_response();
    let second = AppError::UserError(UserError::InvalidCredentials).into_response();
    assert_eq!(first.status_code, second.status_code);
    assert_eq!(first.error, second.error);
    assert_eq!(
        UserError::InvalidCredentials.into_response().status_code,
        UserError::Unauthorized.into_response().status_code
    );
}

#[test]
fn database_failures_are_folded() {
    let missing = AppError::from_database(DatabaseFailure::RowNotFound);
    assert!(matches!(&missing, AppError::NotFound(text) if text == "Database record not found"));
    assert_eq!(missing.status_code(), 404);
    let other = AppError::from_database(DatabaseFailure::Other);
    assert!(matches!(&other, AppError::DatabaseError(text) if text == "Database error occurred!"));
    assert_eq!(other.status_code(), 500);
    let taken = AppError::from_database(DatabaseFailure::EmailTaken);
    assert!(matches!(taken, AppError::UserError(UserError::EmailAlreadyExists)));
    let unexpected = AppError::unexpected();
    assert!(matches!(&unexpected, AppError::Unexpected(text) if text == "Internal Server Error!"));
}

#[test]
fn job_error_is_a_bad_request() {
    let response = JobError::JobSourceTypeNotExist("nope".to_string()).into_response();
    assert!(!response.success);
    assert_eq!(response.status_code, 400);
    assert_eq!(response.error.as_deref(), Some("nope"));
}

#[test]
fn envelope_holds_data_or_message() {
    let ok = ApiResponse::success(201, 7u8);
    assert!(ok.success);
    assert_eq!(ok.status_code, 201);
    assert_eq!(ok.data, Some(7));
    assert!(ok.error.is_none());
    let failed: ApiResponse<EmptyResponse> = ApiResponse::error(404, "gone".to_string());
    assert!(!failed.success);
    assert_eq!(failed.status_code, 404);
    assert!(failed.data.is_none());
    assert_eq!(failed.error.as_deref(), Some("gone"));
}

#[test]
fn job_source_type_round_trips() {
    assert_eq!(JobSourceType::UserEntered.to_string(), "user_entered");
    assert_eq!(JobSourceType::ScrapedJob.to_string(), "scraped");
    assert_eq!(JobSourceType::from_string("user_entered"), Ok(JobSourceType::UserEntered));
    assert_eq!(JobSourceType::from_string("scraped"), Ok(JobSourceType::ScrapedJob));
    for source in [JobSourceType::UserEntered, JobSourceType::ScrapedJob] {
        assert_eq!(JobSourceType::from_string(&source.to_string()), Ok(source));
    }
}

#[test]
fn unknown_job_source_type_is_quoted_in_the_message() {
    assert_eq!(
        JobSourceType::from_string("scraped_job"),
        Err("Invalid Value: scraped_job, Allowed values are user_entered and scraped".to_string())
    );
    assert_eq!(
        JobSourceType::from_string(""),
        Err("Invalid Value: , Allowed values are user_entered and scraped".to_string())
    );
    assert!(JobSourceType::from_string("User_Entered").is_err());
}

fn register_body(email: &str, password: &str) -> RegisterUserRequest {
    RegisterUserRequest {
        name: "A".to_string(),
        email: email.to_string(),
        password: password.to_string(),
    }
}

#[test]
fn well_formed_body_is_accepted() {
    assert_eq!(register_body("a@x.com", "longenough1").validate(), Ok(()));
    assert_eq!(register_body("a@x.com", "12345678").validate(), Ok(()));
    let login = LoginRequest { email: "user@example.com".to_string(), password: "password123".to_string() };
    assert_eq!(login.validate(), Ok(()));
    assert_eq!(MIN_PASSWORD_LENGTH, 8);
}

#[test]
fn short_password_is_refused() {
    assert_eq!(
        register_body("a@x.com", "1234567").validate(),
        Err(ValidationIssues { email: None, password: true })
    );
    assert_eq!(
        register_body("a@x.com", "").validate(),
        Err(ValidationIssues { email: None, password: true })
    );
}

#[test]
fn password_length_counts_characters_not_bytes() {
    assert_eq!(register_body("a@x.com", "ééééééé").validate().unwrap_err().password, true);
    assert_eq!(register_body("a@x.com", "éééééééé").validate(), Ok(()));
}

#[test]
fn malformed_email_is_refused() {
    for email in ["invalid-email", "", "a@", "@x.com", "a b@x.com", "a@x..com"] {
        assert_eq!(
            register_body(email, "longenough1").validate(),
            Err(ValidationIssues { email: Some(email.to_string()), password: false }),
            "{}",
            email
        );
    }
    let login = LoginRequest { email: "nope".to_string(), password: "short".to_string() };
    assert_eq!(
        login.validate(),
        Err(ValidationIssues { email: Some("nope".to_string()), password: true })
    );
}
