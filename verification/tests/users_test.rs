use backend::auth::extractor::AuthenticatedUser;
use backend::auth::jwt::Keys;
use backend::db::users::{email_exists, UserStore};
use backend::error::app_error::AppError;
use backend::error::user_error::UserError;
use backend::handler::users::{
    get_me, login_at, logout, refresh_token_at, register_user,
};
use backend::models::users::{
    LoginRequest, LoginResponse, RefreshTokenRequest, RegisterUserRequest,
};
use backend::utils::response::ApiResponse;

const SECRET: &[u8] = b"test-signing-secret";

fn setup_test_app() -> (UserStore, Keys) {
    (UserStore::new(vec!["user".to_string()]), Keys::new(SECRET))
}

fn now() -> u64 {
    std::time::SystemTime::now()
        .duration_since(std::time::UNIX_EPOCH)
        .unwrap()
        .as_secs()
}

fn register(
    db: &mut UserStore,
    keys: &Keys,
    name: &str,
    email: &str,
    password: &str,
) -> Result<ApiResponse<LoginResponse>, AppError> {
    register_user(
        db,
        keys,
        RegisterUserRequest {
            name: name.to_string(),
            email: email.to_string(),
            password: password.to_string(),
        },
    )
}

fn status_of<T>(response: &Result<ApiResponse<T>, AppError>) -> u16 {
    match response {
        Ok(body) => body.status_code,
        Err(error) => error.status_code(),
    }
}

fn tokens(response: Result<ApiResponse<LoginResponse>, AppError>) -> LoginResponse {
    response.unwrap().data.unwrap()
}

fn authenticate(keys: &Keys, header: Option<&str>) -> Result<AuthenticatedUser, AppError> {
    AuthenticatedUser::from_request_parts(keys, header)
}

#[test]
fn test_register_user_success() {
    let (mut db, keys) = setup_test_app();
    let response = register(
        &mut db,
        &keys,
        "Riccado Martiniz",
        "rm@rust.com",
        "verygoodpassword123",
    );
    assert_eq!(status_of(&response), 201);
    let body = response.unwrap();
    assert!(body.success);
    assert!(body.error.is_none());
    let data = body.data.unwrap();
    assert!(!data.access_token.is_empty());
    assert!(!data.refresh_token.is_empty());
    assert_eq!(data.token_type, "Bearer");
}

#[test]
fn test_register_user_duplicate_email() {
    let (mut db, keys) = setup_test_app();
    let response = register(&mut db, &keys, "Alice", "alice@example.com", "verygoodpassword123");
    assert_eq!(status_of(&response), 201);
    let response = register(&mut db, &keys, "Alice", "alice@example.com", "verygoodpassword123");
    assert_eq!(status_of(&response), 409);
    assert!(matches!(
        response,
        Err(AppError::UserError(UserError::EmailAlreadyExists))
    ));
}

#[test]
fn test_register_user_invalid_email() {
    let (mut db, keys) = setup_test_app();
    let response = register(&mut db, &keys, "Bob", "invalid-email", "password123");
    assert_eq!(status_of(&response), 400);
    assert_eq!(
        response.unwrap_err().into_response().error.as_deref(),
        Some("email: Validation error: email [{\"value\": String(\"invalid-email\")}]")
    );
    assert!(!email_exists(&db, "invalid-email"));
}

#[test]
fn test_login_success() {
    let (mut db, keys) = setup_test_app();
    let response = register(&mut db, &keys, "Kevin Johnson", "kj@ditto.com", "verygoodpassword123");
    assert_eq!(status_of(&response), 201);
    let response = login_at(
        &mut db,
        &keys,
        LoginRequest {
            email: "kj@ditto.com".to_string(),
            password: "verygoodpassword123".to_string(),
        },
        now(),
    );
    assert_eq!(status_of(&response), 200);
    let data = tokens(response);
    assert!(!data.access_token.is_empty());
    assert!(!data.refresh_token.is_empty());
}

#[test]
fn test_login_user_not_exist() {
    let (mut db, keys) = setup_test_app();
    let response = register(&mut db, &keys, "Apple Wood", "aw@ditto.com", "verygoodpassword123");
    assert_eq!(status_of(&response), 201);
    let response = login_at(
        &mut db,
        &keys,
        LoginRequest {
            email: "bw@ditto.com".to_string(),
            password: "verygoodpassword123".to_string(),
        },
        now(),
    );
    assert_eq!(status_of(&response), 401);
}

#[test]
fn test_logout_success() {
    let (mut db, keys) = setup_test_app();
    let response = register(&mut db, &keys, "John Doe", "john@example.com", "securepassword123");
    assert_eq!(status_of(&response), 201);
    let data = tokens(response);
    let header = format!("Bearer {}", data.access_token);
    let user = authenticate(&keys, Some(&header)).unwrap();
    let response = logout(&mut db, user);
    assert_eq!(status_of(&response), 200);
    let response = refresh_token_at(
        &mut db,
        &keys,
        RefreshTokenRequest { refresh_token: data.refresh_token },
        now(),
    );
    assert_eq!(status_of(&response), 401);
}

#[test]
fn test_logout_fail_no_token() {
    let (_db, keys) = setup_test_app();
    let refused = authenticate(&keys, None);
    assert_eq!(refused.unwrap_err().status_code(), 401);
}

#[test]
fn test_logout_fail_invalid_token() {
    let (_db, keys) = setup_test_app();
    let invalid_token = "invalid.jwt.token";
    let header = format!("Bearer {}", invalid_token);
    let refused = authenticate(&keys, Some(&header));
    assert_eq!(refused.unwrap_err().status_code(), 401);
}

#[test]
fn test_refresh_token_success() {
    let (mut db, keys) = setup_test_app();
    let response = register(
        &mut db,
        &keys,
        "Candy",
        "candy1154545@example.com",
        "securepassword123",
    );
    assert_eq!(status_of(&response), 201);
    let data = tokens(response);
    let response = refresh_token_at(
        &mut db,
        &keys,
        RefreshTokenRequest { refresh_token: data.refresh_token },
        now(),
    );
    assert_eq!(status_of(&response), 200);
    let refreshed = tokens(response);
    assert!(!refreshed.access_token.is_empty());
    assert!(!refreshed.refresh_token.is_empty());
}

#[test]
fn test_refresh_token_invalid() {
    let (mut db, keys) = setup_test_app();
    let response = refresh_token_at(
        &mut db,
        &keys,
        RefreshTokenRequest { refresh_token: "invalid.jwt.token".to_string() },
        now(),
    );
    assert_eq!(status_of(&response), 401);
}

#[test]
fn test_refresh_token_old_token_invalid() {
    let (mut db, keys) = setup_test_app();
    let response = register(&mut db, &keys, "Bob", "bob@example.com", "securepassword123");
    assert_eq!(status_of(&response), 201);
    let first_refresh_token = tokens(response).refresh_token;
    let later = now() + 1;
    let response = refresh_token_at(
        &mut db,
        &keys,
        RefreshTokenRequest { refresh_token: first_refresh_token.clone() },
        later,
    );
    assert_eq!(status_of(&response), 200);
    let new_refresh_token = tokens(response).refresh_token;
    assert_ne!(new_refresh_token, first_refresh_token);
    let response = refresh_token_at(
        &mut db,
        &keys,
        RefreshTokenRequest { refresh_token: first_refresh_token },
        later + 1,
    );
    assert_eq!(status_of(&response), 401);
    assert!(matches!(
        response,
        Err(AppError::UserError(UserError::Unauthorized))
    ));
}

#[test]
fn test_get_me_success() {
    let (mut db, keys) = setup_test_app();
    let response = register(&mut db, &keys, "Linda", "linda@example.com", "securepassword123");
    assert_eq!(status_of(&response), 201);
    let access_token = tokens(response).access_token;
    let header = format!("Bearer {}", access_token);
    let user = authenticate(&keys, Some(&header)).unwrap();
    let response = get_me(&db, user);
    assert_eq!(status_of(&response), 200);
    let profile = response.unwrap().data.unwrap();
    assert_eq!(profile.email, "linda@example.com");
    assert_eq!(profile.name, "Linda");
    assert_eq!(profile.id, user.user_id);
    assert_eq!(profile.auth_provider, "email");
    assert_eq!(profile.roles, vec!["user".to_string()]);
}

#[test]
fn test_get_me_invalid_token() {
    let (_db, keys) = setup_test_app();
    let header = format!("Bearer {}", "invalid.jwt.token");
    let refused = authenticate(&keys, Some(&header));
    assert_eq!(refused.unwrap_err().status_code(), 401);
}
