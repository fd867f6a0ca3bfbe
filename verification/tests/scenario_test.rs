use backend::auth::extractor::AuthenticatedUser;
use backend::auth::jwt::Keys;
use backend::db::users::UserStore;
use backend::error::app_error::AppError;
use backend::error::user_error::UserError;
use backend::handler::users::{get_me, login_at, logout, refresh_token_at, register_user};
use backend::models::users::{LoginRequest, RefreshTokenRequest, RegisterUserRequest};

fn body() -> RegisterUserRequest {
    RegisterUserRequest {
        name: "A".to_string(),
        email: "a@x.com".to_string(),
        password: "longenough1".to_string(),
    }
}

fn login_body(password: &str) -> LoginRequest {
    LoginRequest { email: "a@x.com".to_string(), password: password.to_string() }
}

#[test]
fn register_login_refresh_replay() {
    let mut db = UserStore::new(vec!["user".to_string()]);
    let keys = Keys::new(b"scenario-secret");
    let now = std::time::SystemTime::now()
        .duration_since(std::time::UNIX_EPOCH)
        .unwrap()
        .as_secs();

    let registered = register_user(&mut db, &keys, body()).unwrap();
    assert_eq!(registered.status_code, 201);
    let first = registered.data.unwrap();
    assert!(!first.access_token.is_empty());
    assert!(!first.refresh_token.is_empty());

    let again = register_user(&mut db, &keys, body()).unwrap_err();
    assert_eq!(again.status_code(), 409);

    let wrong = login_at(&mut db, &keys, login_body("longenough2"), now + 10).unwrap_err();
    assert_eq!(wrong.status_code(), 401);
    assert!(matches!(wrong, AppError::UserError(UserError::InvalidCredentials)));

    let logged_in = login_at(&mut db, &keys, login_body("longenough1"), now + 10).unwrap();
    assert_eq!(logged_in.status_code, 200);
    let second = logged_in.data.unwrap();
    assert_ne!(second.refresh_token, first.refresh_token);
    assert_ne!(second.access_token, first.access_token);

    let refreshed = refresh_token_at(
        &mut db,
        &keys,
        RefreshTokenRequest { refresh_token: second.refresh_token.clone() },
        now + 20,
    )
    .unwrap();
    assert_eq!(refreshed.status_code, 200);
    let third = refreshed.data.unwrap();
    assert_ne!(third.refresh_token, second.refresh_token);

    let replay = refresh_token_at(
        &mut db,
        &keys,
        RefreshTokenRequest { refresh_token: second.refresh_token },
        now + 30,
    )
    .unwrap_err();
    assert_eq!(replay.status_code(), 401);
    assert!(matches!(replay, AppError::UserError(UserError::Unauthorized)));

    let header = format!("Bearer {}", third.access_token);
    let user = AuthenticatedUser::from_authorization_at(&keys, Some(&header), now + 30).unwrap();
    let profile = get_me(&db, user).unwrap().data.unwrap();
    assert_eq!(profile.email, "a@x.com");
    assert_eq!(profile.name, "A");

    assert!(logout(&mut db, user).is_ok());
    assert!(logout(&mut db, user).is_ok());
    let after_logout = refresh_token_at(
        &mut db,
        &keys,
        RefreshTokenRequest { refresh_token: third.refresh_token },
        now + 40,
    )
    .unwrap_err();
    assert!(matches!(after_logout, AppError::UserError(UserError::Unauthorized)));
}
