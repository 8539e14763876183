use taskcore::account_repository::AccountRepository;
use taskcore::account_service::{login, login_at, register, register_with, AccountService};
use taskcore::error::AppError;
use taskcore::model::{Account, LoginRequest, RegisterRequest};
use taskcore::password::{hash_password, verify_password};
use taskcore::token::{issue_token, verify_token, SESSION_TTL_SECS};

fn fresh_service() -> AccountService {
    AccountService::new(AccountRepository::new())
}

fn alice_registration() -> RegisterRequest {
    RegisterRequest {
        username: "alice".to_owned(),
        password: "secret123".to_owned(),
        nickname: "Alice".to_owned(),
    }
}

#[test]
fn register_then_login_token_verifies() {
    let mut svc = fresh_service();
    let secret = b"process-wide-secret";
    let resp = register_with(&mut svc, &alice_registration(), 7, 1_000).unwrap();
    assert_eq!(resp.id, 7);
    assert_eq!(resp.username.as_deref(), Some("alice"));
    assert_eq!(resp.nickname, "Alice");

    let input = LoginRequest { username: "alice".to_owned(), password: "secret123".to_owned() };
    let session = login_at(&svc, &input, secret, 2_000).unwrap();
    assert_eq!(session.account.id, 7);
    assert_eq!(session.account.nickname, "Alice");

    let claims = verify_token(&session.access_token, secret, 2_500).unwrap();
    assert_eq!(claims.sub, 7);
    assert_eq!(claims.exp, 2_000 + SESSION_TTL_SECS);
}

#[test]
fn wrong_password_and_unknown_username_same_error_kind() {
    let mut svc = fresh_service();
    register_with(&mut svc, &alice_registration(), 7, 1_000).unwrap();

    let wrong_password = LoginRequest {
        username: "alice".to_owned(),
        password: "not-the-password".to_owned(),
    };
    let unknown_user = LoginRequest {
        username: "nobody".to_owned(),
        password: "secret123".to_owned(),
    };
    let e1 = login_at(&svc, &wrong_password, b"k", 2_000).unwrap_err();
    let e2 = login_at(&svc, &unknown_user, b"k", 2_000).unwrap_err();
    assert_eq!(e1, AppError::PasswordError);
    assert_eq!(e2, AppError::PasswordError);
    assert_eq!(e1, e2);
}

#[test]
fn login_with_absent_hash_is_password_error() {
    let mut svc = fresh_service();
    let orphan = Account {
        id: 9,
        username: Some("ghost".to_owned()),
        nickname: "Ghost".to_owned(),
        password_hash: None,
        role: "parent".to_owned(),
        created_at: 1,
        updated_at: 1,
        created_by: 9,
        updated_by: 9,
        is_deleted: false,
    };
    svc.create(orphan).unwrap();
    let input = LoginRequest { username: "ghost".to_owned(), password: "whatever".to_owned() };
    assert_eq!(login_at(&svc, &input, b"k", 1_000).unwrap_err(), AppError::PasswordError);
}

#[test]
fn duplicate_username_registration_fails_internal() {
    let mut svc = fresh_service();
    register_with(&mut svc, &alice_registration(), 7, 1_000).unwrap();
    let again = register_with(&mut svc, &alice_registration(), 8, 2_000);
    assert_eq!(again.unwrap_err(), AppError::Internal);
}

#[test]
fn duplicate_account_id_registration_fails_internal() {
    let mut svc = fresh_service();
    register_with(&mut svc, &alice_registration(), 7, 1_000).unwrap();
    let clashing = RegisterRequest {
        username: "carol".to_owned(),
        password: "pass-word".to_owned(),
        nickname: "Carol".to_owned(),
    };
    assert_eq!(register_with(&mut svc, &clashing, 7, 2_000).unwrap_err(), AppError::Internal);
}

#[test]
fn register_and_login_with_ambient_clock() {
    let mut svc = fresh_service();
    let resp = register(&mut svc, &alice_registration()).unwrap();
    let input = LoginRequest { username: "alice".to_owned(), password: "secret123".to_owned() };
    let session = login(&svc, &input, b"k").unwrap();
    assert_eq!(session.account.id, resp.id);
    let now = taskcore::ambient::current_timestamp();
    let claims = verify_token(&session.access_token, b"k", now).unwrap();
    assert_eq!(claims.sub, resp.id);
}

#[test]
fn expired_token_is_unauthorized() {
    let token = issue_token(7, 1_000, b"k").unwrap();
    let at_expiry = verify_token(&token, b"k", 1_000 + SESSION_TTL_SECS);
    assert_eq!(at_expiry.unwrap_err(), AppError::Unauthorized);
    let long_after = verify_token(&token, b"k", 1_000 + 2 * SESSION_TTL_SECS);
    assert_eq!(long_after.unwrap_err(), AppError::Unauthorized);
}

#[test]
fn token_with_wrong_secret_or_garbage_is_unauthorized() {
    let token = issue_token(7, 1_000, b"k").unwrap();
    assert_eq!(verify_token(&token, b"other", 1_500).unwrap_err(), AppError::Unauthorized);
    assert_eq!(verify_token("not-a-token", b"k", 1_500).unwrap_err(), AppError::Unauthorized);
    assert_eq!(verify_token("", b"k", 1_500).unwrap_err(), AppError::Unauthorized);
}

#[test]
fn token_round_trip_preserves_claims() {
    let token = issue_token(u128::MAX - 3, 10_000, b"k").unwrap();
    let claims = verify_token(&token, b"k", 10_001).unwrap();
    assert_eq!(claims.sub, u128::MAX - 3);
    assert_eq!(claims.exp, 10_000 + SESSION_TTL_SECS);
}

#[test]
fn hashing_salts_fresh_but_both_digests_verify() {
    let d1 = hash_password("secret123").unwrap();
    let d2 = hash_password("secret123").unwrap();
    assert_ne!(d1, d2);
    assert!(verify_password("secret123", &d1));
    assert!(verify_password("secret123", &d2));
    assert!(!verify_password("secret124", &d1));
}

#[test]
fn verify_password_fails_closed_on_malformed_digest() {
    assert!(!verify_password("secret123", "not-a-phc-string"));
    assert!(!verify_password("secret123", ""));
}
