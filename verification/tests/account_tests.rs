use task_sync::account::{check_credentials, hash_password};
use task_sync::model::{ApiError, User};

fn user_with_hash(hash: String) -> User {
    User { id: 1, username: "alice".to_string(), password_hash: hash }
}

#[test]
fn hashed_password_verifies_and_wrong_password_does_not() {
    let hash = hash_password("correct horse").expect("hashing should succeed");
    // The hash is salted, never the password itself.
    assert_ne!(hash, "correct horse");

    let user = user_with_hash(hash.clone());
    let accepted = check_credentials(Some(user_with_hash(hash.clone())), "correct horse");
    assert_eq!(accepted, Ok(user));

    assert_eq!(
        check_credentials(Some(user_with_hash(hash)), "battery staple"),
        Err(ApiError::InvalidCredentials)
    );
}

#[test]
fn unknown_account_is_rejected() {
    assert_eq!(check_credentials(None, "anything"), Err(ApiError::InvalidCredentials));
}

#[test]
fn malformed_stored_hash_matches_nothing() {
    assert_eq!(
        check_credentials(Some(user_with_hash("not-a-hash".to_string())), "pw"),
        Err(ApiError::InvalidCredentials)
    );
}
