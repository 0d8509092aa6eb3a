use task_sync::auth::{authorize_header, bearer_token, create_token, AuthUser, TOKEN_TTL_SECONDS};
use task_sync::model::ApiError;

const SECRET: &[u8] = b"test-signing-secret";
const NOW: u64 = 1_700_000_000;

#[test]
fn round_trip_issue_then_verify() {
    let token = create_token("42", SECRET, NOW).expect("signing should succeed");
    let identity = AuthUser::from_token(&token, SECRET, NOW);
    assert_eq!(identity, Some(AuthUser { user_id: 42 }));
}

#[test]
fn token_valid_until_just_before_expiry() {
    let token = create_token("7", SECRET, NOW).expect("signing should succeed");
    let at = NOW + TOKEN_TTL_SECONDS - 1;
    assert_eq!(AuthUser::from_token(&token, SECRET, at), Some(AuthUser { user_id: 7 }));
}

#[test]
fn expired_token_rejected() {
    let token = create_token("7", SECRET, NOW).expect("signing should succeed");
    assert_eq!(AuthUser::from_token(&token, SECRET, NOW + TOKEN_TTL_SECONDS), None);
    assert_eq!(AuthUser::from_token(&token, SECRET, NOW + TOKEN_TTL_SECONDS + 5000), None);
}

#[test]
fn tampered_token_rejected() {
    let token = create_token("42", SECRET, NOW).expect("signing should succeed");
    let mut tampered: String = token[..token.len() - 1].to_string();
    let last = token.chars().last().unwrap();
    tampered.push(if last == 'A' { 'B' } else { 'A' });
    assert_eq!(AuthUser::from_token(&tampered, SECRET, NOW), None);
}

#[test]
fn wrong_secret_rejected() {
    let token = create_token("42", SECRET, NOW).expect("signing should succeed");
    assert_eq!(AuthUser::from_token(&token, b"another-secret", NOW), None);
}

#[test]
fn malformed_token_rejected() {
    assert_eq!(AuthUser::from_token("not-a-token", SECRET, NOW), None);
    assert_eq!(AuthUser::from_token("", SECRET, NOW), None);
}

#[test]
fn non_numeric_subject_rejected() {
    let token = create_token("alice", SECRET, NOW).expect("signing should succeed");
    assert_eq!(AuthUser::from_token(&token, SECRET, NOW), None);
}

#[test]
fn out_of_range_subject_rejected() {
    let token = create_token("2147483648", SECRET, NOW).expect("signing should succeed");
    assert_eq!(AuthUser::from_token(&token, SECRET, NOW), None);
}

#[test]
fn bearer_prefix_extraction() {
    assert_eq!(bearer_token("Bearer abc.def.ghi"), Some("abc.def.ghi"));
    assert_eq!(bearer_token("Bearer "), Some(""));
    assert_eq!(bearer_token("bearer abc"), None);
    assert_eq!(bearer_token("Basic abc"), None);
    assert_eq!(bearer_token("Bearer"), None);
    assert_eq!(bearer_token(""), None);
}

#[test]
fn full_header_to_identity_flow() {
    let token = create_token("11", SECRET, NOW).expect("signing should succeed");
    let header = format!("Bearer {}", token);
    let extracted = bearer_token(&header).expect("prefix should match");
    assert_eq!(AuthUser::from_token(extracted, SECRET, NOW), Some(AuthUser { user_id: 11 }));
    assert_eq!(
        authorize_header(Some(&header), SECRET, NOW),
        Ok(AuthUser { user_id: 11 })
    );
}

#[test]
fn every_gate_failure_is_the_same_rejection() {
    let token = create_token("11", SECRET, NOW).expect("signing should succeed");
    let header = format!("Bearer {}", token);
    // Missing header, wrong scheme, garbage token, expired token: all alike.
    assert_eq!(authorize_header(None, SECRET, NOW), Err(ApiError::AuthRejected));
    let basic = format!("Basic {}", token);
    assert_eq!(authorize_header(Some(&basic), SECRET, NOW), Err(ApiError::AuthRejected));
    assert_eq!(authorize_header(Some("Bearer junk"), SECRET, NOW), Err(ApiError::AuthRejected));
    assert_eq!(
        authorize_header(Some(&header), SECRET, NOW + TOKEN_TTL_SECONDS),
        Err(ApiError::AuthRejected)
    );
}
