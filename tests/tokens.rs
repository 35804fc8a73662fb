use user_auth::gate::{authenticate, AuthOutcome, RejectReason};
use user_auth::token::{
    generate_access_token, get_time_sec, verify_access_token, verify_claims, AccessTokenError,
    TokenKeys, TOKEN_LIFE_TIME_SECS,
};

const NOW: u64 = 1_700_000_000;

fn keys() -> TokenKeys {
    TokenKeys::new(b"test-signing-secret".to_vec())
}

fn tamper_signature(token: &str) -> String {
    let dot = token.rfind('.').unwrap();
    let mut chars: Vec<char> = token.chars().collect();
    let i = dot + 2;
    chars[i] = if chars[i] == 'A' { 'B' } else { 'A' };
    chars.into_iter().collect()
}

fn tamper_payload(token: &str) -> String {
    let dot = token.find('.').unwrap();
    let mut chars: Vec<char> = token.chars().collect();
    let i = dot + 3;
    chars[i] = if chars[i] == 'x' { 'y' } else { 'x' };
    chars.into_iter().collect()
}

#[test]
fn issued_token_verifies_with_full_lifetime() {
    let k = keys();
    let token = generate_access_token(&k, &"jdoe".to_string(), NOW);
    assert_eq!(token.matches('.').count(), 2);
    let p = verify_access_token(&k, &token, NOW).ok().unwrap();
    assert_eq!(p.username, "jdoe");
    assert_eq!(p.remaining_time, TOKEN_LIFE_TIME_SECS);
    assert_eq!(TOKEN_LIFE_TIME_SECS, 300);
}

#[test]
fn issued_token_counts_down() {
    let k = keys();
    let token = generate_access_token(&k, &"jdoe".to_string(), NOW);
    let p = verify_access_token(&k, &token, NOW + 120).ok().unwrap();
    assert_eq!(p.remaining_time, 180);
}

#[test]
fn token_is_valid_at_its_expiry_instant() {
    let k = keys();
    let token = generate_access_token(&k, &"jdoe".to_string(), NOW);
    let p = verify_access_token(&k, &token, NOW + 300).ok().unwrap();
    assert_eq!(p.username, "jdoe");
    assert_eq!(p.remaining_time, 0);
}

#[test]
fn token_after_expiry_is_expired() {
    let k = keys();
    let token = generate_access_token(&k, &"jdoe".to_string(), NOW);
    assert_eq!(verify_access_token(&k, &token, NOW + 301).err(), Some(AccessTokenError::ExpiredToken));
    let header = format!("Bearer {}", token);
    assert!(matches!(
        authenticate(&k, Some(&header), NOW + 301),
        AuthOutcome::Rejected(RejectReason::Expired)
    ));
}

#[test]
fn issuing_is_deterministic() {
    let k = keys();
    let a = generate_access_token(&k, &"jdoe".to_string(), NOW);
    let b = generate_access_token(&k, &"jdoe".to_string(), NOW);
    let c = generate_access_token(&k, &"jdoe".to_string(), NOW + 1);
    assert_eq!(a, b);
    assert_ne!(a, c);
}

#[test]
fn tampered_token_is_invalid() {
    let k = keys();
    let token = generate_access_token(&k, &"jdoe".to_string(), NOW);
    for bad in [tamper_signature(&token), tamper_payload(&token), "abc".to_string(), String::new()] {
        assert_ne!(bad, token);
        assert_eq!(verify_access_token(&k, &bad, NOW).err(), Some(AccessTokenError::TokenInvalid));
        let header = format!("Bearer {}", bad);
        assert!(matches!(
            authenticate(&k, Some(&header), NOW),
            AuthOutcome::Rejected(RejectReason::Malformed)
        ));
    }
}

#[test]
fn token_signed_with_another_secret_is_invalid() {
    let token = generate_access_token(&keys(), &"jdoe".to_string(), NOW);
    let other = TokenKeys::new(b"another-secret".to_vec());
    assert_eq!(verify_access_token(&other, &token, NOW).err(), Some(AccessTokenError::TokenInvalid));
}

#[test]
fn rotated_secret_still_verifies() {
    let old = keys();
    let token = generate_access_token(&old, &"jdoe".to_string(), NOW);
    let rotated = TokenKeys {
        primary: b"next-secret".to_vec(),
        previous: vec![b"unrelated".to_vec(), b"test-signing-secret".to_vec()],
    };
    let p = verify_access_token(&rotated, &token, NOW).ok().unwrap();
    assert_eq!(p.username, "jdoe");
    let fresh = generate_access_token(&rotated, &"jdoe".to_string(), NOW);
    assert_eq!(verify_access_token(&old, &fresh, NOW).err(), Some(AccessTokenError::TokenInvalid));
}

#[test]
fn claims_are_read_by_key() {
    let claims = vec![
        ("created_time".to_string(), "1000".to_string()),
        ("username".to_string(), "alice".to_string()),
    ];
    let p = verify_claims(&claims, 400).ok().unwrap();
    assert_eq!(p.username, "alice");
    assert_eq!(p.remaining_time, 600);
    assert_eq!(verify_claims(&claims, 1001).err(), Some(AccessTokenError::ExpiredToken));
    let swapped = vec![
        ("username".to_string(), "alice".to_string()),
        ("created_time".to_string(), "1000".to_string()),
    ];
    assert_eq!(verify_claims(&swapped, 1000).ok().unwrap().remaining_time, 0);
}

#[test]
fn claims_without_subject_or_readable_expiry_are_invalid() {
    let no_subject = vec![("created_time".to_string(), "1000".to_string())];
    assert_eq!(verify_claims(&no_subject, 0).err(), Some(AccessTokenError::TokenInvalid));
    let no_expiry = vec![("username".to_string(), "alice".to_string())];
    assert_eq!(verify_claims(&no_expiry, 0).err(), Some(AccessTokenError::TokenInvalid));
    let bad_expiry = vec![
        ("created_time".to_string(), "soon".to_string()),
        ("username".to_string(), "alice".to_string()),
    ];
    assert_eq!(verify_claims(&bad_expiry, 0).err(), Some(AccessTokenError::TokenInvalid));
    assert_eq!(verify_claims(&Vec::new(), 0).err(), Some(AccessTokenError::TokenInvalid));
}

#[test]
fn gate_missing_header_is_missing() {
    assert!(matches!(authenticate(&keys(), None, NOW), AuthOutcome::Rejected(RejectReason::Missing)));
}

#[test]
fn gate_header_without_scheme_is_malformed() {
    let k = keys();
    let token = generate_access_token(&k, &"jdoe".to_string(), NOW);
    let no_scheme_long = format!("Token {}", token);
    for h in ["", "Bearer", "bearer abc.def.ghi", token.as_str(), no_scheme_long.as_str()] {
        assert!(matches!(
            authenticate(&k, Some(h), NOW),
            AuthOutcome::Rejected(RejectReason::Malformed)
        ));
    }
}

#[test]
fn gate_accepts_bearer_token() {
    let k = keys();
    let token = generate_access_token(&k, &"jdoe".to_string(), NOW);
    let header = format!("Bearer {}", token);
    match authenticate(&k, Some(&header), NOW + 10) {
        AuthOutcome::Authenticated(p) => {
            assert_eq!(p.username, "jdoe");
            assert_eq!(p.remaining_time, 290);
        }
        AuthOutcome::Rejected(r) => panic!("rejected: {:?}", r),
    }
}

#[test]
fn clock_reads_seconds_since_epoch() {
    assert!(get_time_sec() > 1_600_000_000);
}
