use auth_core::csrf::{SessionCsrf, CSRF_TOKEN_DURATION};

const NOW: u64 = 1_700_000_000;

#[test]
fn issued_token_validates_immediately() {
    let mut session = SessionCsrf::new();
    let token = session.issue_at(NOW);
    assert!(session.validate_at(&token, NOW));
}

#[test]
fn issued_token_validates_until_expiry_inclusive() {
    let mut session = SessionCsrf::new();
    let token = session.issue_at(NOW);
    assert!(session.validate_at(&token, NOW + CSRF_TOKEN_DURATION));
    assert!(!session.validate_at(&token, NOW + CSRF_TOKEN_DURATION + 1));
}

#[test]
fn empty_session_fails_closed() {
    let session = SessionCsrf::new();
    assert!(!session.validate_at(&"anything".to_string(), NOW));
}

#[test]
fn wrong_value_fails_closed() {
    let mut session = SessionCsrf::new();
    let token = session.issue_at(NOW);
    let mut wrong = token.clone();
    wrong.push('x');
    assert!(!session.validate_at(&wrong, NOW));
    assert!(!session.validate_at(&"".to_string(), NOW));
}

#[test]
fn prefix_of_token_fails_closed() {
    let mut session = SessionCsrf::new();
    let token = session.issue_at(NOW);
    let prefix = token[..token.len() - 1].to_string();
    assert!(!session.validate_at(&prefix, NOW));
}

#[test]
fn reissue_replaces_pending_token() {
    let mut session = SessionCsrf::new();
    let first = session.issue_at(NOW);
    let second = session.issue_at(NOW + 1);
    assert_ne!(first, second);
    assert!(!session.validate_at(&first, NOW + 1));
    assert!(session.validate_at(&second, NOW + 1));
}

#[test]
fn cross_session_tokens_never_validate() {
    let mut alice = SessionCsrf::new();
    let mut bob = SessionCsrf::new();
    let alice_token = alice.issue_at(NOW);
    let bob_token = bob.issue_at(NOW);
    assert_ne!(alice_token, bob_token);
    assert!(!bob.validate_at(&alice_token, NOW));
    assert!(!alice.validate_at(&bob_token, NOW));
}

#[test]
fn token_value_is_36_characters() {
    let mut session = SessionCsrf::new();
    let token = session.issue_at(NOW);
    assert_eq!(token.chars().count(), 36);
}

#[test]
fn clock_based_issue_validates() {
    let mut session = SessionCsrf::new();
    let token = session.issue();
    assert!(session.validate(&token));
}
