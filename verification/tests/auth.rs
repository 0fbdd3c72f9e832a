use std::time::{Duration, SystemTime};

use lamco_rdp_server::security::auth::{
    pam_verdict, validate_username, AuthError, AuthMethod, PamOutcome, PamValidator,
    UserAuthenticator,
};
use lamco_rdp_server::security::rate_limit::{PeerAddr, RateLimiter, SECOND};
use lamco_rdp_server::security::session_token::{past, SessionToken};

#[test]
fn test_auth_method_from_str() {
    assert_eq!(AuthMethod::from_str("pam"), AuthMethod::Pam);
    assert_eq!(AuthMethod::from_str("none"), AuthMethod::Disabled);
    assert_eq!(AuthMethod::from_str("invalid"), AuthMethod::Disabled);
}

#[test]
fn method_names_ignore_case() {
    assert_eq!(AuthMethod::from_str("PAM"), AuthMethod::Pam);
    assert_eq!(AuthMethod::from_str("Pam"), AuthMethod::Pam);
    assert_eq!(AuthMethod::from_lower("PAM"), AuthMethod::Disabled);
}

#[test]
fn test_validate_username() {
    assert!(validate_username("validuser").is_ok());
    assert!(validate_username("user_123").is_ok());
    assert!(validate_username("user-name").is_ok());
    assert!(validate_username("user.name").is_ok());
    assert!(validate_username("DOMAIN\\user").is_ok());
    assert!(validate_username("user@domain.com").is_ok());

    assert!(validate_username("").is_err());
    assert!(validate_username(&"a".repeat(33)).is_err());
    assert!(validate_username("invalid;user").is_err());
    assert!(validate_username("user$(cmd)").is_err());
}

#[test]
fn each_username_error_has_its_words() {
    assert_eq!(
        validate_username("").unwrap_err().message(),
        "Username cannot be empty"
    );
    assert_eq!(
        validate_username(&"a".repeat(33)).unwrap_err().message(),
        "Username too long (max 32 characters)"
    );
    assert_eq!(
        validate_username("a b").unwrap_err().message(),
        "Username contains invalid characters"
    );
    assert!(validate_username(&"a".repeat(32)).is_ok());
}

#[test]
fn username_length_counts_bytes() {
    // Two bytes each.
    assert!(validate_username(&"\u{e9}".repeat(16)).is_ok());
    assert!(matches!(
        validate_username(&"\u{e9}".repeat(17)),
        Err(AuthError::UsernameTooLong)
    ));
    // A letter outside ASCII is a letter, a dash outside ASCII is not.
    assert!(validate_username("\u{fc}ser").is_ok());
    assert!(validate_username("a\u{2013}b").is_err());
}

#[test]
fn test_rate_limiter_allows_initial() {
    let limiter = RateLimiter::new();
    let ip = PeerAddr::V4(0x0a00_0001);
    assert!(limiter.check(ip).is_none());
}

#[test]
fn test_rate_limiter_allows_after_few_failures() {
    let mut limiter = RateLimiter::new();
    let ip = PeerAddr::V4(0x0a00_0001);

    for _ in 0..3 {
        limiter.record_failure(ip);
    }
    assert!(limiter.check(ip).is_none());
}

#[test]
fn test_rate_limiter_blocks_after_threshold() {
    let mut limiter = RateLimiter::new();
    let ip = PeerAddr::V4(0x0a00_0001);

    for _ in 0..4 {
        limiter.record_failure(ip);
    }
    assert!(limiter.check(ip).is_some());
}

#[test]
fn test_rate_limiter_clears_on_success() {
    let mut limiter = RateLimiter::new();
    let ip = PeerAddr::V4(0x0a00_0001);

    for _ in 0..5 {
        limiter.record_failure(ip);
    }
    assert!(limiter.check(ip).is_some());

    limiter.clear(ip);
    assert!(limiter.check(ip).is_none());
}

#[test]
fn test_rate_limiter_independent_ips() {
    let mut limiter = RateLimiter::new();
    let ip1 = PeerAddr::V4(0x0a00_0001);
    let ip2 = PeerAddr::V4(0x0a00_0002);

    for _ in 0..5 {
        limiter.record_failure(ip1);
    }
    assert!(limiter.check(ip1).is_some());
    assert!(limiter.check(ip2).is_none());
}

#[test]
fn lockouts_grow_with_each_failure() {
    let mut limiter = RateLimiter::new();
    let ip = PeerAddr::V6(1);
    let now = 7 * SECOND;
    for _ in 0..3 {
        limiter.record_failure_at(ip, now);
    }
    assert_eq!(limiter.check_at(ip, now), None);
    limiter.record_failure_at(ip, now);
    assert_eq!(limiter.check_at(ip, now), Some(5 * SECOND));
    limiter.record_failure_at(ip, now);
    assert_eq!(limiter.check_at(ip, now + SECOND), Some(14 * SECOND));
    limiter.record_failure_at(ip, now);
    assert_eq!(limiter.check_at(ip, now), Some(60 * SECOND));
    limiter.record_failure_at(ip, now);
    assert_eq!(limiter.check_at(ip, now), Some(60 * SECOND));
    // The last instant of the lockout still belongs to it.
    assert_eq!(limiter.check_at(ip, now + 60 * SECOND), Some(0));
    assert_eq!(limiter.check_at(ip, now + 60 * SECOND + 1), None);
    // A clock that stands before the failure counts as no time passed.
    assert_eq!(limiter.check_at(ip, 0), Some(60 * SECOND));
}

#[test]
fn pruning_lifts_no_lockout_and_forgets_the_old() {
    let mut limiter = RateLimiter::new();
    let old = PeerAddr::V4(1);
    let fresh = PeerAddr::V4(2);
    for _ in 0..4 {
        limiter.record_failure_at(old, 0);
    }
    for _ in 0..4 {
        limiter.record_failure_at(fresh, 118 * SECOND);
    }
    limiter.prune_stale_at(120 * SECOND);
    assert_eq!(limiter.check_at(fresh, 120 * SECOND), Some(3 * SECOND));
    // The failures of the other peer count anew.
    limiter.record_failure_at(old, 120 * SECOND);
    assert_eq!(limiter.check_at(old, 120 * SECOND), None);
}

#[test]
fn failures_older_than_the_longest_lockout_are_forgotten() {
    let mut limiter = RateLimiter::new();
    let peer = PeerAddr::V4(7);
    for _ in 0..6 {
        limiter.record_failure_at(peer, 10 * SECOND);
    }
    assert_eq!(limiter.failures(peer), 6);
    // At the very end of the lockout they are still known.
    limiter.prune_stale_at(70 * SECOND);
    assert_eq!(limiter.failures(peer), 6);
    assert_eq!(limiter.check_at(peer, 70 * SECOND), Some(0));
    // Then they are not, and the next failure is the first.
    limiter.prune_stale_at(70 * SECOND + 1);
    assert_eq!(limiter.failures(peer), 0);
    limiter.record_failure_at(peer, 100 * SECOND);
    assert_eq!(limiter.failures(peer), 1);
    assert_eq!(limiter.check_at(peer, 100 * SECOND), None);
}

#[test]
fn six_failures_do_not_outlast_ninety_seconds() {
    let mut limiter = RateLimiter::new();
    let peer = PeerAddr::V6(3);
    for _ in 0..6 {
        limiter.record_failure_at(peer, 0);
    }
    limiter.prune_stale_at(90 * SECOND);
    limiter.record_failure_at(peer, 90 * SECOND);
    assert_eq!(limiter.failures(peer), 1);
    assert_eq!(limiter.check_at(peer, 90 * SECOND), None);
}

#[test]
fn other_peers_keep_their_clock() {
    let mut limiter = RateLimiter::new();
    for _ in 0..4 {
        limiter.record_failure_at(PeerAddr::V4(1), SECOND);
    }
    limiter.record_failure_at(PeerAddr::V4(2), SECOND);
    limiter.clear(PeerAddr::V4(2));
    limiter.prune_stale_at(2 * SECOND);
    assert_eq!(limiter.check_at(PeerAddr::V4(1), 2 * SECOND), Some(4 * SECOND));
    assert_eq!(limiter.failures(PeerAddr::V4(2)), 0);
}

#[test]
fn same_number_in_another_family_is_another_peer() {
    let mut limiter = RateLimiter::new();
    for _ in 0..4 {
        limiter.record_failure_at(PeerAddr::V4(9), 0);
    }
    assert!(limiter.check_at(PeerAddr::V4(9), 0).is_some());
    assert!(limiter.check_at(PeerAddr::V6(9), 0).is_none());
}

#[test]
fn test_session_token_creation() {
    let token = SessionToken::new("testuser".to_string());
    assert_eq!(token.username(), "testuser");
    assert!(!token.token().is_empty());
    assert!(!token.is_expired(std::time::Duration::from_secs(3600)));
}

#[test]
fn tokens_are_random_identifiers() {
    let a = SessionToken::new("u".to_string());
    let b = SessionToken::new("u".to_string());
    assert_ne!(a.token(), b.token());
    assert_eq!(a.token().len(), 36);
    let bytes = a.token().as_bytes();
    for i in [8, 13, 18, 23] {
        assert_eq!(bytes[i], b'-');
    }
    assert_eq!(bytes[14], b'4');
    assert!(b"89ab".contains(&bytes[19]));
    assert_eq!(a.clone().token(), a.token());
}

#[test]
fn a_token_ages_from_its_creation() {
    let before = SystemTime::now();
    let token = SessionToken::new("u".to_string());
    let after = SystemTime::now();
    let hour = Duration::from_secs(3600);
    assert!(!token.is_expired_at(after, hour));
    assert!(!token.is_expired_at(before + hour, hour));
    assert!(token.is_expired_at(after + hour + Duration::from_nanos(1), hour));
    // From the future, since the clock was set back.
    assert!(token.is_expired_at(before - Duration::from_secs(1), hour));
    let copy = token.clone();
    assert!(!copy.is_expired_at(before + hour, hour));
    assert!(copy.is_expired_at(after + hour + Duration::from_nanos(1), hour));
}

#[test]
fn age_decides_over_a_token() {
    assert!(!past(Some(5), 5));
    assert!(past(Some(6), 5));
    assert!(past(None, u128::MAX));
    let token = SessionToken::new("u".to_string());
    let mut expired = false;
    for _ in 0..2_000_000 {
        if token.is_expired(std::time::Duration::from_nanos(1)) {
            expired = true;
            break;
        }
    }
    assert!(expired);
}

#[test]
fn test_none_auth() {
    let auth = UserAuthenticator::new(AuthMethod::Disabled, None);
    assert!(auth.authenticate("anyuser", "anypass").unwrap());
}

#[test]
fn nobody_enters_without_the_modules() {
    let auth = UserAuthenticator::new(AuthMethod::Pam, None);
    assert!(!auth.authenticate("anyuser", "anypass").unwrap());
    let request = auth.pam_request("anyuser", "anypass").unwrap();
    assert_eq!(request.service_name, "lamco-rdp-server");
    assert_eq!(request.username, "anyuser");
    assert_eq!(request.password, "anypass");
    let named = UserAuthenticator::new(AuthMethod::Pam, Some("login".to_string()));
    assert_eq!(named.pam_request("u", "p").unwrap().service_name, "login");
    let open = UserAuthenticator::new(AuthMethod::Disabled, None);
    assert!(open.pam_request("u", "p").is_none());
    assert!(named.authenticate_pam(&PamOutcome::Accepted).unwrap());
    assert!(!named.authenticate_pam(&PamOutcome::Rejected).unwrap());
    assert!(!named.authenticate_pam(&PamOutcome::AccountInvalid).unwrap());
    assert!(named.authenticate_pam(&PamOutcome::StartFailed("down".to_string())).is_err());
    assert!(open.authenticate_pam(&PamOutcome::Rejected).unwrap());
}

#[test]
fn verdicts_follow_the_modules() {
    assert!(pam_verdict(&PamOutcome::Accepted).unwrap());
    assert!(!pam_verdict(&PamOutcome::Rejected).unwrap());
    assert!(!pam_verdict(&PamOutcome::AccountInvalid).unwrap());
    let error = pam_verdict(&PamOutcome::StartFailed("no such service".to_string())).unwrap_err();
    assert_eq!(
        error.message(),
        "Failed to start PAM transaction: no such service"
    );
}

#[test]
fn test_pam_validator_creation() {
    let mut validator = PamValidator::new(None);
    validator.set_peer_ip(PeerAddr::V4(0x7f00_0001));
    validator.prune_stale_entries();
}

#[test]
fn validator_locks_the_connecting_peer_out() {
    let mut validator = PamValidator::new(None);
    // Without a peer nothing is counted.
    for _ in 0..5 {
        validator.attempt_finished(false);
    }
    assert!(validator.lockout().is_none());
    validator.set_peer_ip(PeerAddr::V4(1));
    assert!(validator.lockout().is_none());
    for _ in 0..4 {
        validator.attempt_finished(false);
    }
    assert!(validator.lockout().is_some());
    assert_eq!(validator.failures(), 4);
    validator.set_peer_ip(PeerAddr::V4(2));
    assert!(validator.lockout().is_none());
    assert_eq!(validator.failures(), 0);
    validator.set_peer_ip(PeerAddr::V4(1));
    validator.attempt_finished(true);
    assert!(validator.lockout().is_none());
    assert_eq!(validator.pam_request("u", "p").service_name, "lamco-rdp-server");
}
