use shuttlecraft::errors::ServiceError;
use shuttlecraft::pow::{draw_salt, meets_difficulty, send_pow_config, verify_pow, ChallengeStore, CHALLENGE_TTL};

fn salted(difficulty: u32, salt: &str) -> ChallengeStore {
    let mut store = ChallengeStore::new(difficulty);
    store.issue_with_salt(1, salt.to_string(), 1000);
    store
}

/// A nonce whose digest under `salt` meets one leading zero bit, and, where
/// `other` is given, does not under `other`.
fn find_nonce(salt: &str, other: Option<&str>) -> u64 {
    for n in 0..64u64 {
        let mut a = salted(1, salt);
        if verify_pow(&mut a, 1, n, 1000).is_ok() {
            match other {
                None => return n,
                Some(o) => {
                    let mut b = salted(1, o);
                    if verify_pow(&mut b, 1, n, 1000) == Err(ServiceError::AuthorizationRequired) {
                        return n;
                    }
                }
            }
        }
    }
    panic!("no nonce found");
}

#[test]
fn difficulty_counts_leading_zero_bits() {
    let d = vec![0u8, 15, 200];
    assert!(meets_difficulty(&d, 0));
    assert!(meets_difficulty(&d, 8));
    assert!(meets_difficulty(&d, 12));
    assert!(!meets_difficulty(&d, 13));
    assert!(!meets_difficulty(&d, 25));
    assert!(!meets_difficulty(&vec![1u8], 8));
    assert!(meets_difficulty(&vec![1u8], 7));
    assert!(!meets_difficulty(&vec![], 1));
}

#[test]
fn digest_is_redeemed_once() {
    let mut store = ChallengeStore::new(4);
    let cfg = store.issue_with_salt(9, "abcdefgh".to_string(), 10);
    assert_eq!(cfg.difficulty, 4);
    assert_eq!(cfg.salt, "abcdefgh");
    assert_eq!(cfg.algorithm, "argon2i");
    assert_eq!(store.verify_digest(9, &vec![0x0f, 0xff], 20), Ok(()));
    assert_eq!(store.verify_digest(9, &vec![0x0f, 0xff], 21), Err(ServiceError::AuthorizationRequired));
}

#[test]
fn digest_short_of_target_is_refused_and_retry_allowed() {
    let mut store = ChallengeStore::new(4);
    store.issue_with_salt(9, "abcdefgh".to_string(), 10);
    assert_eq!(store.verify_digest(9, &vec![0x10], 20), Err(ServiceError::AuthorizationRequired));
    assert_eq!(store.verify_digest(9, &vec![0x08], 20), Ok(()));
}

#[test]
fn unknown_session_is_refused() {
    let mut store = ChallengeStore::new(0);
    assert_eq!(store.verify_digest(3, &vec![0], 0), Err(ServiceError::AuthorizationRequired));
    assert_eq!(verify_pow(&mut store, 3, 0, 0), Err(ServiceError::AuthorizationRequired));
}

#[test]
fn expired_challenge_is_refused() {
    let mut store = ChallengeStore::new(0);
    store.issue_with_salt(2, "abcdefgh".to_string(), 100);
    assert_eq!(
        verify_pow(&mut store, 2, 5, 100 + CHALLENGE_TTL + 1),
        Err(ServiceError::AuthorizationRequired)
    );
    assert_eq!(verify_pow(&mut store, 2, 5, 100 + CHALLENGE_TTL), Ok(()));
}

#[test]
fn fresh_config_has_uuid_salt() {
    let mut store = ChallengeStore::new(3);
    let a = send_pow_config(&mut store, 1, 0).unwrap();
    let b = send_pow_config(&mut store, 1, 0).unwrap();
    assert_eq!(a.salt.len(), 36);
    assert_ne!(a.salt, b.salt);
    assert_eq!(a.difficulty, 3);
}

#[test]
fn solving_nonce_is_accepted_exactly_once() {
    let n = find_nonce("saltsaltsalt", None);
    let mut store = salted(1, "saltsaltsalt");
    assert_eq!(verify_pow(&mut store, 1, n, 1000), Ok(()));
    assert_eq!(verify_pow(&mut store, 1, n, 1000), Err(ServiceError::AuthorizationRequired));
}

#[test]
fn non_solving_nonces_are_refused() {
    let mut store = ChallengeStore::new(200);
    store.issue_with_salt(1, "saltsaltsalt".to_string(), 0);
    for n in 0..4u64 {
        assert_eq!(verify_pow(&mut store, 1, n, 0), Err(ServiceError::AuthorizationRequired));
    }
}

#[test]
fn new_challenge_invalidates_old_solution() {
    let n = find_nonce("firstsalt", Some("secondsalt"));
    let mut store = salted(1, "firstsalt");
    store.issue_with_salt(1, "secondsalt".to_string(), 1000);
    assert_eq!(verify_pow(&mut store, 1, n, 1000), Err(ServiceError::AuthorizationRequired));
}

#[test]
fn drawn_salts_differ() {
    let a = draw_salt().unwrap();
    let b = draw_salt().unwrap();
    assert_eq!(a.len(), 36);
    assert_ne!(a, b);
}

#[test]
fn short_challenge_salt_is_internal_error() {
    let mut store = salted(0, "short");
    assert_eq!(verify_pow(&mut store, 1, 0, 1000), Err(ServiceError::InternalServerError));
}
