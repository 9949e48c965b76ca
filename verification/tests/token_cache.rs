use credinform_cli::credinform::token_cache::{timestamp_from_clock, CachedToken, ClockReading, Timestamp, TokenCache, TOKEN_LIFETIME_HOURS};

fn at(secs: i64) -> Timestamp {
    Timestamp { secs, nanos: 0 }
}

const HOUR: i64 = 3600;

fn served(cache: &TokenCache, user: &str, now: Timestamp) -> Option<String> {
    cache.get_token_at(user, now).map(|t| t.to_string())
}

#[test]
fn validity_ends_just_before_twenty_three_hours() {
    assert_eq!(TOKEN_LIFETIME_HOURS, 23);
    let t = CachedToken::new_at("tok".to_string(), "user".to_string(), at(1_000_000));
    assert!(t.is_valid_at(at(1_000_000)));
    assert!(t.is_valid_at(at(1_000_000 + 23 * HOUR - 1)));
    assert!(t.is_valid_at(Timestamp { secs: 1_000_000 + 23 * HOUR - 1, nanos: 999_999_999 }));
    assert!(!t.is_valid_at(at(1_000_000 + 23 * HOUR)));
    assert!(!t.is_valid_at(at(1_000_000 + 100 * HOUR)));
    // a creation time in the future still counts as valid
    assert!(t.is_valid_at(at(0)));
}

#[test]
fn validity_counts_subsecond_parts() {
    let t = CachedToken::new_at(
        "tok".to_string(),
        "user".to_string(),
        Timestamp { secs: 10, nanos: 500_000_000 },
    );
    assert!(t.is_valid_at(Timestamp { secs: 10 + 23 * HOUR, nanos: 499_999_999 }));
    assert!(!t.is_valid_at(Timestamp { secs: 10 + 23 * HOUR, nanos: 500_000_000 }));
}

#[test]
fn fresh_token_is_valid_by_the_clock() {
    let t = CachedToken::new("tok".to_string(), "user".to_string());
    assert!(t.is_valid());
    assert_eq!(t.to_access_token().to_string(), "tok");
    assert_eq!(t.token, "tok");
    assert_eq!(t.username, "user");
}

#[test]
fn added_token_is_served_until_it_expires() {
    let mut cache = TokenCache::new();
    let returned = cache.add_token_at("t1".to_string(), "alice".to_string(), at(0));
    assert_eq!(returned.to_string(), "t1");
    assert_eq!(served(&cache, "alice", at(0)), Some("t1".to_string()));
    assert_eq!(served(&cache, "alice", at(22 * HOUR)), Some("t1".to_string()));
    assert_eq!(served(&cache, "alice", at(23 * HOUR)), None);
    assert_eq!(served(&cache, "bob", at(0)), None);
}

#[test]
fn adding_replaces_a_users_older_tokens_only() {
    let mut cache = TokenCache::new();
    cache.add_token_at("a1".to_string(), "alice".to_string(), at(0));
    cache.add_token_at("b1".to_string(), "bob".to_string(), at(10));
    cache.add_token_at("a2".to_string(), "alice".to_string(), at(20));
    let entries = cache.clone().into_tokens();
    assert_eq!(entries.len(), 2);
    assert_eq!(entries[0].token, "b1");
    assert_eq!(entries[1].token, "a2");
    assert_eq!(entries[1].created_at, at(20));
    assert_eq!(served(&cache, "alice", at(30)), Some("a2".to_string()));
    assert_eq!(served(&cache, "bob", at(30)), Some("b1".to_string()));
}

#[test]
fn first_valid_entry_of_a_loaded_cache_is_served() {
    let cache = TokenCache::from_tokens(vec![
        CachedToken::new_at("old".to_string(), "alice".to_string(), at(0)),
        CachedToken::new_at("newer".to_string(), "alice".to_string(), at(30 * HOUR)),
        CachedToken::new_at("newest".to_string(), "alice".to_string(), at(31 * HOUR)),
    ]);
    assert_eq!(served(&cache, "alice", at(1)), Some("old".to_string()));
    assert_eq!(served(&cache, "alice", at(32 * HOUR)), Some("newer".to_string()));
}

#[test]
fn clearing_a_user_forgets_only_that_user() {
    let mut cache = TokenCache::from_tokens(vec![
        CachedToken::new_at("a1".to_string(), "alice".to_string(), at(0)),
        CachedToken::new_at("b1".to_string(), "bob".to_string(), at(0)),
        CachedToken::new_at("a2".to_string(), "alice".to_string(), at(5)),
    ]);
    cache.clear_for_user("alice");
    assert_eq!(served(&cache, "alice", at(6)), None);
    assert_eq!(served(&cache, "bob", at(6)), Some("b1".to_string()));
    assert_eq!(cache.into_tokens().len(), 1);
}

#[test]
fn clearing_invalid_tokens_keeps_what_is_served() {
    let mut cache = TokenCache::from_tokens(vec![
        CachedToken::new_at("a1".to_string(), "alice".to_string(), at(0)),
        CachedToken::new_at("b1".to_string(), "bob".to_string(), at(20 * HOUR)),
        CachedToken::new_at("c1".to_string(), "carol".to_string(), at(HOUR / 2)),
    ]);
    let now = at(24 * HOUR);
    let before: Vec<_> = ["alice", "bob", "carol"].iter().map(|u| served(&cache, u, now)).collect();
    cache.clear_invalid_tokens_at(now);
    let after: Vec<_> = ["alice", "bob", "carol"].iter().map(|u| served(&cache, u, now)).collect();
    assert_eq!(before, after);
    let left = cache.into_tokens();
    assert_eq!(left.len(), 1);
    assert_eq!(left[0].token, "b1");
}

#[test]
fn clock_based_operations() {
    let mut cache = TokenCache::default();
    assert!(cache.get_token("alice").is_none());
    let t = cache.add_token("tok".to_string(), "alice".to_string());
    assert_eq!(t.to_string(), "tok");
    assert_eq!(cache.get_token("alice").map(|t| t.to_string()), Some("tok".to_string()));
    cache.clear_invalid_tokens();
    assert_eq!(cache.get_token("alice").map(|t| t.to_string()), Some("tok".to_string()));
}

#[test]
fn clock_readings_on_both_sides_of_the_epoch() {
    let after = ClockReading { after_epoch: true, secs: 1_700_000_000, nanos: 250 };
    assert_eq!(timestamp_from_clock(after), Timestamp { secs: 1_700_000_000, nanos: 250 });
    let before = ClockReading { after_epoch: false, secs: 5, nanos: 250_000_000 };
    assert_eq!(timestamp_from_clock(before), Timestamp { secs: -6, nanos: 750_000_000 });
    let exact = ClockReading { after_epoch: false, secs: 5, nanos: 0 };
    assert_eq!(timestamp_from_clock(exact), Timestamp { secs: -5, nanos: 0 });
    let far = ClockReading { after_epoch: true, secs: u64::MAX, nanos: 1 };
    assert_eq!(timestamp_from_clock(far), Timestamp { secs: i64::MAX, nanos: 999_999_999 });
    let far_back = ClockReading { after_epoch: false, secs: u64::MAX, nanos: 1 };
    assert_eq!(timestamp_from_clock(far_back), Timestamp { secs: i64::MIN, nanos: 0 });
}
