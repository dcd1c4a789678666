use chat_relay::guard::{authorize_join, GuardError, RoomFacts};
use chat_relay::ratelimit::{
    rate_expire_decision, rate_key, rate_read_decision, RateExpireStep, RateLimiter,
    RateReadStep, CONNECTION_EVENT_CEILING, CONNECTION_WINDOW_SECONDS, ROOM_SEND_CEILING,
    ROOM_SEND_WINDOW_SECONDS,
};

#[test]
fn five_pass_the_sixth_is_refused_and_the_window_resets() {
    let mut limiter = RateLimiter::new();
    for _ in 0..5 {
        assert!(limiter.allow(1, "room-9", 5, 5, 0));
    }
    assert!(!limiter.allow(1, "room-9", 5, 5, 0));
    // Still inside the window: refused again.
    assert!(!limiter.allow(1, "room-9", 5, 5, 4));
    // The window has elapsed: a fresh one starts.
    assert!(limiter.allow(1, "room-9", 5, 5, 5));
}

#[test]
fn keys_count_independently() {
    let mut limiter = RateLimiter::new();
    assert!(limiter.allow(1, "a", 1, 10, 0));
    assert!(!limiter.allow(1, "a", 1, 10, 0));
    assert!(limiter.allow(1, "b", 1, 10, 0));
    assert!(limiter.allow(2, "a", 1, 10, 0));
}

#[test]
fn refusal_does_not_raise_the_counter() {
    let mut limiter = RateLimiter::new();
    assert!(limiter.allow(3, "c", 2, 100, 0));
    assert!(limiter.allow(3, "c", 2, 100, 1));
    for now in 2..50 {
        assert!(!limiter.allow(3, "c", 2, 100, now));
    }
    // After the window the key starts over; a growing lockout would
    // refuse here.
    assert!(limiter.allow(3, "c", 2, 100, 100));
}

#[test]
fn read_decision_follows_the_counter() {
    assert_eq!(rate_read_decision(&None, 60), RateReadStep::FirstUse);
    assert_eq!(
        rate_read_decision(&Some(String::from("59")), 60),
        RateReadStep::AllowAfterIncrement
    );
    assert_eq!(rate_read_decision(&Some(String::from("60")), 60), RateReadStep::Reject);
    assert_eq!(rate_read_decision(&Some(String::from("999")), 60), RateReadStep::Reject);
    // An unreadable counter fails closed.
    assert_eq!(rate_read_decision(&Some(String::from("abc")), 60), RateReadStep::Reject);
    assert_eq!(rate_read_decision(&Some(String::from("")), 60), RateReadStep::Reject);
}

#[test]
fn failed_expiry_fails_closed() {
    assert_eq!(rate_expire_decision(true), RateExpireStep::Allow);
    assert_eq!(rate_expire_decision(false), RateExpireStep::DeleteKeyAndReject);
}

#[test]
fn rate_keys_name_actor_and_resource() {
    assert_eq!(rate_key(7, "conn-1"), "ratelimit:7:conn-1");
    assert_eq!(rate_key(12, "42"), "ratelimit:12:42");
}

#[test]
fn the_two_call_sites_use_the_documented_limits() {
    assert_eq!(CONNECTION_EVENT_CEILING, 60);
    assert_eq!(CONNECTION_WINDOW_SECONDS, 60);
    assert_eq!(ROOM_SEND_CEILING, 5);
    assert_eq!(ROOM_SEND_WINDOW_SECONDS, 5);
}

#[test]
fn guard_checks_in_order() {
    let ok = RoomFacts { room_exists: true, banned: false, participant: true };
    assert!(authorize_join(&ok).is_ok());
    let missing = RoomFacts { room_exists: false, banned: false, participant: true };
    assert_eq!(authorize_join(&missing), Err(GuardError::RoomMissing));
    let banned = RoomFacts { room_exists: true, banned: true, participant: true };
    assert_eq!(authorize_join(&banned), Err(GuardError::Banned));
    let outsider = RoomFacts { room_exists: true, banned: false, participant: false };
    assert_eq!(authorize_join(&outsider), Err(GuardError::NotParticipant));
}
