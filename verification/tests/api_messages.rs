use meshtouch_relay::api::{
    ack_message, fetch_messages, store_message, store_message_done, store_message_reply,
    store_receipt, ApiError,
    NewMessage, StoreMessageRequest, StoreReply, DEFAULT_TTL_HOURS, STATUS_NOT_FOUND,
    STATUS_PAYLOAD_TOO_LARGE,
};
use meshtouch_relay::clock::{Timestamp, MAX_UTC_SECS};
use meshtouch_relay::config::RelayConfig;
use meshtouch_relay::models::{PendingMessage, User};

fn request(ttl: Option<i64>) -> StoreMessageRequest {
    StoreMessageRequest {
        recipient_id: "bob".to_string(),
        sender_id: "alice".to_string(),
        ciphertext: "c2VjcmV0".to_string(),
        sender_ratchet_key: "abcdef".to_string(),
        msg_num: 7,
        ttl_hours: ttl,
    }
}

fn bob() -> User {
    User {
        recipient_id: "bob".to_string(),
        public_key: "c".repeat(32),
        fingerprint: "FP".to_string(),
        alias: None,
        registered_at: "2023-11-14T22:13:20+00:00".to_string(),
    }
}

fn at(secs: i64, nanos: u32) -> Timestamp {
    Timestamp::new(secs, nanos).unwrap()
}

#[test]
fn message_for_unknown_recipient_is_not_found() {
    let r = store_message(&RelayConfig::default(), request(None), Ok(None));
    assert_eq!(
        r,
        Err(ApiError { status: STATUS_NOT_FOUND, message: "Recipient not found: bob".to_string() })
    );
}

#[test]
fn failed_lookup_is_internal_error() {
    let r = store_message(&RelayConfig::default(), request(None), Err("database is locked".to_string()));
    assert_eq!(
        r,
        Err(ApiError { status: 500, message: "database is locked".to_string() })
    );
}

#[test]
fn message_for_known_recipient_is_stored_unchanged() {
    let msg = store_message(&RelayConfig::default(), request(Some(5)), Ok(Some(bob()))).unwrap();
    assert_eq!(msg.recipient_id, "bob");
    assert_eq!(msg.sender_id, "alice");
    assert_eq!(msg.ciphertext, "c2VjcmV0");
    assert_eq!(msg.sender_ratchet_key, "abcdef");
    assert_eq!(msg.msg_num, 7);
    assert_eq!(msg.ttl_hours, 5);
    assert_eq!(msg.message_id.len(), 36);
    assert_eq!(msg.message_id.chars().nth(14), Some('4'));
}

#[test]
fn default_time_to_live_is_72_hours() {
    let msg = store_message(&RelayConfig::default(), request(None), Ok(Some(bob()))).unwrap();
    assert_eq!(msg.ttl_hours, 72);
    assert_eq!(DEFAULT_TTL_HOURS, 72);
}

#[test]
fn each_stored_message_draws_a_new_id() {
    let a = store_message(&RelayConfig::default(), request(None), Ok(Some(bob()))).unwrap();
    let b = store_message(&RelayConfig::default(), request(None), Ok(Some(bob()))).unwrap();
    assert_ne!(a.message_id, b.message_id);
}

#[test]
fn receipt_at_epoch_expires_three_days_later() {
    let r = store_receipt("m1".to_string(), &at(0, 0), 72).unwrap();
    assert_eq!(r.message_id, "m1");
    assert_eq!(r.stored_at, "1970-01-01T00:00:00+00:00");
    assert_eq!(r.expires_at, "1970-01-04T00:00:00+00:00");
}

#[test]
fn receipt_keeps_subsecond_part() {
    let r = store_receipt("m2".to_string(), &at(1_700_000_000, 500_000_000), 1).unwrap();
    assert_eq!(r.stored_at, "2023-11-14T22:13:20.500+00:00");
    assert_eq!(r.expires_at, "2023-11-14T23:13:20.500+00:00");
}

#[test]
fn receipt_with_negative_time_to_live() {
    let r = store_receipt("m3".to_string(), &at(1_700_000_000, 0), -24).unwrap();
    assert_eq!(r.expires_at, "2023-11-13T22:13:20+00:00");
}

#[test]
fn receipt_with_zero_time_to_live() {
    let r = store_receipt("m4".to_string(), &at(86_400, 0), 0).unwrap();
    assert_eq!(r.stored_at, r.expires_at);
    assert_eq!(r.stored_at, "1970-01-02T00:00:00+00:00");
}

#[test]
fn receipt_beyond_representable_time_is_none() {
    assert_eq!(store_receipt("m5".to_string(), &at(0, 0), i64::MAX), None);
    assert_eq!(store_receipt("m5".to_string(), &at(0, 0), 3_000_000_000), None);
}

fn new_message(ttl: i64) -> NewMessage {
    NewMessage {
        message_id: "m-1".to_string(),
        recipient_id: "bob".to_string(),
        sender_id: "alice".to_string(),
        ciphertext: "xyz".to_string(),
        sender_ratchet_key: "rk".to_string(),
        msg_num: 1,
        ttl_hours: ttl,
    }
}

#[test]
fn stored_message_answers_its_receipt() {
    let r = store_message_done(new_message(72), Ok(()), &at(0, 0));
    match r {
        StoreReply::Stored(resp) => {
            assert_eq!(resp.message_id, "m-1");
            assert_eq!(resp.stored_at, "1970-01-01T00:00:00+00:00");
            assert_eq!(resp.expires_at, "1970-01-04T00:00:00+00:00");
        }
        other => panic!("unexpected reply {:?}", other),
    }
}

#[test]
fn failed_store_is_internal_error() {
    let r = store_message_done(new_message(72), Err("disk I/O error".to_string()), &at(0, 0));
    assert_eq!(
        r,
        StoreReply::Failed(ApiError { status: 500, message: "disk I/O error".to_string() })
    );
}

#[test]
fn stored_message_with_unwritable_expiry() {
    let r = store_message_done(new_message(i64::MAX), Ok(()), &at(0, 0));
    assert_eq!(r, StoreReply::ExpiryOutOfRange);
}

fn pending(id: &str) -> PendingMessage {
    PendingMessage {
        message_id: id.to_string(),
        sender_id: "alice".to_string(),
        ciphertext: "ct".to_string(),
        sender_ratchet_key: "rk".to_string(),
        msg_num: 3,
        stored_at: "2024-01-01 00:00:00".to_string(),
        expires_at: "2024-01-04 00:00:00".to_string(),
        delivered: false,
    }
}

#[test]
fn fetch_lists_pending_messages_with_count() {
    let resp = fetch_messages("bob".to_string(), Ok(vec![pending("a"), pending("b")])).unwrap();
    assert_eq!(resp.recipient_id, "bob");
    assert_eq!(resp.count, 2);
    assert_eq!(resp.messages, vec![pending("a"), pending("b")]);
}

#[test]
fn fetch_with_nothing_pending() {
    let resp = fetch_messages("bob".to_string(), Ok(vec![])).unwrap();
    assert_eq!(resp.count, 0);
    assert!(resp.messages.is_empty());
}

#[test]
fn failed_fetch_is_internal_error() {
    let r = fetch_messages("bob".to_string(), Err("no such table: messages".to_string()));
    assert_eq!(
        r,
        Err(ApiError { status: 500, message: "no such table: messages".to_string() })
    );
}

#[test]
fn acknowledged_message_answers_no_content() {
    assert_eq!(ack_message(Ok(())), Ok(204));
}

#[test]
fn failed_acknowledgement_answers_the_error() {
    assert_eq!(ack_message(Err("database is locked".to_string())), Err("database is locked".to_string()));
}

#[test]
fn stored_message_answered_now() {
    let before = chrono::Utc::now();
    let r = store_message_reply(new_message(72), Ok(()));
    let after = chrono::Utc::now();
    match r {
        StoreReply::Stored(resp) => {
            assert_eq!(resp.message_id, "m-1");
            let stored = chrono::DateTime::parse_from_rfc3339(&resp.stored_at).unwrap();
            let expires = chrono::DateTime::parse_from_rfc3339(&resp.expires_at).unwrap();
            assert!(stored >= before && stored <= after);
            assert_eq!(expires - stored, chrono::TimeDelta::hours(72));
        }
        other => panic!("unexpected reply {:?}", other),
    }
}

#[test]
fn failed_store_answered_now_is_internal_error() {
    let r = store_message_reply(new_message(72), Err("disk full".to_string()));
    assert_eq!(r, StoreReply::Failed(ApiError { status: 500, message: "disk full".to_string() }));
}

#[test]
fn ciphertext_of_64_kib_is_accepted() {
    let mut req = request(None);
    req.ciphertext = "A".repeat(65_536);
    let msg = store_message(&RelayConfig::default(), req, Ok(Some(bob()))).unwrap();
    assert_eq!(msg.ciphertext.len(), 65_536);
}

#[test]
fn ciphertext_over_the_limit_is_too_large() {
    let mut req = request(None);
    req.ciphertext = "A".repeat(65_537);
    let r = store_message(&RelayConfig::default(), req, Ok(Some(bob())));
    assert_eq!(
        r,
        Err(ApiError { status: STATUS_PAYLOAD_TOO_LARGE, message: "Ciphertext too large".to_string() })
    );
    assert_eq!(STATUS_PAYLOAD_TOO_LARGE, 413);
}

#[test]
fn ciphertext_limit_counts_bytes_and_follows_config() {
    let mut config = RelayConfig::default();
    config.max_message_size = 4;
    let mut req = request(None);
    req.ciphertext = "éé".to_string(); // 4 bytes
    assert!(store_message(&config, req, Ok(Some(bob()))).is_ok());
    let mut req = request(None);
    req.ciphertext = "ééa".to_string(); // 5 bytes
    assert_eq!(store_message(&config, req, Ok(Some(bob()))).unwrap_err().status, 413);
}

#[test]
fn unknown_recipient_is_reported_before_size() {
    let mut req = request(None);
    req.ciphertext = "A".repeat(70_000);
    let r = store_message(&RelayConfig::default(), req, Ok(None));
    assert_eq!(r.unwrap_err().status, STATUS_NOT_FOUND);
}

#[test]
fn receipt_at_the_last_representable_second() {
    let r = store_receipt("m6".to_string(), &at(MAX_UTC_SECS - 3600, 0), 1).unwrap();
    assert_eq!(r.expires_at, "+262142-12-31T23:59:59+00:00");
    assert_eq!(store_receipt("m6".to_string(), &at(MAX_UTC_SECS - 3599, 0), 1), None);
}

#[test]
fn stored_message_without_future_expiry_always_gets_a_receipt() {
    for ttl in [0, -1, -72] {
        match store_message_reply(new_message(ttl), Ok(())) {
            StoreReply::Stored(resp) => {
                let stored = chrono::DateTime::parse_from_rfc3339(&resp.stored_at).unwrap();
                let expires = chrono::DateTime::parse_from_rfc3339(&resp.expires_at).unwrap();
                assert_eq!(expires - stored, chrono::TimeDelta::hours(ttl));
            }
            other => panic!("unexpected reply {:?}", other),
        }
    }
}
