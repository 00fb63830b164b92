//! The relay's HTTP API, as decisions.
//!
//! Each endpoint validates its request, names the storage action to perform,
//! and turns the storage outcome into the answer. The storage itself (the
//! relay's database) is carried out by the caller between the two steps: the
//! first step of an endpoint returns the record to write or an error answer,
//! the second takes what the storage reported.

use vstd::prelude::*;
use vstd::string::*;
use vstd::utf8::encode_utf8;

use crate::clock::{rfc3339_text, utc_secs_in_range, Timestamp, MIN_UTC_SECS, SECS_PER_HOUR};
use crate::config::{duration_whole_secs, instant_elapsed, RelayConfig};
use crate::ids::{fresh_uuid_hyphenated, is_hyphenated_uuid_v4};
use crate::models::{PendingMessage, User};

verus! {

/// HTTP 201 Created.
pub const STATUS_CREATED: u16 = 201;

/// HTTP 204 No Content.
pub const STATUS_NO_CONTENT: u16 = 204;

/// HTTP 400 Bad Request.
pub const STATUS_BAD_REQUEST: u16 = 400;

/// HTTP 401 Unauthorized.
pub const STATUS_UNAUTHORIZED: u16 = 401;

/// HTTP 404 Not Found.
pub const STATUS_NOT_FOUND: u16 = 404;

/// HTTP 413 Payload Too Large.
pub const STATUS_PAYLOAD_TOO_LARGE: u16 = 413;

/// HTTP 500 Internal Server Error.
pub const STATUS_INTERNAL_SERVER_ERROR: u16 = 500;

/// The fewest bytes a public key may have.
pub const MIN_PUBLIC_KEY_BYTES: usize = 32;

/// How long a message is kept when the sender names no time to live.
pub const DEFAULT_TTL_HOURS: i64 = 72;

/// An error answer: an HTTP status and a message for the client.
#[derive(Debug, PartialEq)]
pub struct ApiError {
    pub status: u16,
    pub message: String,
}

// ── Register Public Key ──────────────────────────────────────

#[derive(Debug, PartialEq)]
pub struct RegisterRequest {
    /// Hex-encoded public key.
    pub public_key: String,
    /// Key fingerprint for display.
    pub fingerprint: String,
    /// Human-readable name.
    pub alias: Option<String>,
}

#[derive(Debug, PartialEq)]
pub struct RegisterResponse {
    pub recipient_id: String,
    pub fingerprint: String,
}

/// A user record to be written to storage.
#[derive(Debug, PartialEq)]
pub struct NewUser {
    pub recipient_id: String,
    pub public_key: String,
    pub fingerprint: String,
    pub alias: Option<String>,
}

/// The length in bytes of a string's UTF-8 encoding, as `str::len` reports
/// it.
pub open spec fn byte_len(text: Seq<char>) -> usize {
    encode_utf8(text).len() as usize
}

/// A hexadecimal digit, in either case.
pub open spec fn is_hex_digit(c: char) -> bool {
    ('0' <= c && c <= '9') || ('a' <= c && c <= 'f') || ('A' <= c && c <= 'F')
}

/// Text made of hexadecimal digits only.
pub open spec fn is_hex_text(text: Seq<char>) -> bool {
    forall|i: int| 0 <= i < text.len() ==> is_hex_digit(#[trigger] text[i])
}

/// A public key is accepted when it is hex-encoded and has at least
/// `MIN_PUBLIC_KEY_BYTES` bytes.
pub open spec fn public_key_acceptable(key: Seq<char>) -> bool {
    &&& byte_len(key) >= MIN_PUBLIC_KEY_BYTES
    &&& is_hex_text(key)
}

/// Every key of at least 32 bytes whose characters are all hexadecimal
/// digits (`0`-`9`, `a`-`f`, `A`-`F`) is accepted, however long; no other key
/// is.
pub proof fn law_long_hex_keys_are_accepted(key: Seq<char>)
    ensures
        public_key_acceptable(key) <==> (encode_utf8(key).len() as usize >= 32 && forall|i: int|
            0 <= i < key.len() ==> {
                let c = #[trigger] key[i];
                ('0' <= c && c <= '9') || ('a' <= c && c <= 'f') || ('A' <= c && c <= 'F')
            }),
{
}

/// Whether every character of `text` is a hexadecimal digit.
pub fn is_hex_encoded(text: &str) -> (r: bool)
    ensures
        r == is_hex_text(text@),
{
    broadcast use vstd::string::group_string_axioms;

    for c in it: text.chars()
        invariant
            it.seq() == text@,
            forall|j: int| 0 <= j < it.index() ==> is_hex_digit(#[trigger] text@[j]),
    {
        let hex = ('0' <= c && c <= '9') || ('a' <= c && c <= 'f') || ('A' <= c && c <= 'F');
        if !hex {
            assert(!is_hex_digit(text@[it.index() as int]));
            return false;
        }
    }
    true
}

/// First step of registering a public key: checks the key's format and draws
/// a fresh recipient id. A key shorter than 32 bytes, or one with a character
/// that is not a hexadecimal digit, is refused with 400 "Invalid public key";
/// otherwise the user record to store carries the new id and the
/// request's key, fingerprint and alias unchanged.
pub fn register_key(req: RegisterRequest) -> (r: Result<NewUser, ApiError>)
    ensures
        r is Ok <==> public_key_acceptable(req.public_key@),
        (byte_len(req.public_key@) >= MIN_PUBLIC_KEY_BYTES && is_hex_text(req.public_key@))
            ==> r is Ok,
        r is Ok ==> byte_len(req.public_key@) >= MIN_PUBLIC_KEY_BYTES && is_hex_text(
            req.public_key@,
        ),
        r matches Err(e) ==> e.status == STATUS_BAD_REQUEST && e.message@ == "Invalid public key"@,
        r matches Ok(user) ==> {
            &&& is_hyphenated_uuid_v4(user.recipient_id@)
            &&& user.public_key == req.public_key
            &&& user.fingerprint == req.fingerprint
            &&& user.alias == req.alias
        },
{
    if req.public_key.as_str().len() < MIN_PUBLIC_KEY_BYTES || !is_hex_encoded(
        req.public_key.as_str(),
    ) {
        return Err(
            ApiError {
                status: STATUS_BAD_REQUEST,
                message: String::from_str("Invalid public key"),
            },
        );
    }
    let recipient_id = fresh_uuid_hyphenated();
    Ok(
        NewUser {
            recipient_id,
            public_key: req.public_key,
            fingerprint: req.fingerprint,
            alias: req.alias,
        },
    )
}

/// Second step of registering a public key: the answer once storage has
/// reported. A storage error becomes 500 with the storage's message; success
/// answers with the new recipient id and the fingerprint.
pub fn register_key_done(user: NewUser, stored: Result<(), String>) -> (r: Result<
    RegisterResponse,
    ApiError,
>)
    ensures
        r is Ok <==> stored is Ok,
        r matches Ok(resp) ==> resp.recipient_id == user.recipient_id && resp.fingerprint
            == user.fingerprint,
        r matches Err(e) ==> e.status == STATUS_INTERNAL_SERVER_ERROR && stored == Err::<(), String>(
            e.message,
        ),
{
    match stored {
        Ok(()) => Ok(
            RegisterResponse { recipient_id: user.recipient_id, fingerprint: user.fingerprint },
        ),
        Err(message) => Err(ApiError { status: STATUS_INTERNAL_SERVER_ERROR, message }),
    }
}

// ── Store Message ─────────────────────────────────────────────

#[derive(Debug, PartialEq)]
pub struct StoreMessageRequest {
    /// Who this message is for.
    pub recipient_id: String,
    /// Who sent it.
    pub sender_id: String,
    /// Base64-encoded encrypted payload.
    pub ciphertext: String,
    /// Sender's current ratchet key (for decrypt).
    pub sender_ratchet_key: String,
    /// Message number in the ratchet chain.
    pub msg_num: i64,
    /// Time to live (default: 72h).
    pub ttl_hours: Option<i64>,
}

#[derive(Debug, PartialEq)]
pub struct StoreMessageResponse {
    pub message_id: String,
    pub stored_at: String,
    pub expires_at: String,
}

/// A message record to be written to storage.
#[derive(Debug, PartialEq)]
pub struct NewMessage {
    pub message_id: String,
    pub recipient_id: String,
    pub sender_id: String,
    pub ciphertext: String,
    pub sender_ratchet_key: String,
    pub msg_num: i64,
    pub ttl_hours: i64,
}

/// The time to live that applies to a message: the one the sender named, or
/// `DEFAULT_TTL_HOURS`.
pub open spec fn effective_ttl(requested: Option<i64>) -> i64 {
    match requested {
        Some(hours) => hours,
        None => DEFAULT_TTL_HOURS,
    }
}

/// A ciphertext is within the relay's size limit when it has at most
/// `max_message_size` bytes.
pub open spec fn ciphertext_fits(config: RelayConfig, ciphertext: Seq<char>) -> bool {
    byte_len(ciphertext) <= config.max_message_size
}

/// A message keeps exactly the time to live its sender named, whatever its
/// length; only a message that names none is kept for 72 hours.
pub proof fn law_sender_ttl_is_kept(requested: Option<i64>)
    ensures
        requested matches Some(h) ==> effective_ttl(requested) == h,
        requested is None ==> effective_ttl(requested) == 72,
{
}

/// First step of storing a message, once the recipient has been looked up.
/// A failed lookup becomes 500 with the storage's message; an unknown
/// recipient becomes 404 "Recipient not found: <id>"; a ciphertext longer than
/// the configured `max_message_size` bytes becomes 413 "Ciphertext too large";
/// otherwise the record to store carries a fresh message id, the request's
/// fields unchanged (the ciphertext among them) and the time to live that
/// applies.
pub fn store_message(
    config: &RelayConfig,
    req: StoreMessageRequest,
    recipient: Result<Option<User>, String>,
) -> (r: Result<NewMessage, ApiError>)
    ensures
        r is Ok <==> (recipient matches Ok(Some(_)) && ciphertext_fits(*config, req.ciphertext@)),
        recipient matches Err(m) ==> r == Err::<NewMessage, ApiError>(
            ApiError { status: STATUS_INTERNAL_SERVER_ERROR, message: m },
        ),
        recipient matches Ok(None) ==> r matches Err(e) && e.status == STATUS_NOT_FOUND
            && e.message@ == "Recipient not found: "@ + req.recipient_id@,
        (recipient matches Ok(Some(_)) && !ciphertext_fits(*config, req.ciphertext@)) ==> (r matches Err(
            e,
        ) && e.status == STATUS_PAYLOAD_TOO_LARGE && e.message@ == "Ciphertext too large"@),
        r matches Ok(msg) ==> {
            &&& is_hyphenated_uuid_v4(msg.message_id@)
            &&& msg.recipient_id == req.recipient_id
            &&& msg.sender_id == req.sender_id
            &&& msg.ciphertext == req.ciphertext
            &&& msg.sender_ratchet_key == req.sender_ratchet_key
            &&& msg.msg_num == req.msg_num
            &&& msg.ttl_hours == effective_ttl(req.ttl_hours)
            &&& req.ttl_hours matches Some(h) ==> msg.ttl_hours == h
            &&& req.ttl_hours is None ==> msg.ttl_hours == DEFAULT_TTL_HOURS
        },
{
    match recipient {
        Err(message) => Err(ApiError { status: STATUS_INTERNAL_SERVER_ERROR, message }),
        Ok(None) => {
            let mut message = String::from_str("Recipient not found: ");
            message.append(req.recipient_id.as_str());
            Err(ApiError { status: STATUS_NOT_FOUND, message })
        },
        Ok(Some(_)) => {
            if req.ciphertext.as_str().len() > config.max_message_size {
                return Err(
                    ApiError {
                        status: STATUS_PAYLOAD_TOO_LARGE,
                        message: String::from_str("Ciphertext too large"),
                    },
                );
            }
            let message_id = fresh_uuid_hyphenated();
            let ttl_hours = match req.ttl_hours {
                Some(hours) => hours,
                None => DEFAULT_TTL_HOURS,
            };
            Ok(
                NewMessage {
                    message_id,
                    recipient_id: req.recipient_id,
                    sender_id: req.sender_id,
                    ciphertext: req.ciphertext,
                    sender_ratchet_key: req.sender_ratchet_key,
                    msg_num: req.msg_num,
                    ttl_hours,
                },
            )
        },
    }
}

/// Whether the receipt of a message stored at `now` with `ttl_hours` to live
/// can be written: both `now` and the expiry `ttl_hours` hours later are
/// instants `chrono` represents.
pub open spec fn receipt_defined(now: Timestamp, ttl_hours: i64) -> bool {
    &&& utc_secs_in_range(now.unix_secs() as int)
    &&& utc_secs_in_range(now.unix_secs() + SECS_PER_HOUR * ttl_hours)
}

/// The receipt text for a message stored at `now` that expires `ttl_hours`
/// hours later: the RFC 3339 text of the two instants.
pub open spec fn receipt_is(
    resp: StoreMessageResponse,
    message_id: String,
    now: Timestamp,
    ttl_hours: i64,
) -> bool {
    &&& resp.message_id == message_id
    &&& rfc3339_text(now.unix_secs(), now.subsec_nanos()) == Some(resp.stored_at@)
    &&& rfc3339_text(
        (now.unix_secs() + SECS_PER_HOUR * ttl_hours) as i64,
        now.subsec_nanos(),
    ) == Some(resp.expires_at@)
}

/// The receipt for a message stored at `now`: `stored_at` is `now` and
/// `expires_at` is exactly `ttl_hours` hours later, both in RFC 3339.
/// `None` where the expiry lies outside the instants `chrono` represents.
pub fn store_receipt(message_id: String, now: &Timestamp, ttl_hours: i64) -> (r: Option<
    StoreMessageResponse,
>)
    ensures
        r is Some <==> receipt_defined(*now, ttl_hours),
        r matches Some(resp) ==> receipt_is(resp, message_id, *now, ttl_hours),
{
    let expires = match now.plus_hours(ttl_hours) {
        Some(t) => t,
        None => return None,
    };
    let stored_at = now.to_rfc3339();
    let expires_at = expires.to_rfc3339();
    match (stored_at, expires_at) {
        (Some(stored_at), Some(expires_at)) => Some(
            StoreMessageResponse { message_id, stored_at, expires_at },
        ),
        _ => None,
    }
}

/// The answer to a store request once storage has reported.
#[derive(Debug, PartialEq)]
pub enum StoreReply {
    /// The message was stored; the receipt for the sender.
    Stored(StoreMessageResponse),
    /// The request fails with this answer.
    Failed(ApiError),
    /// The message was stored, but its expiry lies outside the instants that
    /// can be written down.
    ExpiryOutOfRange,
}

/// Second step of storing a message: the answer once storage has reported,
/// with `now` the moment of the answer. A storage error becomes 500 with the
/// storage's message; success answers with the receipt of `store_receipt`.
pub fn store_message_done(msg: NewMessage, stored: Result<(), String>, now: &Timestamp) -> (r:
    StoreReply)
    ensures
        stored matches Err(m) ==> r == StoreReply::Failed(
            ApiError { status: STATUS_INTERNAL_SERVER_ERROR, message: m },
        ),
        stored is Ok ==> (r is ExpiryOutOfRange <==> !receipt_defined(*now, msg.ttl_hours)),
        stored is Ok ==> (r matches StoreReply::Stored(resp) ==> receipt_is(
            resp,
            msg.message_id,
            *now,
            msg.ttl_hours,
        )),
        stored is Ok ==> !(r is Failed),
{
    match stored {
        Err(message) => StoreReply::Failed(
            ApiError { status: STATUS_INTERNAL_SERVER_ERROR, message },
        ),
        Ok(()) => match store_receipt(msg.message_id, now, msg.ttl_hours) {
            Some(resp) => StoreReply::Stored(resp),
            None => StoreReply::ExpiryOutOfRange,
        },
    }
}

/// Second step of storing a message, answered at the current time: a storage
/// error becomes 500 with the storage's message; success answers with the
/// receipt of `store_receipt` for a reading of the clock, and answers that the
/// expiry cannot be written only where it cannot for that reading.
pub fn store_message_reply(msg: NewMessage, stored: Result<(), String>) -> (r: StoreReply)
    ensures
        stored matches Err(m) ==> r == StoreReply::Failed(
            ApiError { status: STATUS_INTERNAL_SERVER_ERROR, message: m },
        ),
        stored is Ok ==> !(r is Failed),
        stored is Ok && MIN_UTC_SECS <= SECS_PER_HOUR * msg.ttl_hours <= 0 ==> r is Stored,
        r matches StoreReply::Stored(resp) ==> exists|now: Timestamp|
            now.is_clock_reading() && now.unix_secs() >= 0 && utc_secs_in_range(
                now.unix_secs() as int,
            ) && receipt_is(resp, msg.message_id, now, msg.ttl_hours),
        r is ExpiryOutOfRange ==> exists|now: Timestamp|
            now.is_clock_reading() && now.unix_secs() >= 0 && utc_secs_in_range(
                now.unix_secs() as int,
            ) && !receipt_defined(now, msg.ttl_hours),
{
    let ghost id = msg.message_id;
    let ghost ttl = msg.ttl_hours;
    let now = Timestamp::now();
    let r = store_message_done(msg, stored, &now);
    proof {
        if r is Stored {
            assert(receipt_is(r->Stored_0, id, now, ttl));
        }
        if r is ExpiryOutOfRange {
            assert(!receipt_defined(now, ttl));
        }
    }
    r
}

// ── Fetch Messages ────────────────────────────────────────────

#[derive(Debug, PartialEq)]
pub struct FetchMessagesResponse {
    pub recipient_id: String,
    pub messages: Vec<PendingMessage>,
    pub count: usize,
}

/// Fetching the pending messages of a recipient, once storage has reported
/// them: a storage error becomes 500 with the storage's message; otherwise the
/// answer lists the messages as storage gave them, with their number.
pub fn fetch_messages(recipient_id: String, pending: Result<Vec<PendingMessage>, String>) -> (r:
    Result<FetchMessagesResponse, ApiError>)
    ensures
        r is Ok <==> pending is Ok,
        pending matches Err(m) ==> r == Err::<FetchMessagesResponse, ApiError>(
            ApiError { status: STATUS_INTERNAL_SERVER_ERROR, message: m },
        ),
        pending matches Ok(messages) ==> r matches Ok(resp) && resp.recipient_id == recipient_id
            && resp.messages@ == messages@ && resp.count == messages@.len(),
{
    match pending {
        Err(message) => Err(ApiError { status: STATUS_INTERNAL_SERVER_ERROR, message }),
        Ok(messages) => {
            let count = messages.len();
            Ok(FetchMessagesResponse { recipient_id, messages, count })
        },
    }
}

// ── Acknowledge Message (mark as delivered) ───────────────────

/// Acknowledging a message, once storage has marked it delivered: success
/// answers 204 No Content; a storage error is answered with its message.
pub fn ack_message(marked: Result<(), String>) -> (r: Result<u16, String>)
    ensures
        marked is Ok ==> r == Ok::<u16, String>(STATUS_NO_CONTENT),
        marked matches Err(m) ==> r == Err::<u16, String>(m),
{
    match marked {
        Ok(()) => Ok(STATUS_NO_CONTENT),
        Err(message) => Err(message),
    }
}

// ── Relay-to-Relay Forwarding ─────────────────────────────────

#[derive(Debug, PartialEq)]
pub struct RelayForwardRequest {
    pub message_id: String,
    pub recipient_id: String,
    pub sender_id: String,
    pub ciphertext: String,
    pub sender_ratchet_key: String,
    pub msg_num: i64,
    pub ttl_hours: i64,
    pub source_relay_id: String,
}

/// First step of accepting a message forwarded by another relay. A source
/// relay that is not a configured peer is refused with 401 "Unknown relay
/// peer"; a ciphertext longer than the configured `max_message_size` bytes
/// with 413 "Ciphertext too large"; otherwise the record to store is the
/// forwarded message as it came, under the id the source relay gave it.
pub fn relay_forward(config: &RelayConfig, req: RelayForwardRequest) -> (r: Result<
    NewMessage,
    ApiError,
>)
    ensures
        r is Ok <==> (config.knows_peer(req.source_relay_id@) && ciphertext_fits(
            *config,
            req.ciphertext@,
        )),
        !config.knows_peer(req.source_relay_id@) ==> (r matches Err(e) && e.status
            == STATUS_UNAUTHORIZED && e.message@ == "Unknown relay peer"@),
        (config.knows_peer(req.source_relay_id@) && !ciphertext_fits(*config, req.ciphertext@))
            ==> (r matches Err(e) && e.status == STATUS_PAYLOAD_TOO_LARGE && e.message@
            == "Ciphertext too large"@),
        r matches Ok(msg) ==> {
            &&& msg.message_id == req.message_id
            &&& msg.recipient_id == req.recipient_id
            &&& msg.sender_id == req.sender_id
            &&& msg.ciphertext == req.ciphertext
            &&& msg.sender_ratchet_key == req.sender_ratchet_key
            &&& msg.msg_num == req.msg_num
            &&& msg.ttl_hours == req.ttl_hours
        },
{
    if !config.is_known_peer(req.source_relay_id.as_str()) {
        return Err(
            ApiError { status: STATUS_UNAUTHORIZED, message: String::from_str("Unknown relay peer") },
        );
    }
    if req.ciphertext.as_str().len() > config.max_message_size {
        return Err(
            ApiError {
                status: STATUS_PAYLOAD_TOO_LARGE,
                message: String::from_str("Ciphertext too large"),
            },
        );
    }
    Ok(
        NewMessage {
            message_id: req.message_id,
            recipient_id: req.recipient_id,
            sender_id: req.sender_id,
            ciphertext: req.ciphertext,
            sender_ratchet_key: req.sender_ratchet_key,
            msg_num: req.msg_num,
            ttl_hours: req.ttl_hours,
        },
    )
}

/// Second step of accepting a forwarded message: success answers 201
/// Created; a storage error becomes 500 with the storage's message.
pub fn relay_forward_done(stored: Result<(), String>) -> (r: Result<u16, ApiError>)
    ensures
        stored is Ok ==> r == Ok::<u16, ApiError>(STATUS_CREATED),
        stored matches Err(m) ==> r == Err::<u16, ApiError>(
            ApiError { status: STATUS_INTERNAL_SERVER_ERROR, message: m },
        ),
{
    match stored {
        Ok(()) => Ok(STATUS_CREATED),
        Err(message) => Err(ApiError { status: STATUS_INTERNAL_SERVER_ERROR, message }),
    }
}

// ── List Peer Relays ──────────────────────────────────────────

#[derive(Debug, PartialEq)]
pub struct PeerInfo {
    pub relay_id: String,
    pub url: String,
    pub last_seen: Option<String>,
    pub status: String,
}

/// What is shown of a configured peer: its id and url; no contact has been
/// recorded and its status is "unknown".
pub open spec fn shows_peer(info: PeerInfo, peer: crate::config::PeerConfig) -> bool {
    &&& info.relay_id@ == peer.id@
    &&& info.url@ == peer.url@
    &&& info.last_seen is None
    &&& info.status@ == "unknown"@
}

/// The configured peer relays, one entry per peer, in configuration order.
pub fn list_peers(config: &RelayConfig) -> (r: Vec<PeerInfo>)
    ensures
        r@.len() == config.known_peers@.len(),
        forall|i: int|
            0 <= i < r@.len() ==> shows_peer(#[trigger] r@[i], config.known_peers@[i]),
{
    let mut peers: Vec<PeerInfo> = Vec::new();
    let n = config.known_peers.len();
    let mut i: usize = 0;
    while i < n
        invariant
            n == config.known_peers@.len(),
            i <= n,
            peers@.len() == i,
            forall|j: int|
                0 <= j < i ==> shows_peer(#[trigger] peers@[j], config.known_peers@[j]),
        decreases n - i,
    {
        let peer = &config.known_peers[i];
        peers.push(
            PeerInfo {
                relay_id: peer.id.clone(),
                url: peer.url.clone(),
                last_seen: None,
                status: String::from_str("unknown"),
            },
        );
        i = i + 1;
    }
    peers
}

/// Every relay that the peer list shows is one that forwarding trusts.
pub proof fn lemma_listed_peers_are_trusted(config: RelayConfig, listed: Seq<PeerInfo>, i: int)
    requires
        listed.len() == config.known_peers@.len(),
        forall|j: int|
            0 <= j < listed.len() ==> shows_peer(#[trigger] listed[j], config.known_peers@[j]),
        0 <= i < listed.len(),
    ensures
        config.knows_peer(listed[i].relay_id@),
{
    assert(shows_peer(listed[i], config.known_peers@[i]));
}

// ── Health Check ──────────────────────────────────────────────

#[derive(Debug, PartialEq)]
pub struct HealthResponse {
    pub status: String,
    pub version: String,
    pub relay_id: String,
    pub messages_stored: i64,
    pub users_registered: i64,
    pub uptime_seconds: u64,
}

/// A count that storage reported, or 0 where it failed.
pub open spec fn count_or_zero(counted: Result<i64, String>) -> i64 {
    match counted {
        Ok(n) => n,
        Err(_) => 0,
    }
}

/// The health report, once storage has counted messages and users and the
/// uptime is known: status "ok", the given version, this relay's id, each
/// count or 0 where counting failed, and the given uptime.
pub fn health_report(
    config: &RelayConfig,
    version: &str,
    messages: Result<i64, String>,
    users: Result<i64, String>,
    uptime_seconds: u64,
) -> (r: HealthResponse)
    ensures
        r.status@ == "ok"@,
        r.version@ == version@,
        r.relay_id@ == config.relay_id@,
        r.messages_stored == count_or_zero(messages),
        r.users_registered == count_or_zero(users),
        r.uptime_seconds == uptime_seconds,
{
    let messages_stored = match messages {
        Ok(n) => n,
        Err(_) => 0,
    };
    let users_registered = match users {
        Ok(n) => n,
        Err(_) => 0,
    };
    HealthResponse {
        status: String::from_str("ok"),
        version: String::from_str(version),
        relay_id: config.relay_id.clone(),
        messages_stored,
        users_registered,
        uptime_seconds,
    }
}

/// The health report, once storage has counted messages and users: that of
/// `health_report`, with the whole seconds elapsed since the configuration's
/// start time as the uptime.
pub fn health_check(
    config: &RelayConfig,
    version: &str,
    messages: Result<i64, String>,
    users: Result<i64, String>,
) -> (r: HealthResponse)
    ensures
        r.status@ == "ok"@,
        r.version@ == version@,
        r.relay_id@ == config.relay_id@,
        r.messages_stored == count_or_zero(messages),
        r.users_registered == count_or_zero(users),
{
    let elapsed = instant_elapsed(&config.start_time);
    let uptime_seconds = duration_whole_secs(&elapsed);
    health_report(config, version, messages, users, uptime_seconds)
}

} // verus!
