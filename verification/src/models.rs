//! The records the relay keeps: registered users and pending messages.

use vstd::prelude::*;

verus! {

/// A registered user's public key info.
#[derive(Debug)]
pub struct User {
    pub recipient_id: String,
    pub public_key: String,
    pub fingerprint: String,
    pub alias: Option<String>,
    /// The registration time, in RFC 3339.
    pub registered_at: String,
}

/// A pending message (ciphertext only: the relay cannot read it).
#[derive(Debug, PartialEq)]
pub struct PendingMessage {
    pub message_id: String,
    pub sender_id: String,
    pub ciphertext: String,
    pub sender_ratchet_key: String,
    pub msg_num: i64,
    pub stored_at: String,
    pub expires_at: String,
    pub delivered: bool,
}

/// Message receipt for the sender.
#[derive(Debug, PartialEq)]
pub struct MessageReceipt {
    pub message_id: String,
    pub stored_at: String,
    pub expires_at: String,
}

} // verus!
