//! The relay's configuration and the trust it places in peer relays.

use std::time::Duration;
use std::time::Instant;

use vstd::prelude::*;
use vstd::string::*;

use crate::ids::{fresh_uuid_simple, is_simple_uuid_v4};

verus! {

#[verifier::external_type_specification]
#[verifier::external_body]
pub struct ExInstant(Instant);

/// Reads the monotonic clock with `std::time::Instant::now`. Nothing is
/// claimed of the result: it depends on when the call is made.
#[verifier::external_body]
pub(crate) fn instant_now() -> Instant {
    Instant::now()
}

/// Calls `std::time::Instant::elapsed`. Nothing is claimed of the result: it
/// depends on when the call is made.
#[verifier::external_body]
pub(crate) fn instant_elapsed(start: &Instant) -> Duration {
    start.elapsed()
}

/// Calls `std::time::Duration::as_secs`, the whole seconds of a duration.
/// A `Duration` is opaque here, so nothing is claimed of the number.
#[verifier::external_body]
pub(crate) fn duration_whole_secs(d: &Duration) -> u64 {
    d.as_secs()
}

/// Compares two string slices with `str`'s `==`. The contract claims what the
/// standard library documents: the slices are equal exactly when they hold
/// the same characters.
#[verifier::external_body]
pub(crate) fn str_eq(a: &str, b: &str) -> (r: bool)
    ensures
        r == (a@ == b@),
{
    a == b
}

/// A peer relay that this relay accepts forwarded messages from.
#[derive(Debug)]
pub struct PeerConfig {
    pub id: String,
    pub url: String,
    pub public_key: String,
}

impl Clone for PeerConfig {
    fn clone(&self) -> (r: Self)
        ensures
            r == *self,
    {
        PeerConfig { id: self.id.clone(), url: self.url.clone(), public_key: self.public_key.clone() }
    }
}

/// The relay's configuration.
#[derive(Debug)]
pub struct RelayConfig {
    pub relay_id: String,
    pub host: String,
    pub port: u16,
    pub database_path: String,
    pub max_message_size: usize,
    pub max_messages_per_user: usize,
    pub cleanup_interval_minutes: u64,
    pub known_peers: Vec<PeerConfig>,
    pub start_time: Instant,
}

/// The relay id that a default configuration draws: `relay_` followed by the
/// simple text of a random UUID.
pub open spec fn is_generated_relay_id(id: Seq<char>) -> bool {
    &&& id.len() == 38
    &&& id.take(6) == "relay_"@
    &&& is_simple_uuid_v4(id.skip(6))
}

/// Two configurations that agree on every setting; only the start time may
/// differ.
pub open spec fn same_settings(a: RelayConfig, b: RelayConfig) -> bool {
    &&& a.relay_id@ == b.relay_id@
    &&& a.host@ == b.host@
    &&& a.port == b.port
    &&& a.database_path@ == b.database_path@
    &&& a.max_message_size == b.max_message_size
    &&& a.max_messages_per_user == b.max_messages_per_user
    &&& a.cleanup_interval_minutes == b.cleanup_interval_minutes
    &&& a.known_peers@ == b.known_peers@
}

impl RelayConfig {
    /// Whether some known peer carries the relay id `relay_id`.
    pub open spec fn knows_peer(&self, relay_id: Seq<char>) -> bool {
        exists|i: int|
            0 <= i < self.known_peers@.len() && (#[trigger] self.known_peers@[i]).id@ == relay_id
    }

    /// Whether `relay_id` is the id of one of the configured peers.
    pub fn is_known_peer(&self, relay_id: &str) -> (r: bool)
        ensures
            r == self.knows_peer(relay_id@),
    {
        let n = self.known_peers.len();
        let mut i: usize = 0;
        while i < n
            invariant
                n == self.known_peers@.len(),
                i <= n,
                forall|j: int| 0 <= j < i ==> (#[trigger] self.known_peers@[j]).id@ != relay_id@,
            decreases n - i,
        {
            if str_eq(self.known_peers[i].id.as_str(), relay_id) {
                return true;
            }
            i = i + 1;
        }
        false
    }
}

impl RelayConfig {
    /// A copy of this configuration with every setting, started at
    /// `start_time`.
    pub fn with_start_time(&self, start_time: Instant) -> (r: RelayConfig)
        ensures
            same_settings(r, *self),
            r.start_time == start_time,
    {
        let known_peers = self.known_peers.clone();
        proof {
            assert forall|i: int| 0 <= i < known_peers@.len() implies known_peers@[i]
                == self.known_peers@[i] by {
                assert(vstd::pervasive::cloned::<PeerConfig>(self.known_peers@[i], known_peers@[i]));
            }
            assert(known_peers@ == self.known_peers@);
        }
        RelayConfig {
            relay_id: self.relay_id.clone(),
            host: self.host.clone(),
            port: self.port,
            database_path: self.database_path.clone(),
            max_message_size: self.max_message_size,
            max_messages_per_user: self.max_messages_per_user,
            cleanup_interval_minutes: self.cleanup_interval_minutes,
            known_peers,
            start_time,
        }
    }
}

impl Clone for RelayConfig {
    /// Copies every setting; the copy's start time is the moment of the copy:
    /// the copy is `with_start_time` of a fresh reading of the clock.
    fn clone(&self) -> (r: Self)
        ensures
            same_settings(r, *self),
    {
        self.with_start_time(instant_now())
    }
}

impl Default for RelayConfig {
    /// A relay with a fresh random id, listening on `0.0.0.0:8080`, storing
    /// into `messages.db`, accepting ciphertexts of up to 64 KiB, keeping up to
    /// 1000 messages per user, cleaning up hourly, with no peers.
    fn default() -> (r: Self)
        ensures
            is_generated_relay_id(r.relay_id@),
            r.host@ == "0.0.0.0"@,
            r.port == 8080,
            r.database_path@ == "messages.db"@,
            r.max_message_size == 65536,
            r.max_messages_per_user == 1000,
            r.cleanup_interval_minutes == 60,
            r.known_peers@.len() == 0,
    {
        let suffix = fresh_uuid_simple();
        let relay_id = String::from_str("relay_").concat(suffix.as_str());
        proof {
            reveal_strlit("relay_");
            assert(relay_id@.take(6) == "relay_"@);
            assert(relay_id@.skip(6) == suffix@);
        }
        RelayConfig {
            relay_id,
            host: String::from_str("0.0.0.0"),
            port: 8080,
            database_path: String::from_str("messages.db"),
            max_message_size: 65536,
            max_messages_per_user: 1000,
            cleanup_interval_minutes: 60,
            known_peers: Vec::new(),
            start_time: instant_now(),
        }
    }
}

/// A copy of a configuration trusts exactly the peers that the configuration
/// trusts.
pub proof fn lemma_copy_keeps_peer_trust(a: RelayConfig, b: RelayConfig, relay_id: Seq<char>)
    requires
        same_settings(a, b),
    ensures
        a.knows_peer(relay_id) == b.knows_peer(relay_id),
{
    if a.knows_peer(relay_id) {
        let i = choose|i: int|
            0 <= i < a.known_peers@.len() && (#[trigger] a.known_peers@[i]).id@ == relay_id;
        assert(b.known_peers@[i] == a.known_peers@[i]);
    }
    if b.knows_peer(relay_id) {
        let i = choose|i: int|
            0 <= i < b.known_peers@.len() && (#[trigger] b.known_peers@[i]).id@ == relay_id;
        assert(a.known_peers@[i] == b.known_peers@[i]);
    }
}

} // verus!
