//! UTC instants as plain values, and the two computations on them that the
//! relay hands to `chrono`: adding a number of hours, and RFC 3339 rendering.

use vstd::prelude::*;

verus! {

/// Nanoseconds in one second.
pub const NANOS_PER_SEC: u32 = 1_000_000_000;

/// Seconds in one hour.
pub const SECS_PER_HOUR: i64 = 3600;

/// The earliest whole second that `chrono` represents as a UTC instant:
/// January 1, 262144 BCE (year -262143, `NaiveDate::MIN`), 00:00:00.
pub const MIN_UTC_SECS: i64 = -8_334_601_228_800;

/// The latest whole second that `chrono` represents as a UTC instant:
/// December 31, 262142 CE (`NaiveDate::MAX`), 23:59:59.
pub const MAX_UTC_SECS: i64 = 8_210_266_876_799;

/// Whether the whole second `secs` after the Unix epoch lies within the UTC
/// instants that `chrono` represents.
pub open spec fn utc_secs_in_range(secs: int) -> bool {
    MIN_UTC_SECS <= secs && secs <= MAX_UTC_SECS
}

/// What `chrono` renders for the UTC instant `secs` seconds (and `nanos`
/// nanoseconds) after the Unix epoch: `DateTime::<Utc>::from_timestamp`
/// followed by `to_rfc3339`, or `None` where `from_timestamp` refuses the
/// instant.
pub uninterp spec fn rfc3339_text(secs: i64, nanos: u32) -> Option<Seq<char>>;

/// Renders a UTC instant with `chrono::DateTime::<Utc>::from_timestamp` and
/// `DateTime::to_rfc3339`. The contract claims that the result is
/// `rfc3339_text` of the arguments, and, as `from_timestamp`'s source shows,
/// that an instant that is not a leap second (`nanos` below one second) is
/// refused exactly when its second lies outside `MIN_UTC_SECS..=MAX_UTC_SECS`.
#[verifier::external_body]
fn chrono_rfc3339(secs: i64, nanos: u32) -> (r: Option<String>)
    ensures
        match r {
            Some(s) => rfc3339_text(secs, nanos) == Some(s@),
            None => rfc3339_text(secs, nanos) is None,
        },
        nanos < NANOS_PER_SEC ==> (r is Some <==> utc_secs_in_range(secs as int)),
{
    match chrono::DateTime::from_timestamp(secs, nanos) {
        Some(d) => Some(d.to_rfc3339()),
        None => None,
    }
}

/// Adds `hours` hours to a UTC instant with `chrono`: `from_timestamp`,
/// `TimeDelta::try_hours` and `DateTime::checked_add_signed`, read back with
/// `timestamp` and `timestamp_subsec_nanos`.
/// The contract claims what these functions' source shows: the result exists
/// exactly when both the start and the sum lie within the instants `chrono`
/// represents (a `TimeDelta` of `hours` hours exists whenever both do, and
/// never when the sum lies outside); it is then the instant `3600 * hours`
/// seconds later with the same sub-second part (true for instants that are not
/// leap seconds, which `nanos < NANOS_PER_SEC` ensures).
#[verifier::external_body]
fn chrono_add_hours(secs: i64, nanos: u32, hours: i64) -> (r: Option<(i64, u32)>)
    requires
        nanos < NANOS_PER_SEC,
    ensures
        r is Some <==> (utc_secs_in_range(secs as int) && utc_secs_in_range(
            secs + SECS_PER_HOUR * hours,
        )),
        r matches Some(later) ==> later.0 == secs + SECS_PER_HOUR * hours && later.1 == nanos,
{
    let start = match chrono::DateTime::from_timestamp(secs, nanos) {
        Some(d) => d,
        None => return None,
    };
    let delta = match chrono::TimeDelta::try_hours(hours) {
        Some(d) => d,
        None => return None,
    };
    match start.checked_add_signed(delta) {
        Some(e) => Some((e.timestamp(), e.timestamp_subsec_nanos())),
        None => None,
    }
}

/// Reads the current UTC time with `chrono::Utc::now`, as whole seconds and
/// nanoseconds since the Unix epoch (`timestamp`, `timestamp_subsec_nanos`).
/// The result depends on when the call is made; the contract claims only what
/// holds of every reading, as `Utc::now`'s source shows: it takes the
/// `Duration` since the Unix epoch (refusing a clock before the epoch), so the
/// seconds are not negative and the nanoseconds are below one second; and it
/// builds the instant with `DateTime::from_timestamp(..).unwrap()`, so the
/// instant is one that `chrono` represents and renders.
#[verifier::external_body]
fn chrono_utc_now() -> (r: (i64, u32))
    ensures
        r.0 >= 0,
        utc_secs_in_range(r.0 as int),
        r.1 < NANOS_PER_SEC,
        rfc3339_text(r.0, r.1) is Some,
{
    let now = chrono::Utc::now();
    (now.timestamp(), now.timestamp_subsec_nanos())
}

/// A UTC instant: whole seconds since the Unix epoch and the nanoseconds
/// within that second. Leap seconds are not represented, so the sub-second
/// part is always below one second.
#[derive(Clone, Copy)]
pub struct Timestamp {
    secs: i64,
    nanos: u32,
    from_clock: Ghost<bool>,
}

impl Timestamp {
    #[verifier::type_invariant]
    spec fn well_formed(self) -> bool {
        self.nanos < NANOS_PER_SEC
    }

    /// Whole seconds since the Unix epoch.
    pub closed spec fn unix_secs(self) -> i64 {
        self.secs
    }

    /// Whether this instant is a reading of the system clock, taken by
    /// `Timestamp::now`, rather than one built from numbers or computed.
    pub closed spec fn is_clock_reading(self) -> bool {
        self.from_clock@
    }

    /// Nanoseconds within the second.
    pub closed spec fn subsec_nanos(self) -> u32 {
        self.nanos
    }

    /// Builds an instant; `None` when `nanos` is a second or more.
    pub fn new(secs: i64, nanos: u32) -> (r: Option<Timestamp>)
        ensures
            r is Some <==> nanos < NANOS_PER_SEC,
            r matches Some(t) ==> t.unix_secs() == secs && t.subsec_nanos() == nanos
                && !t.is_clock_reading(),
    {
        if nanos < NANOS_PER_SEC {
            Some(Timestamp { secs, nanos, from_clock: Ghost(false) })
        } else {
            None
        }
    }

    /// The current UTC time: an instant at or after the Unix epoch that
    /// `chrono` can render.
    pub fn now() -> (r: Timestamp)
        ensures
            r.is_clock_reading(),
            r.unix_secs() >= 0,
            utc_secs_in_range(r.unix_secs() as int),
            rfc3339_text(r.unix_secs(), r.subsec_nanos()) is Some,
    {
        let (secs, nanos) = chrono_utc_now();
        Timestamp { secs, nanos, from_clock: Ghost(true) }
    }

    pub fn secs(&self) -> (r: i64)
        ensures
            r == self.unix_secs(),
    {
        self.secs
    }

    pub fn nanos(&self) -> (r: u32)
        ensures
            r == self.subsec_nanos(),
            r < NANOS_PER_SEC,
    {
        proof {
            use_type_invariant(self);
        }
        self.nanos
    }

    /// The instant `hours` hours later, as `chrono` computes it; `None` where
    /// `chrono` cannot represent it.
    pub fn plus_hours(&self, hours: i64) -> (r: Option<Timestamp>)
        ensures
            r is Some <==> (utc_secs_in_range(self.unix_secs() as int) && utc_secs_in_range(
                self.unix_secs() + SECS_PER_HOUR * hours,
            )),
            r matches Some(later) ==> later.unix_secs() == self.unix_secs() + SECS_PER_HOUR * hours
                && later.subsec_nanos() == self.subsec_nanos() && !later.is_clock_reading(),
    {
        proof {
            use_type_invariant(self);
        }
        match chrono_add_hours(self.secs, self.nanos, hours) {
            Some(later) => Some(Timestamp { secs: later.0, nanos: later.1, from_clock: Ghost(false) }),
            None => None,
        }
    }

    /// The RFC 3339 text of the instant, as `chrono` renders it.
    pub fn to_rfc3339(&self) -> (r: Option<String>)
        ensures
            match r {
                Some(s) => rfc3339_text(self.unix_secs(), self.subsec_nanos()) == Some(s@),
                None => rfc3339_text(self.unix_secs(), self.subsec_nanos()) is None,
            },
            r is Some <==> utc_secs_in_range(self.unix_secs() as int),
    {
        proof {
            use_type_invariant(self);
        }
        chrono_rfc3339(self.secs, self.nanos)
    }
}

} // verus!
