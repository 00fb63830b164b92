//! The periodic removal of expired messages, as decisions: how often it runs
//! and what each run reports.

use vstd::prelude::*;

verus! {

/// Seconds in one minute.
pub const SECS_PER_MINUTE: u64 = 60;

/// The period of the cleanup task in seconds, for an interval given in
/// minutes. A zero period is refused by the timer that drives the task, and
/// a period beyond `u64::MAX` seconds cannot be written, so both are left out.
pub fn cleanup_period_secs(interval_mins: u64) -> (r: u64)
    requires
        0 < interval_mins,
        interval_mins * SECS_PER_MINUTE <= u64::MAX,
    ensures
        r == interval_mins * SECS_PER_MINUTE,
        r > 0,
{
    interval_mins * SECS_PER_MINUTE
}

/// What one cleanup run reports.
#[derive(Debug, PartialEq)]
pub enum CleanupReport {
    /// No message had expired; nothing is logged.
    NothingExpired,
    /// This many expired messages were removed.
    Removed(u64),
    /// Removing expired messages failed with this message.
    Failed(String),
}

/// The report of one cleanup run, from what storage said it removed.
pub fn cleanup_report(removed: Result<u64, String>) -> (r: CleanupReport)
    ensures
        removed == Ok::<u64, String>(0) ==> r == CleanupReport::NothingExpired,
        removed matches Ok(n) ==> (n > 0 ==> r == CleanupReport::Removed(n)),
        removed matches Err(m) ==> r == CleanupReport::Failed(m),
{
    match removed {
        Ok(count) => if count > 0 {
            CleanupReport::Removed(count)
        } else {
            CleanupReport::NothingExpired
        },
        Err(message) => CleanupReport::Failed(message),
    }
}

} // verus!
