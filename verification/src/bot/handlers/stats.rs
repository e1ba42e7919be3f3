//! The `/stats` command: who may use it, and how uptime is shown.

use vstd::prelude::*;

verus! {

/// Whether a user may see the statistics: anyone when no owner is
/// configured, only the owner otherwise.
pub fn stats_allowed(owner_id: Option<i64>, user_id: Option<i64>) -> (r: bool)
    ensures
        r == match owner_id {
            Some(o) => user_id == Some(o),
            None => true,
        },
{
    match owner_id {
        Some(o) => match user_id {
            Some(u) => u == o,
            None => false,
        },
        None => true,
    }
}

/// Uptime in whole days, the hours and the minutes beyond them.
pub fn uptime_parts(uptime_secs: u64) -> (r: (u64, u64, u64))
    ensures
        r.0 == uptime_secs / 86400,
        r.1 == (uptime_secs % 86400) / 3600,
        r.2 == (uptime_secs % 3600) / 60,
{
    (uptime_secs / (24 * 3600), (uptime_secs % (24 * 3600)) / 3600, (uptime_secs % 3600) / 60)
}

} // verus!
