//! The minimum interval between two synchronisations of one user.
use vstd::prelude::*;

verus! {

/// Seconds that must pass between two synchronisations of one user.
pub const MIN_SECONDS_BETWEEN_UPDATES: u32 = 10;

/// Whether a synchronisation may go ahead now.
#[derive(PartialEq, Eq, Structural, Debug, Clone, Copy)]
pub enum CooldownResult {
    Allowed,
    /// Rejected; the payload is the number of whole seconds still to wait.
    Blocked(u64),
}

/// The verdict for a user whose latest snapshot was recorded at `last`
/// (milliseconds), asked at `now`, with a minimum interval of `threshold_secs`:
/// a user never synchronised passes; otherwise one whose interval has not yet
/// elapsed is rejected with `threshold - elapsed` seconds, rounded down.
pub open spec fn cooldown_of(last: Option<i64>, now: i64, threshold_secs: u32) -> CooldownResult {
    match last {
        None => CooldownResult::Allowed,
        Some(t) => {
            let elapsed = now - t;
            let limit = threshold_secs * 1000;
            if elapsed < limit {
                CooldownResult::Blocked(((limit - elapsed) / 1000) as u64)
            } else {
                CooldownResult::Allowed
            }
        },
    }
}

/// Decides whether a user whose latest snapshot was recorded at `last` may be
/// synchronised at `now` (both in milliseconds since the epoch).
pub fn check_cooldown(last: Option<i64>, now: i64, threshold_secs: u32) -> (r: CooldownResult)
    ensures
        r == cooldown_of(last, now, threshold_secs),
{
    match last {
        None => CooldownResult::Allowed,
        Some(t) => {
            let elapsed: i128 = now as i128 - t as i128;
            let limit: i128 = threshold_secs as i128 * 1000;
            if elapsed < limit {
                let remaining: i128 = (limit - elapsed) / 1000;
                assert(remaining <= u64::MAX) by (nonlinear_arith)
                    requires
                        remaining == (limit - elapsed) / 1000,
                        0 < limit - elapsed <= 4294967295 * 1000 + 18446744073709551616,
                ;
                CooldownResult::Blocked(remaining as u64)
            } else {
                CooldownResult::Allowed
            }
        },
    }
}

/// A synchronisation asked for before the interval has elapsed since the
/// latest snapshot is rejected with the interval minus the elapsed time, in
/// whole seconds rounded down; one asked for later is allowed.
pub proof fn lemma_cooldown_remaining(last: i64, now: i64, threshold_secs: u32)
    ensures
        now - last < threshold_secs * 1000 ==> cooldown_of(Some(last), now, threshold_secs)
            == CooldownResult::Blocked(((threshold_secs * 1000 - (now - last)) / 1000) as u64),
        now - last >= threshold_secs * 1000 ==> cooldown_of(Some(last), now, threshold_secs)
            == CooldownResult::Allowed,
{
}

} // verus!
