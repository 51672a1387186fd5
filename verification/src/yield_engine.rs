//! The cooldown that rate-limits a user's privileged actions.

use vstd::prelude::*;
use crate::errors::GameError;

verus! {

/// How long a cooldown lasts.
pub const COOLDOWN_SECONDS: u64 = 10;

/// The guard of cooldowns.
pub struct YieldEngine;

/// When a user's cooldown ends: at time zero if none is stored.
pub open spec fn cooldown_end(stored: Option<u64>) -> u64 {
    match stored {
        Some(end) => end,
        None => 0,
    }
}

impl YieldEngine {
    /// Passes unless the user's stored cooldown is still running at `now`.
    pub fn check_cooldown(stored: Option<u64>, now: u64) -> (outcome: Result<(), GameError>)
        ensures
            now < cooldown_end(stored) ==> outcome == Err::<(), GameError>(
                GameError::CooldownActive,
            ),
            now >= cooldown_end(stored) ==> outcome == Ok::<(), GameError>(()),
    {
        let end_ts: u64 = match stored {
            Some(end) => end,
            None => 0,
        };
        if now < end_ts {
            Err(GameError::CooldownActive)
        } else {
            Ok(())
        }
    }

    /// Starts a cooldown at `now`. Returns the time to store as its end.
    pub fn trigger_cooldown(now: u64) -> (end: u64)
        requires
            now + COOLDOWN_SECONDS <= u64::MAX,
        ensures
            end == now + COOLDOWN_SECONDS,
    {
        now + COOLDOWN_SECONDS
    }
}

/// A cooldown started at `start` refuses a check at `now` exactly during the
/// seconds that it lasts.
pub proof fn lemma_cooldown_window(start: u64, now: u64)
    requires
        start + COOLDOWN_SECONDS <= u64::MAX,
    ensures
        now < cooldown_end(Some((start + COOLDOWN_SECONDS) as u64)) <==> now < start
            + COOLDOWN_SECONDS,
{
}

} // verus!
