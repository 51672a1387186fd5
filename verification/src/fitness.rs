//! Step counts reported for a user.

use vstd::prelude::*;

verus! {

/// One user's step record.
#[derive(Clone, Copy, Debug, PartialEq, Eq, Structural)]
pub struct FitnessStats {
    /// Steps recorded since the day was last rolled over.
    pub steps_today: u32,
    /// When steps were last recorded.
    pub last_step_update: u64,
    /// Consecutive days on which the user walked enough.
    pub streak_days: u32,
}

} // verus!
