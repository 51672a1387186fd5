//! How a raid between two vaults ended.

use vstd::prelude::*;

verus! {

/// The attacker's view of a raid's end.
#[derive(Clone, Copy, Debug, PartialEq, Eq, Structural)]
pub enum BattleOutcome {
    Victory,
    Defeat,
}

} // verus!
