//! The reasons for which an operation is refused.

use vstd::prelude::*;

verus! {

/// The kinds of refusal. Each one aborts the whole operation: nothing of it
/// is kept.
#[derive(Clone, Copy, Debug, PartialEq, Eq, Structural)]
pub enum ErrorKind {
    /// The caller is not the principal that the operation requires.
    Authorization,
    /// The user has no record yet.
    NotInitialized,
    /// The balance does not cover the cost.
    InsufficientFunds,
    /// Troops, stamina or command tokens fall short.
    InsufficientResource,
    /// A shield or a cooldown is still active.
    Precondition,
    /// An argument is not acceptable.
    InvalidInput,
}

/// Why an operation was refused.
#[derive(Clone, Copy, Debug, PartialEq, Eq, Structural)]
pub enum GameError {
    /// The user has no vault.
    VaultNotFound,
    /// The attacker has no record.
    AttackerNotFound,
    /// The defender has no record.
    DefenderNotFound,
    /// The attacker holds too few command tokens for a raid.
    NotEnoughCommand,
    /// The attacker has too little stamina for a raid.
    NotEnoughStamina,
    /// The attacker commits more troops than the garrison holds.
    NotEnoughTroops,
    /// The defender's shield is still up.
    ShieldActive,
    /// The user's cooldown has not run out.
    CooldownActive,
    /// The answer to a drill was wrong.
    IncorrectAnswer,
}

impl GameError {
    /// The kind that this error belongs to.
    pub open spec fn spec_kind(self) -> ErrorKind {
        match self {
            GameError::VaultNotFound => ErrorKind::NotInitialized,
            GameError::AttackerNotFound => ErrorKind::NotInitialized,
            GameError::DefenderNotFound => ErrorKind::NotInitialized,
            GameError::NotEnoughCommand => ErrorKind::InsufficientResource,
            GameError::NotEnoughStamina => ErrorKind::InsufficientResource,
            GameError::NotEnoughTroops => ErrorKind::InsufficientResource,
            GameError::ShieldActive => ErrorKind::Precondition,
            GameError::CooldownActive => ErrorKind::Precondition,
            GameError::IncorrectAnswer => ErrorKind::InvalidInput,
        }
    }

    /// The kind that this error belongs to.
    #[verifier::when_used_as_spec(spec_kind)]
    pub fn kind(self) -> (kind: ErrorKind)
        ensures
            kind == self.spec_kind(),
    {
        match self {
            GameError::VaultNotFound => ErrorKind::NotInitialized,
            GameError::AttackerNotFound => ErrorKind::NotInitialized,
            GameError::DefenderNotFound => ErrorKind::NotInitialized,
            GameError::NotEnoughCommand => ErrorKind::InsufficientResource,
            GameError::NotEnoughStamina => ErrorKind::InsufficientResource,
            GameError::NotEnoughTroops => ErrorKind::InsufficientResource,
            GameError::ShieldActive => ErrorKind::Precondition,
            GameError::CooldownActive => ErrorKind::Precondition,
            GameError::IncorrectAnswer => ErrorKind::InvalidInput,
        }
    }
}

} // verus!
