//! Raid resolution and economy rules of a base-building game over custodial
//! balances: troop statistics, the combat engine, the escrow split, yield and
//! stamina accrual, and the raid that ties them to the two players' records.
//!
//! Every function here works on plain values. Loading and saving records,
//! reading the ledger clock, authorisation and event publication belong to the
//! host around this library.

pub mod accrual;
pub mod battle;
pub mod citadel_protocol;
pub mod citadel_vault;
pub mod contract_engine;
pub mod errors;
pub mod escrow_manager;
pub mod fitness;
pub mod raid;
pub mod raiders;
pub mod state_storage;
pub mod vault;
pub mod vault_raid;
pub mod yield_engine;
