//! The two durable records kept per player identity.

use crate::auth::Identity;
use vstd::prelude::*;

verus! {

/// Energy a freshly initialized player starts with, and its ceiling.
pub const MAX_ENERGY: u64 = 10;

/// Gold a freshly initialized player starts with.
pub const INITIAL_GOLD: u64 = 5;

/// A player's ledger record. Created once; `gold` is the only field the
/// current operations move (plant debits it, harvest credits it).
pub struct PlayerData {
    /// The controlling principal; set at creation, immutable thereafter, and
    /// the anchor every authorization check resolves against.
    pub authority: Identity,
    /// Display name (reserved; no current operation reads or writes it).
    pub name: String,
    /// Progression counter (reserved).
    pub level: u8,
    /// Progression counter (reserved).
    pub xp: u64,
    /// Spendable energy, set to `MAX_ENERGY` at creation (reserved: tracked,
    /// never spent by a current operation).
    pub energy: u64,
    /// Spendable gold; a debit that would underflow is rejected beforehand.
    pub gold: u64,
    /// Clock reading recorded at creation (reserved).
    pub last_login: i64,
}

/// A player's single plot. Empty `human_type` is the "nothing planted"
/// sentinel; `planted_at` is meaningful only while something is planted.
pub struct Plot {
    /// Name of the occupant kind, or empty when nothing is planted.
    pub human_type: String,
    /// Clock reading at which the occupant was planted.
    pub planted_at: i64,
}

} // verus!
