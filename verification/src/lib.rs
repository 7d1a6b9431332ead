//! Core of a small ledger-backed farming game.
//!
//! A player owns a [`records::PlayerData`] ledger record and one
//! [`records::Plot`]. Gold is spent to plant one of five human kinds on the
//! plot and earned back, with a profit, by harvesting the plot once a fixed
//! maturation window has elapsed. The surrounding runtime (durable record
//! storage, wall clock, transaction plumbing) stays outside this crate: every
//! operation here is a pure transition from the current record pair, a clock
//! reading and the caller's identity to the new record pair or a typed error.

pub mod auth;
pub mod errors;
pub mod game;
pub mod pricing;
pub mod records;

pub use auth::Identity;
pub use auth::SessionToken;
pub use errors::GameErrorCode;
pub use game::ChopTree;
pub use game::Harvest;
pub use game::InitPlayer;
pub use game::Plant;
pub use game::harvest;
pub use game::init_player;
pub use game::plant;
pub use game::update;
pub use pricing::HumanType;
pub use records::PlayerData;
pub use records::Plot;
