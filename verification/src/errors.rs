//! The error taxonomy shared by every game operation.

use vstd::prelude::*;

verus! {

/// Why an operation was rejected. Rejections leave both records untouched.
///
/// Two of the codes are overloaded: `NotEnoughGold` also reports an unknown
/// kind at plant and an unrecognised (or empty) occupant at harvest, and
/// `NotReadyYet` also reports a plot that is already occupied at plant.
#[derive(Clone, Copy, PartialEq, Eq, Structural, Debug)]
pub enum GameErrorCode {
    /// Reserved: energy is tracked but no current operation spends it.
    NotEnoughEnergy,
    /// The player cannot pay the plant cost, or the kind (or the plot's
    /// occupant, at harvest) is not in the pricing table.
    NotEnoughGold,
    /// The maturation window has not elapsed, or the plot is already occupied.
    NotReadyYet,
    /// The plot holds nothing to harvest.
    NothingWasPlanted,
    /// The caller is neither the record owner nor a valid delegate.
    WrongAuthority,
}

impl GameErrorCode {
    /// The human-readable message attached to a code.
    pub open spec fn spec_message(self) -> Seq<char> {
        match self {
            GameErrorCode::NotEnoughEnergy => "Not enough energy"@,
            GameErrorCode::NotEnoughGold => "Not enough gold"@,
            GameErrorCode::NotReadyYet => "Not ready for harvest yet"@,
            GameErrorCode::NothingWasPlanted => "Nothing was planted"@,
            GameErrorCode::WrongAuthority => "Wrong Authority"@,
        }
    }

    /// Render the code's message.
    pub fn message(&self) -> (r: String)
        ensures
            r@ == self.spec_message(),
    {
        match self {
            GameErrorCode::NotEnoughEnergy => "Not enough energy".to_owned(),
            GameErrorCode::NotEnoughGold => "Not enough gold".to_owned(),
            GameErrorCode::NotReadyYet => "Not ready for harvest yet".to_owned(),
            GameErrorCode::NothingWasPlanted => "Nothing was planted".to_owned(),
            GameErrorCode::WrongAuthority => "Wrong Authority".to_owned(),
        }
    }
}

} // verus!
