//! Gear modifier identifiers.

use vstd::prelude::*;

verus! {

/// Number of equipment slots on a character.
pub const GEAR_SLOTS: usize = 14;

/// An opaque gear-modifier identifier occupying one equipment slot,
/// or the empty sentinel `NoAffix` for an unequipped slot.
#[derive(Debug, Clone, Copy, PartialEq, Eq)]
pub enum Affix {
    NoAffix,
    Berserker,
    Assassin,
    Harrier,
    Ritualist,
    Viper,
    Sinister,
    Grieving,
    Marauder,
    Dragon,
    Diviner,
    Minstrel,
    Magi,
    Celestial,
    Giver,
    Plaguedoctor,
}

} // verus!
