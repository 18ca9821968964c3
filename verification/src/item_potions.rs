//! Potions: one-shot consumables the player can drink during battle.
use vstd::prelude::*;

verus! {

/// The potions a player can carry.
#[derive(Clone, Copy, Debug, PartialEq, Eq, Structural)]
pub enum Potion {
    /// Heal 10 health, clamped at the maximum.
    Health,
    /// +2 strength.
    Strength,
    /// +2 energy.
    Energy,
}

/// Display name of a potion.
pub fn get_potion_name(potion: &Potion) -> (name: String)
    ensures
        potion is Health ==> name@ == "Health Potion"@,
        potion is Strength ==> name@ == "Strength Potion"@,
        potion is Energy ==> name@ == "Energy Potion"@,
{
    match potion {
        Potion::Health => "Health Potion".to_owned(),
        Potion::Strength => "Strength Potion".to_owned(),
        Potion::Energy => "Energy Potion".to_owned(),
    }
}

} // verus!
