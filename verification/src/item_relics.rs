//! Relics: static modifiers consulted by the damage pipeline and the turn
//! state machine.
use vstd::prelude::*;

verus! {

/// The relics a player can hold.
#[derive(Clone, Copy, Debug, PartialEq, Eq, Structural)]
pub enum Relic {
    /// +1 damage on every attack that deals any damage.
    Vajra,
    /// Heal 6 health on victory.
    BurningBlood,
    /// +10 block on the first turn of a battle.
    Anchor,
    /// +1 block whenever a card grants block.
    OddlySmoothStone,
    /// Every enemy starts the battle with 1 weak.
    BagOfMarbles,
}

/// Display name of a relic.
pub fn get_relic_name(relic: &Relic) -> (name: String)
    ensures
        relic is Vajra ==> name@ == "Vajra"@,
        relic is BurningBlood ==> name@ == "Burning Blood"@,
        relic is Anchor ==> name@ == "Anchor"@,
        relic is OddlySmoothStone ==> name@ == "Oddly Smooth Stone"@,
        relic is BagOfMarbles ==> name@ == "Bag of Marbles"@,
{
    match relic {
        Relic::Vajra => "Vajra".to_owned(),
        Relic::BurningBlood => "Burning Blood".to_owned(),
        Relic::Anchor => "Anchor".to_owned(),
        Relic::OddlySmoothStone => "Oddly Smooth Stone".to_owned(),
        Relic::BagOfMarbles => "Bag of Marbles".to_owned(),
    }
}

/// Whether `relics` holds `relic`.
pub fn has_relic(relics: &Vec<Relic>, relic: Relic) -> (r: bool)
    ensures
        r == relics@.contains(relic),
{
    let mut i: usize = 0;
    while i < relics.len()
        invariant
            i <= relics@.len(),
            forall|j: int| 0 <= j < i ==> relics@[j] != relic,
        decreases relics@.len() - i,
    {
        if relics[i] == relic {
            return true;
        }
        i = i + 1;
    }
    false
}

} // verus!
