//! The card pool: the shared card shape, every card in the game, the
//! starting decks of the two character classes, and the reward draw.
use vstd::prelude::*;

use crate::VALUE_CAP;
use crate::rng::roll_below;
use crate::spell::SpellElement;

verus! {

/// How rare a card is.
#[derive(Clone, Copy, Debug, PartialEq, Eq, Structural)]
pub enum Rarity {
    Common,
    Rare,
    Legendary,
}

/// The two character classes: the Duelist spends energy that resets every
/// turn, the Spellweaver accumulates mana.
#[derive(Clone, Copy, Debug, PartialEq, Eq, Structural)]
pub enum CharacterClass {
    Duelist,
    Spellweaver,
}

/// A playable card; enemy moves share the damage/block/status shape.
#[derive(Clone, Debug)]
pub struct Card {
    pub name: String,
    pub damage: u32,
    pub block: u32,
    pub cost: u32,
    pub apply_poison: u32,
    pub apply_weak: u32,
    pub apply_stun: u32,
    pub upgraded: bool,
    pub rarity: Rarity,
    pub is_spell_modifier: bool,
    pub is_spell_source: bool,
    pub element: SpellElement,
    pub combo_points_granted: u32,
    pub finisher_combo_cost: u32,
}

/// Mathematical model of a card.
#[verifier::ext_equal]
pub ghost struct CardModel {
    pub name: Seq<char>,
    pub damage: u32,
    pub block: u32,
    pub cost: u32,
    pub apply_poison: u32,
    pub apply_weak: u32,
    pub apply_stun: u32,
    pub upgraded: bool,
    pub rarity: Rarity,
    pub is_spell_modifier: bool,
    pub is_spell_source: bool,
    pub element: SpellElement,
    pub combo_points_granted: u32,
    pub finisher_combo_cost: u32,
}

impl View for Card {
    type V = CardModel;

    open spec fn view(&self) -> CardModel {
        CardModel {
            name: self.name@,
            damage: self.damage,
            block: self.block,
            cost: self.cost,
            apply_poison: self.apply_poison,
            apply_weak: self.apply_weak,
            apply_stun: self.apply_stun,
            upgraded: self.upgraded,
            rarity: self.rarity,
            is_spell_modifier: self.is_spell_modifier,
            is_spell_source: self.is_spell_source,
            element: self.element,
            combo_points_granted: self.combo_points_granted,
            finisher_combo_cost: self.finisher_combo_cost,
        }
    }
}

impl CardModel {
    /// Numbers within the engine cap, and at most one of the two spell
    /// roles: a card is a spell modifier, a spell source, or neither.
    pub open spec fn wf(self) -> bool {
        &&& self.damage <= VALUE_CAP
        &&& self.block <= VALUE_CAP
        &&& self.cost <= VALUE_CAP
        &&& self.apply_poison <= VALUE_CAP
        &&& self.apply_weak <= VALUE_CAP
        &&& self.apply_stun <= VALUE_CAP
        &&& self.combo_points_granted <= VALUE_CAP
        &&& self.finisher_combo_cost <= VALUE_CAP
        &&& !(self.is_spell_modifier && self.is_spell_source)
    }
}

/// An ordinary (non-spell) card: damage, block, cost, applied statuses,
/// rarity and combo numbers; no element and neither spell role.
pub open spec fn plain_card_model(
    name: Seq<char>,
    damage: u32,
    block: u32,
    cost: u32,
    apply_poison: u32,
    apply_weak: u32,
    apply_stun: u32,
    rarity: Rarity,
    combo_points_granted: u32,
    finisher_combo_cost: u32,
) -> CardModel {
    CardModel {
        name,
        damage,
        block,
        cost,
        apply_poison,
        apply_weak,
        apply_stun,
        upgraded: false,
        rarity,
        is_spell_modifier: false,
        is_spell_source: false,
        element: SpellElement::Neutral,
        combo_points_granted,
        finisher_combo_cost,
    }
}

/// An essence card: a spell modifier carrying an element.
pub open spec fn essence_card_model(name: Seq<char>, element: SpellElement) -> CardModel {
    CardModel {
        name,
        damage: 3u32,
        block: 0u32,
        cost: 0u32,
        apply_poison: 0u32,
        apply_weak: 0u32,
        apply_stun: 0u32,
        upgraded: false,
        rarity: Rarity::Common,
        is_spell_modifier: true,
        is_spell_source: false,
        element,
        combo_points_granted: 0u32,
        finisher_combo_cost: 0u32,
    }
}

/// A spell-source card: consumes the accumulator when played.
pub open spec fn source_card_model(name: Seq<char>, damage: u32, block: u32) -> CardModel {
    CardModel {
        name,
        damage,
        block,
        cost: 1u32,
        apply_poison: 0u32,
        apply_weak: 0u32,
        apply_stun: 0u32,
        upgraded: false,
        rarity: Rarity::Common,
        is_spell_modifier: false,
        is_spell_source: true,
        element: SpellElement::Neutral,
        combo_points_granted: 0u32,
        finisher_combo_cost: 0u32,
    }
}

pub open spec fn strike_model() -> CardModel {
    plain_card_model("Strike"@, 7, 0, 1, 0, 0, 0, Rarity::Common, 1, 0)
}

pub open spec fn defend_model() -> CardModel {
    plain_card_model("Defend"@, 0, 8, 1, 0, 0, 0, Rarity::Common, 0, 0)
}

pub open spec fn bash_model() -> CardModel {
    plain_card_model("Bash"@, 12, 0, 2, 0, 0, 0, Rarity::Common, 1, 0)
}

pub open spec fn iron_wave_model() -> CardModel {
    plain_card_model("Iron Wave"@, 5, 5, 1, 0, 0, 0, Rarity::Common, 1, 0)
}

pub open spec fn deadly_poison_model() -> CardModel {
    plain_card_model("Deadly Poison"@, 0, 0, 1, 10, 0, 0, Rarity::Rare, 0, 0)
}

pub open spec fn heavy_blade_model() -> CardModel {
    plain_card_model("Heavy Blade"@, 16, 0, 2, 0, 0, 0, Rarity::Legendary, 0, 3)
}

pub open spec fn shrug_it_off_model() -> CardModel {
    plain_card_model("Shrug It Off"@, 0, 8, 1, 0, 0, 0, Rarity::Common, 0, 0)
}

pub open spec fn clothesline_model() -> CardModel {
    plain_card_model("Clothesline"@, 12, 0, 2, 0, 2, 0, Rarity::Rare, 1, 0)
}

pub open spec fn quick_slash_model() -> CardModel {
    plain_card_model("Quick Slash"@, 4, 0, 0, 0, 0, 0, Rarity::Common, 2, 0)
}

pub open spec fn bludgeon_model() -> CardModel {
    plain_card_model("Bludgeon"@, 30, 0, 3, 0, 0, 0, Rarity::Legendary, 1, 0)
}

pub open spec fn poison_cloud_model() -> CardModel {
    plain_card_model("Poison Cloud"@, 0, 0, 2, 5, 3, 0, Rarity::Rare, 0, 0)
}

pub open spec fn fortify_model() -> CardModel {
    plain_card_model("Fortify"@, 0, 20, 2, 0, 0, 0, Rarity::Rare, 0, 0)
}

pub open spec fn uppercut_model() -> CardModel {
    plain_card_model("Uppercut"@, 8, 0, 2, 0, 0, 1, Rarity::Rare, 1, 0)
}

pub open spec fn flashbang_model() -> CardModel {
    plain_card_model("Flashbang"@, 0, 0, 1, 0, 2, 1, Rarity::Rare, 0, 0)
}

pub open spec fn magic_bolt_model() -> CardModel {
    source_card_model("Magic Bolt"@, 6, 0)
}

pub open spec fn magic_shield_model() -> CardModel {
    source_card_model("Magic Shield"@, 0, 8)
}

pub open spec fn fire_essence_model() -> CardModel {
    essence_card_model("Fire Essence"@, SpellElement::Fire)
}

pub open spec fn ice_essence_model() -> CardModel {
    essence_card_model("Ice Essence"@, SpellElement::Ice)
}

pub open spec fn wind_essence_model() -> CardModel {
    essence_card_model("Wind Essence"@, SpellElement::Wind)
}

pub open spec fn stone_essence_model() -> CardModel {
    essence_card_model("Stone Essence"@, SpellElement::Stone)
}

/// Build an ordinary card.
fn plain_card(
    name: &str,
    damage: u32,
    block: u32,
    cost: u32,
    apply_poison: u32,
    apply_weak: u32,
    apply_stun: u32,
    rarity: Rarity,
    combo_points_granted: u32,
    finisher_combo_cost: u32,
) -> (c: Card)
    ensures
        c@ == plain_card_model(
            name@,
            damage,
            block,
            cost,
            apply_poison,
            apply_weak,
            apply_stun,
            rarity,
            combo_points_granted,
            finisher_combo_cost,
        ),
{
    let c = Card {
        name: name.to_owned(),
        damage,
        block,
        cost,
        apply_poison,
        apply_weak,
        apply_stun,
        upgraded: false,
        rarity,
        is_spell_modifier: false,
        is_spell_source: false,
        element: SpellElement::Neutral,
        combo_points_granted,
        finisher_combo_cost,
    };
    proof {
        assert(c@ =~= plain_card_model(
            name@,
            damage,
            block,
            cost,
            apply_poison,
            apply_weak,
            apply_stun,
            rarity,
            combo_points_granted,
            finisher_combo_cost,
        ));
    }
    c
}

pub fn strike() -> (c: Card)
    ensures
        c@ == strike_model(),
{
    plain_card("Strike", 7, 0, 1, 0, 0, 0, Rarity::Common, 1, 0)
}

pub fn defend() -> (c: Card)
    ensures
        c@ == defend_model(),
{
    plain_card("Defend", 0, 8, 1, 0, 0, 0, Rarity::Common, 0, 0)
}

pub fn bash() -> (c: Card)
    ensures
        c@ == bash_model(),
{
    plain_card("Bash", 12, 0, 2, 0, 0, 0, Rarity::Common, 1, 0)
}

pub fn iron_wave() -> (c: Card)
    ensures
        c@ == iron_wave_model(),
{
    plain_card("Iron Wave", 5, 5, 1, 0, 0, 0, Rarity::Common, 1, 0)
}

pub fn deadly_poison() -> (c: Card)
    ensures
        c@ == deadly_poison_model(),
{
    plain_card("Deadly Poison", 0, 0, 1, 10, 0, 0, Rarity::Rare, 0, 0)
}

pub fn heavy_blade() -> (c: Card)
    ensures
        c@ == heavy_blade_model(),
{
    plain_card("Heavy Blade", 16, 0, 2, 0, 0, 0, Rarity::Legendary, 0, 3)
}

pub fn shrug_it_off() -> (c: Card)
    ensures
        c@ == shrug_it_off_model(),
{
    plain_card("Shrug It Off", 0, 8, 1, 0, 0, 0, Rarity::Common, 0, 0)
}

pub fn clothesline() -> (c: Card)
    ensures
        c@ == clothesline_model(),
{
    plain_card("Clothesline", 12, 0, 2, 0, 2, 0, Rarity::Rare, 1, 0)
}

pub fn quick_slash() -> (c: Card)
    ensures
        c@ == quick_slash_model(),
{
    plain_card("Quick Slash", 4, 0, 0, 0, 0, 0, Rarity::Common, 2, 0)
}

pub fn bludgeon() -> (c: Card)
    ensures
        c@ == bludgeon_model(),
{
    plain_card("Bludgeon", 30, 0, 3, 0, 0, 0, Rarity::Legendary, 1, 0)
}

pub fn poison_cloud() -> (c: Card)
    ensures
        c@ == poison_cloud_model(),
{
    plain_card("Poison Cloud", 0, 0, 2, 5, 3, 0, Rarity::Rare, 0, 0)
}

pub fn fortify() -> (c: Card)
    ensures
        c@ == fortify_model(),
{
    plain_card("Fortify", 0, 20, 2, 0, 0, 0, Rarity::Rare, 0, 0)
}

pub fn uppercut() -> (c: Card)
    ensures
        c@ == uppercut_model(),
{
    plain_card("Uppercut", 8, 0, 2, 0, 0, 1, Rarity::Rare, 1, 0)
}

pub fn flashbang() -> (c: Card)
    ensures
        c@ == flashbang_model(),
{
    plain_card("Flashbang", 0, 0, 1, 0, 2, 1, Rarity::Rare, 0, 0)
}

/// Build a spell-source card.
fn source_card(name: &str, damage: u32, block: u32) -> (c: Card)
    ensures
        c@ == source_card_model(name@, damage, block),
{
    let c = Card {
        name: name.to_owned(),
        damage,
        block,
        cost: 1,
        apply_poison: 0,
        apply_weak: 0,
        apply_stun: 0,
        upgraded: false,
        rarity: Rarity::Common,
        is_spell_modifier: false,
        is_spell_source: true,
        element: SpellElement::Neutral,
        combo_points_granted: 0,
        finisher_combo_cost: 0,
    };
    proof {
        assert(c@ =~= source_card_model(name@, damage, block));
    }
    c
}

pub fn magic_bolt() -> (c: Card)
    ensures
        c@ == magic_bolt_model(),
{
    source_card("Magic Bolt", 6, 0)
}

pub fn magic_shield() -> (c: Card)
    ensures
        c@ == magic_shield_model(),
{
    source_card("Magic Shield", 0, 8)
}

/// Build an essence card.
fn essence_card(name: &str, element: SpellElement) -> (c: Card)
    ensures
        c@ == essence_card_model(name@, element),
{
    let c = Card {
        name: name.to_owned(),
        damage: 3,
        block: 0,
        cost: 0,
        apply_poison: 0,
        apply_weak: 0,
        apply_stun: 0,
        upgraded: false,
        rarity: Rarity::Common,
        is_spell_modifier: true,
        is_spell_source: false,
        element,
        combo_points_granted: 0,
        finisher_combo_cost: 0,
    };
    proof {
        assert(c@ =~= essence_card_model(name@, element));
    }
    c
}

pub fn fire_essence() -> (c: Card)
    ensures
        c@ == fire_essence_model(),
{
    essence_card("Fire Essence", SpellElement::Fire)
}

pub fn ice_essence() -> (c: Card)
    ensures
        c@ == ice_essence_model(),
{
    essence_card("Ice Essence", SpellElement::Ice)
}

pub fn wind_essence() -> (c: Card)
    ensures
        c@ == wind_essence_model(),
{
    essence_card("Wind Essence", SpellElement::Wind)
}

pub fn stone_essence() -> (c: Card)
    ensures
        c@ == stone_essence_model(),
{
    essence_card("Stone Essence", SpellElement::Stone)
}

/// Every card in the pool satisfies the card invariant.
pub proof fn lemma_card_pool_wf()
    ensures
        strike_model().wf(),
        defend_model().wf(),
        bash_model().wf(),
        iron_wave_model().wf(),
        deadly_poison_model().wf(),
        heavy_blade_model().wf(),
        shrug_it_off_model().wf(),
        clothesline_model().wf(),
        quick_slash_model().wf(),
        bludgeon_model().wf(),
        poison_cloud_model().wf(),
        fortify_model().wf(),
        uppercut_model().wf(),
        flashbang_model().wf(),
        magic_bolt_model().wf(),
        magic_shield_model().wf(),
        fire_essence_model().wf(),
        ice_essence_model().wf(),
        wind_essence_model().wf(),
        stone_essence_model().wf(),
{
}

/// The reward card the tables yield for a class, a rarity roll in
/// `[0, 100)` and a pick roll in `[0, 6)`. For the Duelist the rarity roll
/// selects the tier (60% common, 30% rare, 10% legendary) and the pick roll
/// selects within it; the Spellweaver draws uniformly from its six cards.
pub open spec fn reward_card_spec(class: CharacterClass, roll: u32, pick: u32) -> CardModel {
    match class {
        CharacterClass::Duelist => {
            if roll < 60 {
                if pick % 3 == 0 {
                    iron_wave_model()
                } else if pick % 3 == 1 {
                    shrug_it_off_model()
                } else {
                    quick_slash_model()
                }
            } else if roll < 90 {
                if pick == 0 {
                    deadly_poison_model()
                } else if pick == 1 {
                    clothesline_model()
                } else if pick == 2 {
                    poison_cloud_model()
                } else if pick == 3 {
                    fortify_model()
                } else if pick == 4 {
                    uppercut_model()
                } else {
                    flashbang_model()
                }
            } else {
                if pick % 2 == 0 {
                    heavy_blade_model()
                } else {
                    bludgeon_model()
                }
            }
        },
        CharacterClass::Spellweaver => {
            if pick == 0 {
                magic_bolt_model()
            } else if pick == 1 {
                magic_shield_model()
            } else if pick == 2 {
                fire_essence_model()
            } else if pick == 3 {
                ice_essence_model()
            } else if pick == 4 {
                stone_essence_model()
            } else {
                wind_essence_model()
            }
        },
    }
}

/// Build the reward card for given rolls.
pub fn reward_card(class: CharacterClass, roll: u32, pick: u32) -> (c: Card)
    ensures
        c@ == reward_card_spec(class, roll, pick),
{
    match class {
        CharacterClass::Duelist => {
            if roll < 60 {
                let r = pick % 3;
                if r == 0 {
                    iron_wave()
                } else if r == 1 {
                    shrug_it_off()
                } else {
                    quick_slash()
                }
            } else if roll < 90 {
                if pick == 0 {
                    deadly_poison()
                } else if pick == 1 {
                    clothesline()
                } else if pick == 2 {
                    poison_cloud()
                } else if pick == 3 {
                    fortify()
                } else if pick == 4 {
                    uppercut()
                } else {
                    flashbang()
                }
            } else {
                if pick % 2 == 0 {
                    heavy_blade()
                } else {
                    bludgeon()
                }
            }
        },
        CharacterClass::Spellweaver => {
            if pick == 0 {
                magic_bolt()
            } else if pick == 1 {
                magic_shield()
            } else if pick == 2 {
                fire_essence()
            } else if pick == 3 {
                ice_essence()
            } else if pick == 4 {
                stone_essence()
            } else {
                wind_essence()
            }
        },
    }
}

/// Draw fresh rolls and build a random reward card for the class.
pub fn generate_random_card(class: CharacterClass) -> (c: Card)
    ensures
        exists|roll: u32, pick: u32|
            roll < 100 && pick < 6 && c@ == reward_card_spec(class, roll, pick),
{
    let roll = roll_below(100);
    let pick = roll_below(6);
    let c = reward_card(class, roll, pick);
    proof {
        assert(roll < 100 && pick < 6 && c@ == reward_card_spec(class, roll, pick));
    }
    c
}

/// The starting deck of a class, as a sequence of card models.
pub open spec fn starting_deck_model(class: CharacterClass) -> Seq<CardModel> {
    match class {
        CharacterClass::Duelist => seq![
            strike_model(),
            strike_model(),
            strike_model(),
            strike_model(),
            strike_model(),
            bash_model(),
            bash_model(),
            defend_model(),
            defend_model(),
            defend_model(),
        ],
        CharacterClass::Spellweaver => seq![
            fire_essence_model(),
            fire_essence_model(),
            fire_essence_model(),
            wind_essence_model(),
            wind_essence_model(),
            magic_bolt_model(),
            magic_bolt_model(),
            magic_bolt_model(),
            magic_shield_model(),
            magic_shield_model(),
        ],
    }
}

/// Build the starting deck of a class: five Strikes, two Bashes and three
/// Defends for the Duelist; three Fire Essences, two Wind Essences, three
/// Magic Bolts and two Magic Shields for the Spellweaver.
pub fn starting_deck(class: CharacterClass) -> (deck: Vec<Card>)
    ensures
        deck@.map_values(|c: Card| c@) == starting_deck_model(class),
        deck@.len() == 10,
{
    let mut deck: Vec<Card> = Vec::new();
    match class {
        CharacterClass::Duelist => {
            let mut i: u32 = 0;
            while i < 5
                invariant
                    i <= 5,
                    deck@.len() == i,
                    forall|j: int| 0 <= j < i ==> deck@[j]@ == strike_model(),
                decreases 5 - i,
            {
                deck.push(strike());
                i = i + 1;
            }
            deck.push(bash());
            deck.push(bash());
            deck.push(defend());
            deck.push(defend());
            deck.push(defend());
        },
        CharacterClass::Spellweaver => {
            deck.push(fire_essence());
            deck.push(fire_essence());
            deck.push(fire_essence());
            deck.push(wind_essence());
            deck.push(wind_essence());
            deck.push(magic_bolt());
            deck.push(magic_bolt());
            deck.push(magic_bolt());
            deck.push(magic_shield());
            deck.push(magic_shield());
        },
    }
    proof {
        assert(deck@.map_values(|c: Card| c@) =~= starting_deck_model(class));
    }
    deck
}

} // verus!
