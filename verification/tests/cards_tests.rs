use deckbattle::CharacterClass;
use deckbattle::Rarity;
use deckbattle::SpellElement;
use deckbattle::defend;
use deckbattle::fire_essence;
use deckbattle::heavy_blade;
use deckbattle::magic_bolt;
use deckbattle::reward_card;
use deckbattle::starting_deck;
use deckbattle::strike;
use deckbattle::uppercut;

#[test]
fn test_basic_card_stats() {
    let s = strike();
    assert_eq!(s.name, "Strike");
    assert_eq!(s.damage, 7);
    assert_eq!(s.cost, 1);
    assert_eq!(s.combo_points_granted, 1);
    let d = defend();
    assert_eq!(d.block, 8);
    assert_eq!(d.damage, 0);
}

#[test]
fn test_spell_card_roles_are_exclusive() {
    let essence = fire_essence();
    assert!(essence.is_spell_modifier);
    assert!(!essence.is_spell_source);
    assert_eq!(essence.element, SpellElement::Fire);
    assert_eq!(essence.cost, 0);
    let bolt = magic_bolt();
    assert!(bolt.is_spell_source);
    assert!(!bolt.is_spell_modifier);
    let plain = uppercut();
    assert!(!plain.is_spell_modifier && !plain.is_spell_source);
    assert_eq!(plain.apply_stun, 1);
}

#[test]
fn test_finisher_card() {
    let blade = heavy_blade();
    assert_eq!(blade.finisher_combo_cost, 3);
    assert_eq!(blade.damage, 16);
    assert_eq!(blade.rarity, Rarity::Legendary);
}

#[test]
fn test_starting_decks() {
    let duelist = starting_deck(CharacterClass::Duelist);
    assert_eq!(duelist.len(), 10);
    assert_eq!(duelist.iter().filter(|c| c.name == "Strike").count(), 5);
    assert_eq!(duelist.iter().filter(|c| c.name == "Bash").count(), 2);
    assert_eq!(duelist.iter().filter(|c| c.name == "Defend").count(), 3);
    let weaver = starting_deck(CharacterClass::Spellweaver);
    assert_eq!(weaver.len(), 10);
    assert_eq!(
        weaver.iter().filter(|c| c.name == "Fire Essence").count(),
        3
    );
    assert_eq!(weaver.iter().filter(|c| c.name == "Magic Bolt").count(), 3);
}

#[test]
fn test_reward_card_tables() {
    // Duelist: a rarity roll under 60 draws a common.
    assert_eq!(reward_card(CharacterClass::Duelist, 0, 0).name, "Iron Wave");
    assert_eq!(
        reward_card(CharacterClass::Duelist, 59, 1).name,
        "Shrug It Off"
    );
    // 60 to 89 draws a rare.
    assert_eq!(
        reward_card(CharacterClass::Duelist, 60, 0).name,
        "Deadly Poison"
    );
    assert_eq!(reward_card(CharacterClass::Duelist, 89, 3).name, "Fortify");
    // 90 and above draws a legendary.
    assert_eq!(
        reward_card(CharacterClass::Duelist, 90, 0).name,
        "Heavy Blade"
    );
    assert_eq!(reward_card(CharacterClass::Duelist, 99, 1).name, "Bludgeon");
    // The Spellweaver draws uniformly from its six cards.
    assert_eq!(
        reward_card(CharacterClass::Spellweaver, 0, 5).name,
        "Wind Essence"
    );
}
