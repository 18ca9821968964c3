use deckbattle::ActiveSpell;
use deckbattle::ComboKind;
use deckbattle::SpellElement;
use deckbattle::detect_combo;

#[test]
fn test_fire_then_ice_cancels_the_fire_essence() {
    let mut spell = ActiveSpell::new();
    spell.cast_modifier(SpellElement::Fire, 3, 0);
    assert_eq!(spell.bonus_damage, 3);
    assert_eq!(spell.essences.len(), 1);
    assert_eq!(spell.essence_history, vec![SpellElement::Fire]);
    // Ice is Fire's opposite: the pending Fire essence is removed entirely,
    // the Ice essence is never added, and the history window holds neither
    // element afterwards.
    spell.cast_modifier(SpellElement::Ice, 3, 0);
    assert_eq!(spell.bonus_damage, 0);
    assert_eq!(spell.bonus_block, 0);
    assert!(spell.essences.is_empty());
    assert!(spell.essence_history.is_empty());
    assert_eq!(spell.element, SpellElement::Neutral);
}

#[test]
fn test_cancellation_restores_block_contribution_too() {
    let mut spell = ActiveSpell::new();
    spell.cast_modifier(SpellElement::Wind, 2, 5);
    spell.cast_modifier(SpellElement::Stone, 1, 1);
    // Stone cancels the pending Wind: its 2 damage and 5 block come back
    // out, and the Wind entry leaves the history window.
    assert_eq!(spell.bonus_damage, 0);
    assert_eq!(spell.bonus_block, 0);
    assert!(spell.essences.is_empty());
    assert!(spell.essence_history.is_empty());
}

#[test]
fn test_fire_ice_wind_window_scores_twenty_damage_once() {
    // Casting Fire, Ice literally cancels at the Ice and scrubs the window,
    // so the Fire, Ice, Wind window is prepared directly and the Wind cast
    // completes it.
    let mut spell = ActiveSpell::new();
    spell.essence_history = vec![SpellElement::Fire, SpellElement::Ice];
    spell.cast_modifier(SpellElement::Wind, 3, 0);
    // +3 (Wind) +20 (combo), exactly once: the window is empty after, so
    // the same three entries cannot score again.
    assert_eq!(spell.bonus_damage, 23);
    assert_eq!(spell.bonus_block, 0);
    assert!(spell.essence_history.is_empty());
}

#[test]
fn test_cancellation_keeps_the_window_honest() {
    // Through casts alone the Fire, Ice, Wind window never forms: the Ice
    // cast cancels the pending Fire and scrubs its entry, so no combo fires.
    let mut spell = ActiveSpell::new();
    spell.cast_modifier(SpellElement::Fire, 3, 0);
    spell.cast_modifier(SpellElement::Ice, 3, 0);
    spell.cast_modifier(SpellElement::Ice, 3, 0);
    spell.cast_modifier(SpellElement::Wind, 3, 0);
    assert_eq!(
        spell.essence_history,
        vec![SpellElement::Ice, SpellElement::Wind]
    );
    // Only the two surviving essences contribute; no +20 was granted.
    assert_eq!(spell.bonus_damage, 6);
    assert_eq!(spell.bonus_block, 0);
}

#[test]
fn test_combo_detection_table() {
    let updraft = vec![SpellElement::Fire, SpellElement::Ice, SpellElement::Wind];
    assert_eq!(detect_combo(&updraft), ComboKind::ThermalUpdraft);
    let ash = vec![SpellElement::Wind, SpellElement::Fire, SpellElement::Stone];
    assert_eq!(detect_combo(&ash), ComboKind::VolcanicAsh);
    let convergence = vec![SpellElement::Ice, SpellElement::Wind, SpellElement::Fire];
    assert_eq!(detect_combo(&convergence), ComboKind::Convergence);
    let repeat = vec![SpellElement::Fire, SpellElement::Fire, SpellElement::Wind];
    assert_eq!(detect_combo(&repeat), ComboKind::NoCombo);
    let neutral = vec![
        SpellElement::Fire,
        SpellElement::Neutral,
        SpellElement::Wind,
    ];
    assert_eq!(detect_combo(&neutral), ComboKind::NoCombo);
}

#[test]
fn test_volcanic_ash_grants_block() {
    // As with the damage combo, the Wind, Fire, Stone window is prepared
    // directly: a Stone cast right after Wind would cancel the pending Wind
    // essence and scrub its entry.
    let mut spell = ActiveSpell::new();
    spell.essence_history = vec![SpellElement::Wind, SpellElement::Fire];
    spell.cast_modifier(SpellElement::Stone, 3, 0);
    // The window read Wind, Fire, Stone: +20 block.
    assert_eq!(spell.bonus_block, 20);
    assert_eq!(spell.bonus_damage, 3);
    assert!(spell.essence_history.is_empty());
}

#[test]
fn test_cast_source_consumes_the_accumulator() {
    let mut spell = ActiveSpell::new();
    spell.cast_modifier(SpellElement::Fire, 3, 0);
    spell.cast_modifier(SpellElement::Wind, 2, 1);
    let (damage, block, flags) = spell.cast_source(6, 2);
    assert_eq!(damage, 6 + 5);
    assert_eq!(block, 2 + 1);
    assert!(flags.fire);
    assert!(flags.wind);
    assert!(!flags.ice);
    assert!(!flags.stone);
    assert_eq!(spell.bonus_damage, 0);
    assert_eq!(spell.bonus_block, 0);
    assert!(spell.essences.is_empty());
    assert!(spell.essence_history.is_empty());
}

#[test]
fn test_sliding_window_drops_oldest() {
    let mut spell = ActiveSpell::new();
    spell.cast_modifier(SpellElement::Fire, 3, 0);
    spell.cast_modifier(SpellElement::Fire, 3, 0);
    spell.cast_modifier(SpellElement::Fire, 3, 0);
    // Three Fires form no combo: the oldest entry slides out.
    assert_eq!(
        spell.essence_history,
        vec![SpellElement::Fire, SpellElement::Fire]
    );
    assert_eq!(spell.bonus_damage, 9);
}
