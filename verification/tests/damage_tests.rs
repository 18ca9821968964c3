use deckbattle::Relic;
use deckbattle::StatusStore;
use deckbattle::absorb;
use deckbattle::attack_damage;
use deckbattle::mul_three_quarters;
use deckbattle::resolve_damage;

fn empty_status() -> StatusStore {
    StatusStore::new()
}

#[test]
fn test_weak_reduces_damage_by_quarter_truncated() {
    // 10 damage under one stack of weak: 10 * 0.75 = 7.5, truncated to 7.
    let mut status = empty_status();
    status.weak = 1;
    let relics: Vec<Relic> = Vec::new();
    let (final_damage, block_consumed, hp_loss) = resolve_damage(10, &status, &relics, 0);
    assert_eq!(final_damage, 7);
    assert_eq!(block_consumed, 0);
    assert_eq!(hp_loss, 7);
}

#[test]
fn test_resolve_damage_is_deterministic() {
    let mut status = empty_status();
    status.weak = 1;
    status.strength = 2;
    let relics = vec![Relic::Vajra];
    let first = resolve_damage(9, &status, &relics, 4);
    let second = resolve_damage(9, &status, &relics, 4);
    assert_eq!(first, second);
}

#[test]
fn test_block_absorbs_one_for_one() {
    // More block than damage: everything soaked, block keeps the rest.
    assert_eq!(absorb(5, 8), (5, 0, 3));
    // More damage than block: block empties, the rest is health loss.
    assert_eq!(absorb(10, 4), (4, 6, 0));
    // Exact match.
    assert_eq!(absorb(6, 6), (6, 0, 0));
}

#[test]
fn test_block_never_negative() {
    let status = empty_status();
    let relics: Vec<Relic> = Vec::new();
    let (final_damage, block_consumed, _) = resolve_damage(100, &status, &relics, 30);
    assert_eq!(final_damage, 100);
    assert_eq!(block_consumed, 30);
    // The defender's block after resolution is max(0, 30 - 100) = 0.
    assert_eq!(30 - block_consumed, 0);
}

#[test]
fn test_relic_and_strength_only_boost_real_attacks() {
    let mut status = empty_status();
    status.strength = 3;
    let relics = vec![Relic::Vajra];
    // 6 base + 1 (Vajra) + 3 (strength) = 10.
    let (final_damage, _, _) = resolve_damage(6, &status, &relics, 0);
    assert_eq!(final_damage, 10);
    // A zero-damage action gains nothing.
    let (zero, _, _) = resolve_damage(0, &status, &relics, 0);
    assert_eq!(zero, 0);
}

#[test]
fn test_weak_and_frozen_stack_multiplicatively() {
    let mut status = empty_status();
    status.weak = 1;
    status.frozen = 1;
    // 16 -> 12 (weak) -> 9 (frozen).
    assert_eq!(attack_damage(16, &status, false), 9);
}

#[test]
fn test_three_quarters_truncates_toward_zero() {
    assert_eq!(mul_three_quarters(10), 7);
    assert_eq!(mul_three_quarters(4), 3);
    assert_eq!(mul_three_quarters(1), 0);
    assert_eq!(mul_three_quarters(0), 0);
}
