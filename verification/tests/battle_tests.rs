use deckbattle::BattleSession;
use deckbattle::Card;
use deckbattle::CharacterClass;
use deckbattle::EnemyKind;
use deckbattle::Phase;
use deckbattle::Potion;
use deckbattle::Rarity;
use deckbattle::ReflexSuccess;
use deckbattle::Relic;
use deckbattle::SpellElement;
use deckbattle::StatusKind;

fn six_damage_strike() -> Card {
    Card {
        name: "Strike".to_string(),
        damage: 6,
        block: 0,
        cost: 1,
        apply_poison: 0,
        apply_weak: 0,
        apply_stun: 0,
        upgraded: false,
        rarity: Rarity::Common,
        is_spell_modifier: false,
        is_spell_source: false,
        element: SpellElement::Neutral,
        combo_points_granted: 0,
        finisher_combo_cost: 0,
    }
}

#[test]
fn test_cli_play_card_request() {
    // A Spellweaver with 3 mana and a 6-damage Strike in hand plays it at
    // the single 20-health enemy.
    let mut session = BattleSession::new(
        CharacterClass::Spellweaver,
        vec![],
        vec![],
        0,
        vec![],
        &vec![EnemyKind::Orc],
    );
    session.player.health.current = 50;
    session.player.health.max = 50;
    session.enemies[0].health.current = 20;
    session.enemies[0].health.max = 20;
    session.player.mana = 3;
    session.hand.push(six_damage_strike());
    session.phase = Phase::PlayerTurn;

    let played = session.play_card(0, Some(0));
    assert!(played.is_ok());
    assert!(
        session.phase == Phase::PlayerAttackAnimating,
        "Card should have the CardAnimating component attached."
    );
    assert_eq!(session.player.mana, 2, "Mana should be reduced by 1");
}

#[test]
fn test_strike_resolves_for_six_against_fresh_goblin() {
    // Player at 50/50 with 3/3 energy and no relics plays a 6-damage,
    // 1-cost Strike against a fresh 20-health Goblin with no block: the
    // enemy drops to 14 and the player's energy to 2. The attack is
    // reflex-gated; letting the timer run out scores a Miss, which leaves
    // the damage unchanged.
    let mut session = BattleSession::new(
        CharacterClass::Duelist,
        vec![],
        vec![],
        0,
        vec![six_damage_strike()],
        &vec![EnemyKind::Goblin],
    );
    assert_eq!(session.player.health.current, 50);
    assert_eq!(session.player.health.max, 50);
    assert_eq!(session.player.energy_current, 3);
    assert_eq!(session.enemies[0].health.current, 20);
    session.start_player_turn();
    assert_eq!(session.phase, Phase::PlayerTurn);
    assert_eq!(session.hand.len(), 1);

    let played = session.play_card(0, Some(0));
    assert!(played.is_ok());
    assert_eq!(session.player.energy_current, 2);
    assert_eq!(session.phase, Phase::PlayerAttackAnimating);

    session.step_player_attack(2000);
    assert_eq!(session.enemies[0].health.current, 14);
    assert!(session.enemies[0].alive);
    assert_eq!(session.phase, Phase::PlayerTurn);
}

#[test]
fn test_end_turn_reaches_enemy_turn_via_turn_end() {
    // From PlayerTurn, the end-turn intent always reaches EnemyTurn via
    // PlayerTurnEnd, whatever the hand holds.
    let mut session = BattleSession::new(
        CharacterClass::Duelist,
        vec![],
        vec![],
        0,
        vec![six_damage_strike()],
        &vec![EnemyKind::Goblin],
    );
    session.start_player_turn();
    assert_eq!(session.phase, Phase::PlayerTurn);
    assert_eq!(session.hand.len(), 1);
    assert!(session.end_turn().is_ok());
    assert_eq!(session.phase, Phase::PlayerTurnEnd);
    session.step_turn_end();
    assert_eq!(session.phase, Phase::EnemyTurn);
    assert!(session.hand.is_empty());
    assert_eq!(session.discard.len(), 1);

    // The same transition from an empty hand.
    let mut empty_handed = BattleSession::new(
        CharacterClass::Duelist,
        vec![],
        vec![],
        0,
        vec![],
        &vec![EnemyKind::Goblin],
    );
    empty_handed.start_player_turn();
    assert!(empty_handed.hand.is_empty());
    assert!(empty_handed.end_turn().is_ok());
    assert_eq!(empty_handed.phase, Phase::PlayerTurnEnd);
    empty_handed.step_turn_end();
    assert_eq!(empty_handed.phase, Phase::EnemyTurn);
}

#[test]
fn test_enemy_queue_skips_the_dead_and_keeps_order() {
    // Two living enemies and one already dead at EnemyTurn entry: exactly
    // the two living ones act, in their original order, and the turn ends
    // back at PlayerTurnStart.
    let mut session = BattleSession::new(
        CharacterClass::Duelist,
        vec![],
        vec![],
        0,
        vec![],
        &vec![EnemyKind::Goblin, EnemyKind::Goblin, EnemyKind::Goblin],
    );
    session.enemies[1].health.current = 0;
    session.enemies[1].alive = false;
    session.phase = Phase::EnemyTurn;

    let mut acted: Vec<usize> = Vec::new();
    let mut guard = 0;
    while session.phase != Phase::PlayerTurnStart {
        guard += 1;
        assert!(guard < 100, "the enemy turn must terminate");
        match session.phase {
            Phase::EnemyTurn => session.step_enemy_turn(),
            Phase::EnemyAttackAnimating => {
                if let Some(attacker) = session.attacking_enemy {
                    if acted.last() != Some(&attacker) {
                        acted.push(attacker);
                    }
                }
                session.step_enemy_attack(300);
            }
            other => panic!("unexpected phase {:?}", other),
        }
    }
    assert_eq!(acted, vec![0, 2]);
    assert_eq!(session.phase, Phase::PlayerTurnStart);
}

#[test]
fn test_stunned_enemy_skips_its_action() {
    let mut session = BattleSession::new(
        CharacterClass::Duelist,
        vec![],
        vec![],
        0,
        vec![],
        &vec![EnemyKind::Orc],
    );
    session.enemies[0].status.apply(StatusKind::Stun, 1);
    session.phase = Phase::EnemyTurn;
    session.step_enemy_turn();
    session.step_enemy_turn();
    assert_eq!(session.phase, Phase::EnemyAttackAnimating);
    session.step_enemy_attack(0);
    // The stun was spent, no attack landed, and the player is untouched.
    assert_eq!(session.enemies[0].status.stun, 0);
    assert_eq!(session.player.health.current, 50);
    assert_eq!(session.phase, Phase::EnemyTurn);
}

#[test]
fn test_defensive_reflex_shrinks_incoming_damage() {
    let mut session = BattleSession::new(
        CharacterClass::Duelist,
        vec![],
        vec![],
        0,
        vec![],
        &vec![EnemyKind::Goblin],
    );
    session.phase = Phase::EnemyTurn;
    session.step_enemy_turn();
    session.step_enemy_turn();
    assert_eq!(session.phase, Phase::EnemyAttackAnimating);
    // First step ticks the enemy and telegraphs the attack.
    session.step_enemy_attack(0);
    let base = session.reflex.as_ref().expect("a reflex must be telegraphed").base_damage;
    // A perfectly timed brace takes a tenth of the damage, truncated.
    session.step_enemy_attack(750);
    session.trigger_reflex();
    assert_eq!(
        session.reflex.as_ref().unwrap().result,
        Some(ReflexSuccess::Perfect)
    );
    session.step_enemy_attack(0);
    assert_eq!(
        session.player.health.current,
        50 - (base as i64) / 10
    );
    assert_eq!(session.phase, Phase::EnemyTurn);
}

#[test]
fn test_victory_heals_with_burning_blood() {
    let mut session = BattleSession::new(
        CharacterClass::Duelist,
        vec![Relic::BurningBlood],
        vec![],
        0,
        vec![six_damage_strike()],
        &vec![EnemyKind::Goblin],
    );
    session.player.health.current = 40;
    session.enemies[0].health.current = 3;
    session.phase = Phase::PlayerTurn;
    session.hand.push(six_damage_strike());
    let played = session.play_card(0, Some(0));
    assert!(played.is_ok());
    session.step_player_attack(2000);
    assert_eq!(session.phase, Phase::Victory);
    assert!(!session.enemies[0].alive);
    assert_eq!(session.player.health.current, 46);
}

#[test]
fn test_bag_of_marbles_applies_initial_weak() {
    let session = BattleSession::new(
        CharacterClass::Duelist,
        vec![Relic::BagOfMarbles],
        vec![],
        0,
        vec![],
        &vec![EnemyKind::Orc, EnemyKind::Goblin],
    );
    assert_eq!(session.enemies[0].status.weak, 1);
    assert_eq!(session.enemies[1].status.weak, 1);
}

#[test]
fn test_potions_take_effect_and_are_consumed() {
    let mut session = BattleSession::new(
        CharacterClass::Duelist,
        vec![],
        vec![Potion::Health, Potion::Strength, Potion::Energy],
        0,
        vec![],
        &vec![EnemyKind::Goblin],
    );
    session.player.health.current = 35;
    assert!(session.use_potion(0).is_ok());
    assert_eq!(session.player.health.current, 45);
    // The remaining potions shifted down.
    assert!(session.use_potion(0).is_ok());
    assert_eq!(session.player.status.strength, 2);
    assert!(session.use_potion(0).is_ok());
    assert_eq!(session.player.energy_current, 5);
    assert!(session.use_potion(0).is_err());
}

#[test]
fn test_out_of_range_or_unaffordable_cards_are_rejected() {
    let mut session = BattleSession::new(
        CharacterClass::Duelist,
        vec![],
        vec![],
        0,
        vec![],
        &vec![EnemyKind::Goblin],
    );
    session.phase = Phase::PlayerTurn;
    assert!(session.play_card(0, None).is_err());
    let mut pricey = six_damage_strike();
    pricey.cost = 9;
    session.hand.push(pricey);
    assert!(session.play_card(0, None).is_err());
    // A rejected intent leaves the session untouched.
    assert_eq!(session.player.energy_current, 3);
    assert_eq!(session.hand.len(), 1);
}

#[test]
fn test_finisher_consumes_combo_and_doubles() {
    let mut session = BattleSession::new(
        CharacterClass::Duelist,
        vec![],
        vec![],
        0,
        vec![],
        &vec![EnemyKind::Orc],
    );
    session.enemies[0].health.current = 40;
    session.player.combo = 3;
    session.phase = Phase::PlayerTurn;
    let mut blade = six_damage_strike();
    blade.name = "Heavy Blade".to_string();
    blade.damage = 16;
    blade.cost = 2;
    blade.finisher_combo_cost = 3;
    session.hand.push(blade);
    assert!(session.play_card(0, Some(0)).is_ok());
    assert_eq!(session.player.combo, 0);
    session.step_player_attack(2000);
    // 16 doubled to 32 by the finisher, resolved with a Miss.
    assert_eq!(session.enemies[0].health.current, 40 - 32);
}

#[test]
fn test_stone_spell_shatters_frozen_for_double_damage() {
    let mut session = BattleSession::new(
        CharacterClass::Spellweaver,
        vec![],
        vec![],
        0,
        vec![],
        &vec![EnemyKind::Goblin],
    );
    session.player.mana = 3;
    session.enemies[0].status.apply(StatusKind::Frozen, 2);
    session.hand.push(deckbattle::stone_essence());
    session.hand.push(deckbattle::magic_bolt());
    session.phase = Phase::PlayerTurn;
    assert!(session.play_card(0, Some(0)).is_ok());
    assert_eq!(session.player.spell.bonus_damage, 3);
    assert!(session.play_card(0, Some(0)).is_ok());
    assert_eq!(session.phase, Phase::PlayerAttackAnimating);
    session.step_player_attack(2000);
    // 6 (bolt) + 3 (essence) resolved with a Miss, then doubled by the
    // shatter: 18 damage; the frozen is gone and the hit is hard enough to
    // stun.
    assert_eq!(session.enemies[0].health.current, 20 - 18);
    assert_eq!(session.enemies[0].status.frozen, 0);
    assert_eq!(session.enemies[0].status.stun, 1);
}

#[test]
fn test_wind_spell_hits_everyone_and_spreads_burning() {
    let mut session = BattleSession::new(
        CharacterClass::Spellweaver,
        vec![],
        vec![],
        0,
        vec![],
        &vec![EnemyKind::Goblin, EnemyKind::Goblin],
    );
    session.player.mana = 3;
    session.enemies[0].status.apply(StatusKind::Burning, 4);
    session.hand.push(deckbattle::wind_essence());
    session.hand.push(deckbattle::magic_bolt());
    session.phase = Phase::PlayerTurn;
    assert!(session.play_card(0, None).is_ok());
    assert!(session.play_card(0, None).is_ok());
    session.step_player_attack(2000);
    // The wind-tagged spell strikes both enemies for 9 and copies the
    // first target's burning onto the second.
    assert_eq!(session.enemies[0].health.current, 20 - 9);
    assert_eq!(session.enemies[1].health.current, 20 - 9);
    assert_eq!(session.enemies[0].status.burning, 4);
    assert_eq!(session.enemies[1].status.burning, 4);
    assert_eq!(session.phase, Phase::PlayerTurn);
}

#[test]
fn test_ice_spell_extinguishes_burning() {
    let mut session = BattleSession::new(
        CharacterClass::Spellweaver,
        vec![],
        vec![],
        0,
        vec![],
        &vec![EnemyKind::Goblin],
    );
    session.player.mana = 3;
    session.enemies[0].status.apply(StatusKind::Burning, 3);
    session.hand.push(deckbattle::ice_essence());
    session.hand.push(deckbattle::magic_bolt());
    session.phase = Phase::PlayerTurn;
    assert!(session.play_card(0, Some(0)).is_ok());
    assert!(session.play_card(0, Some(0)).is_ok());
    session.step_player_attack(2000);
    assert_eq!(session.enemies[0].status.burning, 0);
    assert_eq!(session.enemies[0].health.current, 20 - 9);
}

#[test]
fn test_fire_spell_melts_frozen_without_doubling() {
    let mut session = BattleSession::new(
        CharacterClass::Spellweaver,
        vec![],
        vec![],
        0,
        vec![],
        &vec![EnemyKind::Goblin],
    );
    session.player.mana = 3;
    session.enemies[0].status.apply(StatusKind::Frozen, 2);
    session.hand.push(deckbattle::fire_essence());
    session.hand.push(deckbattle::magic_bolt());
    session.phase = Phase::PlayerTurn;
    assert!(session.play_card(0, Some(0)).is_ok());
    assert!(session.play_card(0, Some(0)).is_ok());
    session.step_player_attack(2000);
    // Melted, not shattered: the damage stays at 9.
    assert_eq!(session.enemies[0].status.frozen, 0);
    assert_eq!(session.enemies[0].health.current, 20 - 9);
}
