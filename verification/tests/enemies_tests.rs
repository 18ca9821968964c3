use deckbattle::EnemyKind;
use deckbattle::NodeType;
use deckbattle::enemy_max_health;
use deckbattle::enemy_name;
use deckbattle::generate_enemy_move;
use deckbattle::plan_encounter;

#[test]
fn test_enemy_health_table() {
    assert_eq!(enemy_max_health(EnemyKind::Goblin), 20);
    assert_eq!(enemy_max_health(EnemyKind::Orc), 40);
    assert_eq!(enemy_max_health(EnemyKind::Dragon), 150);
    assert_eq!(enemy_max_health(EnemyKind::DarkKnight), 80);
    assert_eq!(enemy_name(EnemyKind::DarkKnight), "Dark Knight");
}

#[test]
fn test_goblin_move_table() {
    let stab = generate_enemy_move(EnemyKind::Goblin, false, 0);
    assert_eq!(stab.name, "Stabs");
    assert_eq!(stab.damage, 5);
    let stab_edge = generate_enemy_move(EnemyKind::Goblin, false, 59);
    assert_eq!(stab_edge.name, "Stabs");
    let thieve = generate_enemy_move(EnemyKind::Goblin, false, 60);
    assert_eq!(thieve.name, "Thieve");
    assert_eq!(thieve.damage, 3);
    assert_eq!(thieve.steal_gold, 10);
}

#[test]
fn test_orc_move_table() {
    assert_eq!(generate_enemy_move(EnemyKind::Orc, false, 49).name, "Smashes");
    assert_eq!(generate_enemy_move(EnemyKind::Orc, false, 50).damage, 18);
    let defend = generate_enemy_move(EnemyKind::Orc, false, 80);
    assert_eq!(defend.name, "Defends");
    assert_eq!(defend.damage, 0);
    assert_eq!(defend.block, 15);
}

#[test]
fn test_dragon_charges_then_unleashes() {
    let breath_in = generate_enemy_move(EnemyKind::Dragon, false, 70);
    assert_eq!(breath_in.name, "Deep Breath");
    assert!(breath_in.is_charging);
    // The turn after a charge ignores the roll entirely.
    let release = generate_enemy_move(EnemyKind::Dragon, true, 99);
    assert_eq!(release.name, "Fire Breath");
    assert_eq!(release.damage, 50);
    assert!(!release.is_charging);
}

#[test]
fn test_dark_knight_move_table() {
    assert_eq!(
        generate_enemy_move(EnemyKind::DarkKnight, false, 39).name,
        "Executes"
    );
    assert_eq!(
        generate_enemy_move(EnemyKind::DarkKnight, false, 69).damage,
        25
    );
    let magic = generate_enemy_move(EnemyKind::DarkKnight, false, 70);
    assert_eq!(magic.name, "Dark Magic");
    assert_eq!(magic.poison, 3);
}

#[test]
fn test_encounter_plans() {
    assert_eq!(
        plan_encounter(NodeType::Boss, 14, 0, 0),
        vec![EnemyKind::Dragon]
    );
    assert_eq!(
        plan_encounter(NodeType::Elite, 4, 0, 0),
        vec![EnemyKind::DarkKnight]
    );
    assert_eq!(
        plan_encounter(NodeType::Battle, 5, 0, 0),
        vec![EnemyKind::Orc, EnemyKind::Goblin]
    );
    assert_eq!(plan_encounter(NodeType::Battle, 5, 60, 0), vec![EnemyKind::Orc]);
    assert_eq!(
        plan_encounter(NodeType::Battle, 0, 0, 0),
        vec![EnemyKind::Goblin, EnemyKind::Goblin, EnemyKind::Goblin]
    );
    assert_eq!(
        plan_encounter(NodeType::Battle, 0, 0, 30),
        vec![EnemyKind::Goblin, EnemyKind::Goblin]
    );
    assert_eq!(plan_encounter(NodeType::Battle, 0, 50, 0), vec![EnemyKind::Orc]);
}
