use deckbattle::StatusKind;
use deckbattle::StatusStore;
use deckbattle::VALUE_CAP;

#[test]
fn test_apply_is_additive() {
    let mut status = StatusStore::new();
    status.apply(StatusKind::Poison, 4);
    status.apply(StatusKind::Poison, 2);
    status.apply(StatusKind::Weak, 1);
    assert_eq!(status.poison, 6);
    assert_eq!(status.weak, 1);
    assert_eq!(status.strength, 0);
}

#[test]
fn test_start_of_turn_tick_deals_dot_and_fades() {
    let mut status = StatusStore::new();
    status.apply(StatusKind::Poison, 3);
    status.apply(StatusKind::Burning, 2);
    let dot = status.tick_start_of_turn();
    assert_eq!(dot, 5);
    assert_eq!(status.poison, 2);
    assert_eq!(status.burning, 1);
    // Ticking at zero stays at zero: counters never go negative.
    let mut clean = StatusStore::new();
    assert_eq!(clean.tick_start_of_turn(), 0);
    assert_eq!(clean.poison, 0);
    assert_eq!(clean.burning, 0);
}

#[test]
fn test_weak_decay_stops_at_zero() {
    let mut status = StatusStore::new();
    status.apply(StatusKind::Weak, 1);
    status.decay_weak();
    assert_eq!(status.weak, 0);
    status.decay_weak();
    assert_eq!(status.weak, 0);
}

#[test]
fn test_tick_and_decay_never_raise_counters() {
    let mut status = StatusStore::new();
    status.apply(StatusKind::Poison, 7);
    status.apply(StatusKind::Weak, 2);
    status.apply(StatusKind::Stun, 1);
    status.apply(StatusKind::Frozen, 3);
    status.apply(StatusKind::Burning, 4);
    status.apply(StatusKind::Strength, 5);
    let before = status;
    status.tick_start_of_turn();
    status.decay_weak();
    assert!(status.poison <= before.poison);
    assert!(status.weak <= before.weak);
    assert!(status.stun <= before.stun);
    assert!(status.frozen <= before.frozen);
    assert!(status.burning <= before.burning);
    assert_eq!(status.strength, before.strength);
}

#[test]
fn test_apply_saturates_at_the_cap() {
    let mut status = StatusStore::new();
    status.apply(StatusKind::Poison, VALUE_CAP);
    status.apply(StatusKind::Poison, 10);
    assert_eq!(status.poison, VALUE_CAP);
}
