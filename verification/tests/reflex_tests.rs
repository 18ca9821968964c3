use deckbattle::ReflexState;
use deckbattle::ReflexSuccess;
use deckbattle::scaled_damage;
use deckbattle::score_at;

#[test]
fn test_exact_window_start_is_perfect() {
    assert_eq!(score_at(700, 700, 800), ReflexSuccess::Perfect);
    assert_eq!(score_at(800, 700, 800), ReflexSuccess::Perfect);
}

#[test]
fn test_just_outside_band_is_miss() {
    // One thousandth before the widened band's start.
    assert_eq!(score_at(599, 700, 800), ReflexSuccess::Miss);
    // One thousandth past the widened band's end.
    assert_eq!(score_at(901, 700, 800), ReflexSuccess::Miss);
}

#[test]
fn test_widened_band_is_good() {
    assert_eq!(score_at(600, 700, 800), ReflexSuccess::Good);
    assert_eq!(score_at(699, 700, 800), ReflexSuccess::Good);
    assert_eq!(score_at(801, 700, 800), ReflexSuccess::Good);
    assert_eq!(score_at(900, 700, 800), ReflexSuccess::Good);
}

#[test]
fn test_expiry_without_input_is_miss() {
    let mut reflex = ReflexState::new_defensive(12);
    reflex.tick(5000);
    assert!(reflex.expired());
    let result = reflex.resolve_timeout();
    assert_eq!(result, ReflexSuccess::Miss);
    assert_eq!(reflex.result, Some(ReflexSuccess::Miss));
}

#[test]
fn test_input_after_expiry_is_miss() {
    let mut reflex = ReflexState::new_offensive(12);
    reflex.tick(1000);
    reflex.trigger();
    assert_eq!(reflex.result, Some(ReflexSuccess::Miss));
}

#[test]
fn test_result_is_set_at_most_once() {
    let mut reflex = ReflexState::new_offensive(12);
    reflex.tick(750);
    reflex.trigger();
    assert_eq!(reflex.result, Some(ReflexSuccess::Perfect));
    // A second input cannot overwrite the result.
    reflex.tick(240);
    reflex.trigger();
    assert_eq!(reflex.result, Some(ReflexSuccess::Perfect));
}

#[test]
fn test_perfect_window_scores_during_timer() {
    let mut reflex = ReflexState::new_defensive(30);
    reflex.tick(750);
    reflex.trigger();
    assert_eq!(reflex.result, Some(ReflexSuccess::Perfect));
}

#[test]
fn test_outcome_multipliers() {
    // Offensive: Perfect x1.5, Good x1.25, Miss x1.0, all truncated.
    assert_eq!(scaled_damage(10, ReflexSuccess::Perfect, false), 15);
    assert_eq!(scaled_damage(10, ReflexSuccess::Good, false), 12);
    assert_eq!(scaled_damage(10, ReflexSuccess::Miss, false), 10);
    // Defensive: Perfect x0.1, Good x0.5, Miss x1.0.
    assert_eq!(scaled_damage(10, ReflexSuccess::Perfect, true), 1);
    assert_eq!(scaled_damage(10, ReflexSuccess::Good, true), 5);
    assert_eq!(scaled_damage(10, ReflexSuccess::Miss, true), 10);
    assert_eq!(scaled_damage(19, ReflexSuccess::Perfect, true), 1);
}
