use deckbattle::Command;
use deckbattle::parse_command;

#[test]
fn test_parse_play_with_target() {
    assert_eq!(
        parse_command(b"play 0 1"),
        Command::Play { hand_index: 0, target_index: Some(1) }
    );
}

#[test]
fn test_parse_play_without_target() {
    assert_eq!(
        parse_command(b"play 3"),
        Command::Play { hand_index: 3, target_index: None }
    );
}

#[test]
fn test_parse_play_bad_target_is_dropped() {
    // A malformed target is treated as absent, as a malformed optional
    // argument is ignored.
    assert_eq!(
        parse_command(b"play 2 x"),
        Command::Play { hand_index: 2, target_index: None }
    );
}

#[test]
fn test_parse_play_requires_a_hand_index() {
    assert_eq!(parse_command(b"play"), Command::Invalid);
    assert_eq!(parse_command(b"play abc"), Command::Invalid);
}

#[test]
fn test_parse_simple_commands() {
    assert_eq!(parse_command(b"end"), Command::End);
    assert_eq!(parse_command(b"reflex"), Command::Reflex);
    assert_eq!(parse_command(b"help"), Command::Help);
    assert_eq!(parse_command(b"map 2"), Command::MapNode { index: 2 });
    assert_eq!(parse_command(b"map"), Command::Invalid);
}

#[test]
fn test_parse_is_case_insensitive_and_trims() {
    assert_eq!(parse_command(b"END"), Command::End);
    assert_eq!(
        parse_command(b"  Play  4  "),
        Command::Play { hand_index: 4, target_index: None }
    );
}

#[test]
fn test_parse_rejects_unknown_words_and_blank_lines() {
    assert_eq!(parse_command(b""), Command::Empty);
    assert_eq!(parse_command(b"   "), Command::Empty);
    assert_eq!(parse_command(b"attack 1"), Command::Invalid);
}

#[test]
fn test_parse_rejects_numbers_beyond_the_machine() {
    assert_eq!(parse_command(b"play 99999999999999999999999999"), Command::Invalid);
}
