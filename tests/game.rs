use memory_game::char_type::CharType;
use memory_game::game::{matches_answer, mismatch_message, MemoryGame};
use memory_game::input_direction::InputDirection;
use memory_game::model::{GamePhase, ValidationMode};

fn d(c: u8) -> CharType {
    CharType::Number(c)
}

fn l(c: u8) -> CharType {
    CharType::Letter(c)
}

fn valid(s: &CharType) -> bool {
    match s {
        CharType::Number(n) => (b'0'..=b'9').contains(n),
        CharType::Letter(c) => (b'A'..=b'Z').contains(c),
    }
}

/// A game on `target`, ticked until input begins.
fn ready(target: Vec<CharType>, dir: InputDirection, mode: ValidationMode) -> MemoryGame {
    let mut g = MemoryGame::new();
    g.set_mode(mode);
    g.begin_round(target, dir);
    for _ in 0..1000 {
        g.tick(100);
    }
    assert_eq!(g.snapshot().phase, GamePhase::Inputting);
    g
}

#[test]
fn new_game_is_not_started_and_lenient() {
    let s = MemoryGame::new().snapshot();
    assert_eq!(s.phase, GamePhase::NotStarted);
    assert_eq!(s.mode, ValidationMode::Lenient);
    assert!(s.entered.is_empty() && s.visible.is_empty() && s.error_message.is_none());
}

#[test]
fn generated_sequences_have_length_and_valid_symbols() {
    for len in [1usize, 5, 40] {
        let (seq, _) = MemoryGame::generate_sequence(len);
        assert_eq!(seq.len(), len);
        assert!(seq.iter().all(valid));
    }
}

#[test]
fn start_game_shows_five_valid_symbols() {
    let mut g = MemoryGame::new();
    g.set_mode(ValidationMode::Strict);
    g.start_game();
    let s = g.snapshot();
    assert_eq!(s.phase, GamePhase::ShowingSequence);
    assert_eq!(s.mode, ValidationMode::Strict);
    assert!(s.visible.is_empty());
    for _ in 0..32 {
        g.tick(100);
    }
    let s = g.snapshot();
    assert_eq!(s.visible.len(), 4);
    assert!(s.visible.iter().all(valid));
    for _ in 0..8 {
        g.tick(100);
    }
    assert_eq!(g.snapshot().phase, GamePhase::Inputting);
}

#[test]
fn snapshot_twice_is_identical() {
    let mut g = ready(vec![d(b'3'), l(b'A')], InputDirection::Forward, ValidationMode::Lenient);
    g.process_input(d(b'3'));
    assert_eq!(g.snapshot(), g.snapshot());
}

#[test]
fn forward_exact_entry_succeeds() {
    let target = vec![d(b'1'), l(b'B'), d(b'9'), l(b'Z'), l(b'C')];
    for mode in [ValidationMode::Lenient, ValidationMode::Strict] {
        let mut g = ready(target.clone(), InputDirection::Forward, mode);
        for s in &target {
            g.process_input(*s);
        }
        let s = g.snapshot();
        assert_eq!(s.phase, GamePhase::Success);
        assert_eq!(s.entered, target);
        assert_eq!(s.target, target);
        assert_eq!(s.answer, target);
        assert!(s.error_message.is_none());
    }
}

#[test]
fn reverse_entry_of_reversed_target_succeeds() {
    let target = vec![d(b'1'), l(b'B'), d(b'9'), l(b'Z'), l(b'C')];
    let rev: Vec<CharType> = target.iter().rev().cloned().collect();
    for mode in [ValidationMode::Lenient, ValidationMode::Strict] {
        let mut g = ready(target.clone(), InputDirection::Reverse, mode);
        for s in &rev {
            g.process_input(*s);
        }
        let s = g.snapshot();
        assert_eq!(s.phase, GamePhase::Success);
        assert_eq!(s.target, target);
        assert_eq!(s.answer, rev);
    }
}

#[test]
fn reverse_entry_in_forward_order_fails() {
    let target = vec![d(b'1'), l(b'B')];
    let mut g = ready(target, InputDirection::Reverse, ValidationMode::Lenient);
    g.process_input(d(b'1'));
    g.process_input(l(b'B'));
    let s = g.snapshot();
    assert_eq!(s.phase, GamePhase::GameOver);
    assert_eq!(s.answer, vec![l(b'B'), d(b'1')]);
}

#[test]
fn strict_mismatch_ends_at_once() {
    let mut g = ready(vec![d(b'3'), l(b'A')], InputDirection::Forward, ValidationMode::Strict);
    g.process_input(l(b'A'));
    let s = g.snapshot();
    assert_eq!(s.phase, GamePhase::GameOver);
    assert_eq!(s.entered.len(), 1);
    assert_eq!(s.error_message, Some("Wrong! Expected '3' but got 'A'".to_string()));
}

#[test]
fn strict_mismatch_in_reverse_names_last_symbol() {
    let mut g = ready(vec![d(b'3'), l(b'A')], InputDirection::Reverse, ValidationMode::Strict);
    g.process_input(d(b'3'));
    let s = g.snapshot();
    assert_eq!(s.phase, GamePhase::GameOver);
    assert_eq!(s.error_message, Some("Wrong! Expected 'A' but got '3'".to_string()));
}

#[test]
fn lenient_mismatch_waits_for_full_entry() {
    let mut g = ready(vec![d(b'3'), l(b'A')], InputDirection::Forward, ValidationMode::Lenient);
    g.process_input(l(b'A'));
    let s = g.snapshot();
    assert_eq!(s.phase, GamePhase::Inputting);
    assert!(s.error_message.is_none());
    g.process_input(l(b'A'));
    let s = g.snapshot();
    assert_eq!(s.phase, GamePhase::GameOver);
    assert_eq!(s.error_message, Some("Sequence is incorrect!".to_string()));
}

#[test]
fn strict_delete_after_game_over_changes_nothing() {
    let mut g = ready(vec![d(b'3'), l(b'A')], InputDirection::Forward, ValidationMode::Strict);
    g.process_input(l(b'A'));
    let before = g.snapshot();
    g.delete_last();
    assert_eq!(g.snapshot(), before);
}

#[test]
fn strict_delete_keeps_error_clear() {
    let mut g = ready(vec![d(b'3'), l(b'A'), d(b'5')], InputDirection::Forward, ValidationMode::Strict);
    g.process_input(d(b'3'));
    g.process_input(l(b'A'));
    g.delete_last();
    let s = g.snapshot();
    assert_eq!(s.entered, vec![d(b'3')]);
    assert_eq!(s.phase, GamePhase::Inputting);
    assert!(s.error_message.is_none());
    g.delete_last();
    assert!(g.snapshot().entered.is_empty());
    g.delete_last();
    assert!(g.snapshot().entered.is_empty());
}

#[test]
fn lenient_delete_then_correct_entry_succeeds() {
    let mut g = ready(vec![d(b'3'), l(b'A')], InputDirection::Forward, ValidationMode::Lenient);
    g.process_input(l(b'A'));
    g.delete_last();
    g.process_input(d(b'3'));
    g.process_input(l(b'A'));
    assert_eq!(g.snapshot().phase, GamePhase::Success);
}

#[test]
fn reveal_one_symbol_per_800_ms() {
    let mut g = MemoryGame::new();
    g.begin_round(vec![d(b'1'), d(b'2'), d(b'3')], InputDirection::Forward);
    for n in 0..3usize {
        let s = g.snapshot();
        assert_eq!(s.phase, GamePhase::ShowingSequence);
        assert_eq!(s.visible.len(), n);
        for _ in 0..8 {
            g.tick(100);
        }
    }
    assert_eq!(g.snapshot().phase, GamePhase::Inputting);
}

#[test]
fn reveal_with_uneven_ticks() {
    let mut g = MemoryGame::new();
    g.begin_round(vec![d(b'1'), d(b'2')], InputDirection::Forward);
    for t in [50u64, 100, 30, 70, 100, 100, 100, 100, 50, 100] {
        g.tick(t);
    }
    let s = g.snapshot();
    assert_eq!(s.visible, vec![d(b'1')]);
    g.tick(99);
    assert_eq!(g.snapshot().visible.len(), 1);
    for _ in 0..7 {
        g.tick(100);
    }
    assert_eq!(g.snapshot().phase, GamePhase::ShowingSequence);
    g.tick(1);
    assert_eq!(g.snapshot().phase, GamePhase::Inputting);
}

#[test]
fn long_tick_counts_as_100_ms() {
    let mut g = MemoryGame::new();
    g.begin_round(vec![d(b'1')], InputDirection::Forward);
    g.tick(10_000);
    assert_eq!(g.snapshot().phase, GamePhase::ShowingSequence);
    for _ in 0..7 {
        g.tick(u64::MAX);
    }
    assert_eq!(g.snapshot().phase, GamePhase::Inputting);
}

#[test]
fn input_ignored_outside_input_phase() {
    let mut g = MemoryGame::new();
    let before = g.snapshot();
    g.process_input(d(b'1'));
    g.delete_last();
    assert_eq!(g.snapshot(), before);

    g.begin_round(vec![d(b'1')], InputDirection::Forward);
    let before = g.snapshot();
    g.process_input(d(b'1'));
    g.delete_last();
    assert_eq!(g.snapshot(), before);

    let mut g = ready(vec![d(b'1')], InputDirection::Forward, ValidationMode::Lenient);
    g.process_input(d(b'1'));
    let before = g.snapshot();
    assert_eq!(before.phase, GamePhase::Success);
    g.process_input(d(b'2'));
    g.delete_last();
    assert_eq!(g.snapshot(), before);

    let mut g = ready(vec![d(b'1')], InputDirection::Forward, ValidationMode::Lenient);
    g.process_input(d(b'2'));
    let before = g.snapshot();
    assert_eq!(before.phase, GamePhase::GameOver);
    g.process_input(d(b'1'));
    g.delete_last();
    assert_eq!(g.snapshot(), before);
}

#[test]
fn ticks_ignored_outside_showing() {
    let mut g = ready(vec![d(b'1'), d(b'2')], InputDirection::Forward, ValidationMode::Lenient);
    let before = g.snapshot();
    g.tick(100);
    assert_eq!(g.snapshot(), before);
}

#[test]
fn restart_clears_round() {
    let mut g = ready(vec![d(b'3'), l(b'A')], InputDirection::Forward, ValidationMode::Strict);
    g.process_input(l(b'A'));
    g.start_game();
    let s = g.snapshot();
    assert_eq!(s.phase, GamePhase::ShowingSequence);
    assert!(s.entered.is_empty() && s.error_message.is_none());
    assert_eq!(s.mode, ValidationMode::Strict);
}

#[test]
fn mismatch_message_text() {
    assert_eq!(mismatch_message('X', '4'), "Wrong! Expected 'X' but got '4'");
}

#[test]
fn answer_matching() {
    let t = vec![d(b'1'), l(b'B'), l(b'C')];
    let r = vec![l(b'C'), l(b'B'), d(b'1')];
    assert!(matches_answer(&t, &t, InputDirection::Forward));
    assert!(!matches_answer(&r, &t, InputDirection::Forward));
    assert!(matches_answer(&r, &t, InputDirection::Reverse));
    assert!(!matches_answer(&t, &t, InputDirection::Reverse));
}
