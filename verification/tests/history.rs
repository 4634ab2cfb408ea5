use driftline::history::{archive_active_attempt, push_attempt, record_attempt, HISTORY_LIMIT};
use driftline::mode::SimulationMode;

#[test]
fn history_keeps_only_three_attempts() {
    let mut history = Vec::new();
    for k in 0..5 {
        push_attempt(&mut history, k as f64);
    }
    assert_eq!(history.len(), HISTORY_LIMIT);
    assert_eq!(history[0], 2.0);
    assert_eq!(history[2], 4.0);
}

#[test]
fn history_below_the_limit_keeps_every_attempt() {
    let mut history = vec![1u32, 2];
    push_attempt(&mut history, 3);
    assert_eq!(history, vec![1, 2, 3]);
}

#[test]
fn full_history_drops_the_oldest_attempt() {
    let mut history = vec![1u32, 2, 3];
    push_attempt(&mut history, 4);
    assert_eq!(history, vec![2, 3, 4]);
}

#[test]
fn history_keeps_the_last_three_of_a_long_run() {
    let mut history = Vec::new();
    for k in 0..10u32 {
        push_attempt(&mut history, k);
        assert!(history.len() <= HISTORY_LIMIT);
    }
    assert_eq!(history, vec![7, 8, 9]);
}

#[test]
fn archiving_moves_the_displayed_attempt_into_the_history() {
    let mut active = Some(5u32);
    let mut history = vec![1, 2, 3];
    archive_active_attempt(&mut active, &mut history);
    assert_eq!(active, None);
    assert_eq!(history, vec![2, 3, 5]);
}

#[test]
fn archiving_without_a_displayed_attempt_changes_nothing() {
    let mut active: Option<u32> = None;
    let mut history = vec![1, 2];
    archive_active_attempt(&mut active, &mut history);
    assert_eq!(active, None);
    assert_eq!(history, vec![1, 2]);
}

#[test]
fn recording_in_a_mission_keeps_three_attempts() {
    let mut history = vec![1u32, 2, 3];
    record_attempt(&mut history, 4, SimulationMode::Mission);
    assert_eq!(history, vec![2, 3, 4]);
}

#[test]
fn recording_in_an_exploration_keeps_every_attempt() {
    let mut history = vec![1u32, 2, 3];
    record_attempt(&mut history, 4, SimulationMode::Exploration);
    assert_eq!(history, vec![1, 2, 3, 4]);
}
