use driftline::mode::SimulationMode;
use driftline::outcome::OutcomeKind;
use driftline::text::{
    attempt_status, closest_class, closest_message, collision_class, decimal_text, path_class,
    result_message,
};

#[test]
fn attempt_status_names_wins_and_failures() {
    assert_eq!(attempt_status(true), "succès");
    assert_eq!(attempt_status(false), "échec");
}

#[test]
fn decimal_text_writes_numbers() {
    assert_eq!(decimal_text(0), "0");
    assert_eq!(decimal_text(7), "7");
    assert_eq!(decimal_text(10), "10");
    assert_eq!(decimal_text(1204), "1204");
    assert_eq!(decimal_text(usize::MAX), usize::MAX.to_string());
}

#[test]
fn closest_message_reports_the_distance() {
    assert_eq!(
        closest_message(Some("0.42")),
        "Son passage le plus proche de la balise est à 0.42 unité."
    );
    assert_eq!(closest_message(None), "Aucun passage n'a pu être mesuré.");
}

#[test]
fn reaching_the_beacon_is_a_win() {
    let (text, won) = result_message(&OutcomeKind::Reached, Some("0.10"));
    assert_eq!(text, "La sonde a atteint la balise.");
    assert!(won);
}

#[test]
fn collision_message_numbers_asteroids_from_one() {
    let (text, won) = result_message(&OutcomeKind::Collision { obstacle: 0 }, None);
    assert_eq!(text, "La sonde a percuté l'astéroïde 1. Le point rouge indique l'impact.");
    assert!(!won);
    let (text, _) = result_message(&OutcomeKind::Collision { obstacle: 11 }, None);
    assert_eq!(text, "La sonde a percuté l'astéroïde 12. Le point rouge indique l'impact.");
}

#[test]
fn leaving_the_field_reports_the_closest_pass() {
    let (text, won) = result_message(&OutcomeKind::LeftField, Some("1.25"));
    assert_eq!(
        text,
        "La sonde a quitté la zone. Son passage le plus proche de la balise est à 1.25 unité."
    );
    assert!(!won);
}

#[test]
fn time_limit_without_a_measured_pass() {
    let (text, won) = result_message(&OutcomeKind::TimeLimit, None);
    assert_eq!(
        text,
        "La sonde a circulé trop longtemps. Aucun passage n'a pu être mesuré."
    );
    assert!(!won);
}

#[test]
fn numerical_failure_asks_for_a_reset() {
    let (text, won) = result_message(&OutcomeKind::NumericalFailure, Some("3.00"));
    assert_eq!(
        text,
        "Le courant n'a pas pu être calculé. Réinitialise la simulation."
    );
    assert!(!won);
}

#[test]
fn outcome_kinds_tell_wins_and_collisions() {
    assert!(OutcomeKind::Reached.reached());
    assert!(!OutcomeKind::Reached.collided());
    assert!(OutcomeKind::Collision { obstacle: 2 }.collided());
    assert!(!OutcomeKind::Collision { obstacle: 2 }.reached());
    assert!(!OutcomeKind::LeftField.reached());
    assert!(!OutcomeKind::LeftField.collided());
    assert!(!OutcomeKind::TimeLimit.collided());
    assert!(!OutcomeKind::NumericalFailure.reached());
}

#[test]
fn only_missions_check_the_beacon_and_asteroids() {
    assert!(SimulationMode::Mission.checks_targets());
    assert!(!SimulationMode::Exploration.checks_targets());
}

#[test]
fn closest_pass_is_marked_only_after_a_miss() {
    assert!(!OutcomeKind::Reached.shows_closest_pass());
    assert!(OutcomeKind::LeftField.shows_closest_pass());
    assert!(OutcomeKind::Collision { obstacle: 0 }.shows_closest_pass());
    assert!(OutcomeKind::TimeLimit.shows_closest_pass());
}

#[test]
fn animated_drawing_styles() {
    assert_eq!(path_class(true, true), "path active-path");
    assert_eq!(path_class(true, false), "path");
    assert_eq!(path_class(false, true), "path");
    assert_eq!(closest_class(true), "closest-point diagnostic-point");
    assert_eq!(closest_class(false), "closest-point");
    assert_eq!(collision_class(true), "collision-point diagnostic-point");
    assert_eq!(collision_class(false), "collision-point");
}
