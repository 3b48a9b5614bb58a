use tetris_engine::scoring::{calculate_level, calculate_score, reset_level_and_score, Scoring};

#[test]
fn score_for_simultaneous_clears() {
    assert_eq!(calculate_score(1, 1), 100);
    assert_eq!(calculate_score(2, 1), 300);
    assert_eq!(calculate_score(3, 2), 1000);
    assert_eq!(calculate_score(4, 3), 2400);
}

#[test]
fn score_outside_one_to_four_is_zero() {
    assert_eq!(calculate_score(0, 5), 0);
    assert_eq!(calculate_score(5, 5), 0);
    assert_eq!(calculate_score(26, 1), 0);
}

#[test]
fn level_is_one_per_ten_lines() {
    assert_eq!(calculate_level(&0), 1);
    assert_eq!(calculate_level(&9), 1);
    assert_eq!(calculate_level(&10), 2);
    assert_eq!(calculate_level(&25), 3);
    assert_eq!(calculate_level(&100), 11);
}

#[test]
fn scoring_starts_at_level_one() {
    assert_eq!(Scoring::new(), Scoring { level: 1, score: 0, lines_cleared: 0 });
}

#[test]
fn recording_lines_adds_score_on_the_level_held_before() {
    let mut scoring = Scoring { level: 1, score: 50, lines_cleared: 8 };
    let level_up = scoring.record_lines(4);
    assert!(level_up);
    assert_eq!(scoring, Scoring { level: 2, score: 850, lines_cleared: 12 });
    let level_up = scoring.record_lines(1);
    assert!(!level_up);
    assert_eq!(scoring, Scoring { level: 2, score: 1050, lines_cleared: 13 });
}

#[test]
fn recording_no_lines_changes_nothing() {
    let mut scoring = Scoring { level: 3, score: 700, lines_cleared: 21 };
    assert!(!scoring.record_lines(0));
    assert_eq!(scoring, Scoring { level: 3, score: 700, lines_cleared: 21 });
}

#[test]
fn reset_gives_the_initial_scoring() {
    let mut scoring = Scoring { level: 7, score: 12345, lines_cleared: 66 };
    reset_level_and_score(&mut scoring);
    assert_eq!(scoring, Scoring { level: 1, score: 0, lines_cleared: 0 });
}
