use std::collections::VecDeque;
use tetris_engine::engine::{
    check_for_lines, lock_in_tetromino, Engine, LockOutcome, LockState, TickReport,
};
use tetris_engine::game_manager::{
    detect_restart_game, detect_start_game, GamePhase, GameState, Intent,
};
use tetris_engine::grid::{CellState, Grid};
use tetris_engine::queue::TetrominoQueue;
use tetris_engine::scoring::Scoring;
use tetris_engine::tetromino::{Tetromino, TetrominoColor, TetrominoLetter};
use tetris_engine::timers::{GravityTimer, LockInTimer};

fn bag() -> Vec<TetrominoLetter> {
    vec![
        TetrominoLetter::T,
        TetrominoLetter::I,
        TetrominoLetter::O,
        TetrominoLetter::S,
        TetrominoLetter::Z,
        TetrominoLetter::J,
        TetrominoLetter::L,
    ]
}

fn piece_at(letter: TetrominoLetter, x: i32, y: i32) -> Tetromino {
    let mut piece = Tetromino::create_tetromino(letter);
    piece.position = (x, y);
    piece
}

fn fill(grid: &mut Grid, x: usize, y: usize) {
    grid.cells[y * 10 + x] = CellState::Filled(TetrominoColor::Cyan);
}

/// A game in play with a known queue and the given active piece.
fn playing(active: Tetromino) -> Engine {
    let mut engine = Engine::new();
    engine.game_state.phase = GamePhase::Playing;
    engine.queue.refill_with(&bag());
    engine.active = Some(active);
    engine
}

fn quiet() -> TickReport {
    TickReport {
        redraw_needed: false,
        piece_locked: false,
        lines_cleared: 0,
        level_up: false,
        game_over: false,
        piece_spawned: false,
    }
}

fn assert_is_bag(letters: &[TetrominoLetter]) {
    assert_eq!(letters.len(), 7);
    for letter in bag() {
        assert_eq!(letters.iter().filter(|l| **l == letter).count(), 1);
    }
}

#[test]
fn a_new_engine_has_not_started() {
    let engine = Engine::new();
    assert_eq!(engine.game_state.phase, GamePhase::NotStarted);
    assert_eq!(engine.grid, Grid::new());
    assert!(engine.queue.queue.is_empty());
    assert_eq!(engine.scoring, Scoring { level: 1, score: 0, lines_cleared: 0 });
    assert_eq!(engine.active, None);
    assert_eq!(
        engine.gravity_timer,
        GravityTimer { period: 1_000_000, elapsed: 0, just_finished: false }
    );
    assert_eq!(engine.lock_in_timer, LockInTimer { elapsed: 0 });
}

#[test]
fn nothing_happens_before_the_start() {
    let mut engine = Engine::new();
    let report = engine.tick(
        &vec![Intent::MoveLeft, Intent::HardDrop, Intent::RotateCW, Intent::ToggleHelp],
        5_000_000,
    );
    assert_eq!(report, quiet());
    assert_eq!(engine, Engine::new());
}

#[test]
fn the_start_spawns_the_head_of_the_queue() {
    let mut engine = Engine::new();
    engine.queue.refill_with(&bag());
    let report = engine.tick(&vec![Intent::StartGame], 0);
    assert_eq!(report, TickReport { piece_spawned: true, ..quiet() });
    assert_eq!(engine.game_state.phase, GamePhase::Playing);
    assert_eq!(engine.active, Some(Tetromino::create_tetromino(TetrominoLetter::T)));
    assert_eq!(engine.queue.queue, VecDeque::from(bag()[1..].to_vec()));
}

#[test]
fn the_start_refills_an_empty_queue_with_one_bag() {
    let mut engine = Engine::new();
    let report = engine.tick(&vec![Intent::StartGame], 0);
    assert!(report.piece_spawned);
    let active = engine.active.expect("a piece spawned");
    assert_eq!(active, Tetromino::create_tetromino(active.letter));
    assert_eq!(engine.queue.queue.len(), 6);
    let mut letters = vec![active.letter];
    letters.extend(engine.queue.queue.iter().copied());
    assert_is_bag(&letters);
}

#[test]
fn a_second_start_changes_nothing() {
    let mut engine = playing(piece_at(TetrominoLetter::T, 3, 10));
    engine.scoring = Scoring { level: 2, score: 4200, lines_cleared: 13 };
    let before = engine.clone();
    assert_eq!(engine.tick(&vec![Intent::StartGame, Intent::ToggleHelp], 0), quiet());
    assert_eq!(engine, before);
}

#[test]
fn the_queue_is_refilled_when_a_spawn_leaves_one_letter() {
    let mut engine = Engine::new();
    engine.game_state.phase = GamePhase::Playing;
    engine.queue = TetrominoQueue {
        queue: VecDeque::from(vec![TetrominoLetter::T, TetrominoLetter::I, TetrominoLetter::O]),
    };
    assert!(engine.spawn_if_wanted());
    assert_eq!(engine.active, Some(Tetromino::create_tetromino(TetrominoLetter::T)));
    assert_eq!(
        engine.queue.queue,
        VecDeque::from(vec![TetrominoLetter::I, TetrominoLetter::O])
    );
    assert!(!engine.spawn_if_wanted());
    engine.active = None;
    assert!(engine.spawn_if_wanted());
    assert_eq!(engine.active, Some(Tetromino::create_tetromino(TetrominoLetter::I)));
    let rest: Vec<TetrominoLetter> = engine.queue.queue.iter().copied().collect();
    assert_eq!(rest.len(), 8);
    assert_eq!(rest[0], TetrominoLetter::O);
    assert_is_bag(&rest[1..]);
}

#[test]
fn gravity_moves_the_piece_one_row_per_period() {
    let mut engine = playing(Tetromino::create_tetromino(TetrominoLetter::T));
    assert_eq!(engine.tick(&vec![], 999_999), quiet());
    assert_eq!(engine.active.unwrap().position, (3, 21));
    assert_eq!(engine.tick(&vec![], 1), TickReport { redraw_needed: true, ..quiet() });
    assert_eq!(engine.active.unwrap().position, (3, 20));
    assert_eq!(engine.gravity_timer.elapsed, 0);
    assert_eq!(engine.lock_in_timer.elapsed, 0);
}

#[test]
fn intents_are_applied_in_order() {
    let mut engine = playing(Tetromino::create_tetromino(TetrominoLetter::T));
    let report = engine.tick(
        &vec![Intent::MoveLeft, Intent::MoveLeft, Intent::SoftDrop, Intent::MoveRight],
        0,
    );
    assert_eq!(report, TickReport { redraw_needed: true, ..quiet() });
    assert_eq!(engine.active.unwrap().position, (2, 20));
    let report = engine.tick(&vec![Intent::HardDrop, Intent::MoveLeft], 0);
    assert!(report.redraw_needed);
    assert!(!report.piece_locked);
    assert_eq!(engine.active.unwrap().position, (1, 1));
}

#[test]
fn a_hard_drop_does_not_lock_before_the_delay() {
    let mut engine = playing(Tetromino::create_tetromino(TetrominoLetter::T));
    let report = engine.tick(&vec![Intent::HardDrop], 499_999);
    assert_eq!(report, TickReport { redraw_needed: true, ..quiet() });
    assert_eq!(engine.active, Some(piece_at(TetrominoLetter::T, 3, 1)));
    assert_eq!(engine.lock_in_timer.elapsed, 499_999);
    assert_eq!(engine.grid, Grid::new());
    let report = engine.tick(&vec![], 1);
    assert_eq!(report, TickReport { piece_locked: true, piece_spawned: true, ..quiet() });
    assert_eq!(engine.active, Some(Tetromino::create_tetromino(TetrominoLetter::T)));
    let mut expected = Grid::new();
    for (x, y) in [(4, 1), (3, 0), (4, 0), (5, 0)] {
        expected.cells[y * 10 + x] = CellState::Filled(TetrominoColor::Orchid);
    }
    assert_eq!(engine.grid, expected);
    assert_eq!(engine.game_state.phase, GamePhase::Playing);
    assert_eq!(engine.lock_in_timer.elapsed, 0);
    assert_eq!(engine.gravity_timer.elapsed, 0);
    assert_eq!(engine.queue.queue.len(), 6);
}

#[test]
fn a_move_in_the_same_tick_delays_the_lock() {
    let mut engine = playing(piece_at(TetrominoLetter::T, 3, 1));
    engine.lock_in_timer.elapsed = 499_999;
    let report = engine.tick(&vec![Intent::MoveLeft], 1);
    assert_eq!(report, TickReport { redraw_needed: true, ..quiet() });
    assert_eq!(engine.active, Some(piece_at(TetrominoLetter::T, 2, 1)));
    assert_eq!(engine.lock_in_timer.elapsed, 1);
    assert_eq!(engine.grid, Grid::new());
}

#[test]
fn a_refused_move_does_not_delay_the_lock() {
    let mut engine = playing(piece_at(TetrominoLetter::T, 0, 1));
    engine.lock_in_timer.elapsed = 499_999;
    let report = engine.tick(&vec![Intent::MoveLeft], 1);
    assert!(report.piece_locked);
    assert!(!report.redraw_needed);
    assert_eq!(engine.grid.cells[0], CellState::Filled(TetrominoColor::Orchid));
}

#[test]
fn a_lock_clears_full_rows_and_scores_them() {
    let mut engine = playing(piece_at(TetrominoLetter::T, 3, 1));
    for x in [0, 1, 2, 6, 7, 8, 9] {
        fill(&mut engine.grid, x, 0);
    }
    fill(&mut engine.grid, 9, 1);
    engine.lock_in_timer.elapsed = 400_000;
    let report = engine.tick(&vec![], 100_000);
    assert_eq!(
        report,
        TickReport { piece_locked: true, lines_cleared: 1, piece_spawned: true, ..quiet() }
    );
    let mut expected = Grid::new();
    expected.cells[4] = CellState::Filled(TetrominoColor::Orchid);
    expected.cells[9] = CellState::Filled(TetrominoColor::Cyan);
    assert_eq!(engine.grid, expected);
    assert_eq!(engine.scoring, Scoring { level: 1, score: 100, lines_cleared: 1 });
    assert_eq!(engine.gravity_timer.period, 1_000_000);
}

#[test]
fn a_new_level_shortens_the_gravity_period() {
    let mut engine = playing(piece_at(TetrominoLetter::I, 3, 0));
    for y in 0..1 {
        for x in [0, 1, 2, 7, 8, 9] {
            fill(&mut engine.grid, x, y);
        }
    }
    engine.scoring = Scoring { level: 1, score: 900, lines_cleared: 9 };
    engine.gravity_timer.elapsed = 123;
    engine.lock_in_timer.elapsed = 500_000;
    let report = engine.tick(&vec![], 0);
    assert_eq!(
        report,
        TickReport {
            piece_locked: true,
            lines_cleared: 1,
            level_up: true,
            piece_spawned: true,
            ..quiet()
        }
    );
    assert_eq!(engine.scoring, Scoring { level: 2, score: 1000, lines_cleared: 10 });
    assert_eq!(
        engine.gravity_timer,
        GravityTimer { period: 800_000, elapsed: 0, just_finished: false }
    );
    assert_eq!(engine.grid, Grid::new());
}

#[test]
fn a_lock_in_the_hidden_rows_loses_the_game() {
    let mut engine = playing(Tetromino::create_tetromino(TetrominoLetter::T));
    for y in 0..20 {
        fill(&mut engine.grid, 4, y);
    }
    engine.lock_in_timer.elapsed = 499_999;
    let queue_before = engine.queue.clone();
    let report = engine.tick(&vec![], 1);
    assert_eq!(report, TickReport { piece_locked: true, game_over: true, ..quiet() });
    assert_eq!(engine.game_state.phase, GamePhase::Lost);
    assert_eq!(engine.active, None);
    assert_eq!(engine.queue, queue_before);
    for (x, y) in [(4, 21), (3, 20), (4, 20), (5, 20)] {
        assert_eq!(engine.grid.cells[y * 10 + x], CellState::Filled(TetrominoColor::Orchid));
    }
}

#[test]
fn a_lock_within_the_visible_rows_keeps_the_game_going() {
    let mut engine = playing(piece_at(TetrominoLetter::T, 3, 19));
    for y in 0..18 {
        fill(&mut engine.grid, 4, y);
    }
    engine.lock_in_timer.elapsed = 499_999;
    let report = engine.tick(&vec![], 1);
    assert_eq!(report, TickReport { piece_locked: true, piece_spawned: true, ..quiet() });
    assert_eq!(engine.game_state.phase, GamePhase::Playing);
    assert_eq!(engine.active, Some(Tetromino::create_tetromino(TetrominoLetter::T)));
}

#[test]
fn a_lost_game_stands_still() {
    let mut engine = playing(Tetromino::create_tetromino(TetrominoLetter::T));
    for y in 0..20 {
        fill(&mut engine.grid, 4, y);
    }
    engine.lock_in_timer.elapsed = 500_000;
    engine.tick(&vec![], 0);
    assert_eq!(engine.game_state.phase, GamePhase::Lost);
    let before = engine.clone();
    let report = engine.tick(
        &vec![Intent::StartGame, Intent::MoveLeft, Intent::HardDrop, Intent::RotateCCW],
        10_000_000,
    );
    assert_eq!(report, quiet());
    assert_eq!(engine, before);
}

#[test]
fn restart_resets_everything_from_any_phase() {
    let mut not_started = Engine::new();
    let mut in_play = playing(piece_at(TetrominoLetter::S, 5, 7));
    fill(&mut in_play.grid, 0, 0);
    in_play.scoring = Scoring { level: 3, score: 9000, lines_cleared: 27 };
    in_play.gravity_timer = GravityTimer { period: 600_000, elapsed: 500, just_finished: true };
    in_play.lock_in_timer.elapsed = 0;
    let mut lost = playing(Tetromino::create_tetromino(TetrominoLetter::T));
    for y in 0..20 {
        fill(&mut lost.grid, 4, y);
    }
    lost.lock_in_timer.elapsed = 500_000;
    lost.tick(&vec![], 0);
    assert_eq!(lost.game_state.phase, GamePhase::Lost);
    for engine in [&mut not_started, &mut in_play, &mut lost] {
        assert!(!engine.apply_intent(Intent::RestartGame));
        assert_eq!(engine.grid, Grid::new());
        assert!(engine.queue.queue.is_empty());
        assert_eq!(engine.scoring, Scoring { level: 1, score: 0, lines_cleared: 0 });
        assert_eq!(engine.active, None);
        assert_eq!(engine.game_state.phase, GamePhase::Playing);
        assert_eq!(
            engine.gravity_timer,
            GravityTimer { period: 1_000_000, elapsed: 0, just_finished: false }
        );
        assert_eq!(engine.lock_in_timer, LockInTimer { elapsed: 0 });
        let report = engine.tick(&vec![], 0);
        assert_eq!(report, TickReport { piece_spawned: true, ..quiet() });
        assert!(engine.active.is_some());
        assert_eq!(engine.queue.queue.len(), 6);
    }
}

#[test]
fn a_restart_in_a_tick_drops_the_moves_before_it() {
    let mut engine = playing(piece_at(TetrominoLetter::S, 5, 7));
    let report = engine.tick(&vec![Intent::MoveLeft, Intent::RestartGame], 0);
    assert_eq!(report, TickReport { redraw_needed: true, piece_spawned: true, ..quiet() });
    assert_eq!(engine.grid, Grid::new());
    assert_eq!(engine.queue.queue.len(), 6);
    assert_eq!(engine.active.unwrap().position, (3, 21));
}

#[test]
fn the_phases_of_a_tick_can_be_run_one_by_one() {
    let mut engine = playing(piece_at(TetrominoLetter::T, 3, 2));
    engine.gravity_timer.elapsed = 999_000;
    assert!(engine.advance_gravity(1000));
    assert_eq!(engine.active, Some(piece_at(TetrominoLetter::T, 3, 1)));
    engine.advance_lock_timer(500_000);
    assert_eq!(engine.lock_in_timer.elapsed, 500_000);
    let outcome = engine.resolve_lock();
    assert_eq!(
        outcome,
        LockOutcome { locked: true, lines_cleared: 0, level_up: false, lost: false }
    );
    assert_eq!(engine.active, None);
    let outcome = engine.resolve_lock();
    assert_eq!(
        outcome,
        LockOutcome { locked: false, lines_cleared: 0, level_up: false, lost: false }
    );
    assert!(engine.spawn_if_wanted());
}

#[test]
fn lock_in_reports_the_top_out_and_fills_the_grid() {
    let mut grid = Grid::new();
    assert!(!lock_in_tetromino(&mut grid, &piece_at(TetrominoLetter::O, 0, 1)));
    assert_eq!(grid.cells[0], CellState::Filled(TetrominoColor::Gold));
    assert_eq!(grid.cells[11], CellState::Filled(TetrominoColor::Gold));
    for y in 0..20 {
        fill(&mut grid, 4, y);
    }
    assert!(lock_in_tetromino(&mut grid, &Tetromino::create_tetromino(TetrominoLetter::T)));
    assert_eq!(grid.cells[21 * 10 + 4], CellState::Filled(TetrominoColor::Orchid));
    // a piece that hangs in the hidden rows without resting is no top-out
    let mut open = Grid::new();
    assert!(!lock_in_tetromino(&mut open, &Tetromino::create_tetromino(TetrominoLetter::I)));
    assert_eq!(open.cells[21 * 10 + 3], CellState::Filled(TetrominoColor::Cyan));
}

#[test]
fn check_for_lines_clears_and_records() {
    let mut grid = Grid::new();
    for y in 0..4 {
        for x in 0..10 {
            fill(&mut grid, x, y);
        }
    }
    let mut scoring = Scoring { level: 3, score: 10, lines_cleared: 28 };
    assert_eq!(check_for_lines(&mut grid, &mut scoring), (4, true));
    assert_eq!(grid, Grid::new());
    assert_eq!(scoring, Scoring { level: 4, score: 2410, lines_cleared: 32 });
    assert_eq!(check_for_lines(&mut grid, &mut scoring), (0, false));
    assert_eq!(scoring, Scoring { level: 4, score: 2410, lines_cleared: 32 });
}

#[test]
fn start_and_restart_drive_the_phase() {
    let mut state = GameState::new();
    assert!(!state.started());
    assert!(!detect_start_game(&mut state, false));
    assert_eq!(state.phase, GamePhase::NotStarted);
    assert!(detect_start_game(&mut state, true));
    assert_eq!(state.phase, GamePhase::Playing);
    assert!(state.started());
    assert!(!detect_start_game(&mut state, true));
    state.phase = GamePhase::Lost;
    assert!(!detect_start_game(&mut state, true));
    assert_eq!(state.phase, GamePhase::Lost);
    assert!(!detect_restart_game(&mut state, false));
    assert_eq!(state.phase, GamePhase::Lost);
    assert!(detect_restart_game(&mut state, true));
    assert_eq!(state.phase, GamePhase::Playing);
}

#[test]
fn the_lock_state_follows_the_piece() {
    let mut engine = Engine::new();
    assert_eq!(engine.lock_state(), LockState::Locked);
    engine = playing(Tetromino::create_tetromino(TetrominoLetter::T));
    assert_eq!(engine.lock_state(), LockState::Falling);
    engine.tick(&vec![Intent::HardDrop], 1234);
    assert_eq!(engine.lock_state(), LockState::Resting(1234));
    engine.tick(&vec![Intent::MoveRight], 10);
    assert_eq!(engine.lock_state(), LockState::Resting(10));
    engine.tick(&vec![Intent::RotateCW], 0);
    assert_eq!(engine.active.unwrap().rotation, 1);
    assert_eq!(engine.active.unwrap().position, (3, 2));
    assert_eq!(engine.lock_state(), LockState::Resting(0));
    engine.active = Some(piece_at(TetrominoLetter::T, 3, 2));
    assert_eq!(engine.lock_state(), LockState::Falling);
}

#[test]
fn validity_is_checked_part_by_part() {
    assert!(Engine::new().is_valid());
    assert!(playing(Tetromino::create_tetromino(TetrominoLetter::T)).is_valid());
    assert!(playing(piece_at(TetrominoLetter::I, 0, 0)).is_valid());

    let mut short_grid = Engine::new();
    short_grid.grid.cells.pop();
    assert!(!short_grid.is_valid());

    let mut lone_letter = Engine::new();
    lone_letter.queue.queue.push_back(TetrominoLetter::I);
    assert!(!lone_letter.is_valid());

    let mut stale_level = Engine::new();
    stale_level.scoring = Scoring { level: 1, score: 0, lines_cleared: 10 };
    assert!(!stale_level.is_valid());

    let mut stopped_gravity = Engine::new();
    stopped_gravity.gravity_timer.period = 0;
    assert!(!stopped_gravity.is_valid());

    let mut late_lock = Engine::new();
    late_lock.lock_in_timer.elapsed = 500_001;
    assert!(!late_lock.is_valid());

    let mut hidden_cell = Engine::new();
    fill(&mut hidden_cell.grid, 0, 20);
    assert!(!hidden_cell.is_valid());
    hidden_cell.game_state.phase = GamePhase::Lost;
    assert!(hidden_cell.is_valid());

    let mut overlapping = playing(piece_at(TetrominoLetter::T, 3, 1));
    fill(&mut overlapping.grid, 4, 1);
    assert!(!overlapping.is_valid());

    let mut below_the_floor = playing(piece_at(TetrominoLetter::T, 3, 0));
    assert!(!below_the_floor.is_valid());
    below_the_floor.active = Some(piece_at(TetrominoLetter::T, 3, -1));
    assert!(!below_the_floor.is_valid());

    let mut piece_before_start = playing(piece_at(TetrominoLetter::T, 3, 5));
    piece_before_start.game_state.phase = GamePhase::NotStarted;
    assert!(!piece_before_start.is_valid());

    let mut lock_time_in_the_air = playing(piece_at(TetrominoLetter::T, 3, 5));
    lock_time_in_the_air.lock_in_timer.elapsed = 1;
    assert!(!lock_time_in_the_air.is_valid());
    lock_time_in_the_air.active = Some(piece_at(TetrominoLetter::T, 3, 1));
    assert!(lock_time_in_the_air.is_valid());
    lock_time_in_the_air.active = None;
    assert!(!lock_time_in_the_air.is_valid());

    let mut empty_queue = playing(piece_at(TetrominoLetter::T, 3, 5));
    empty_queue.queue.queue.clear();
    assert!(!empty_queue.is_valid());
}

#[test]
fn a_piece_is_valid_only_with_its_own_pattern() {
    let t = Tetromino::create_tetromino(TetrominoLetter::T);
    assert!(t.is_valid());
    let mut turned = t;
    turned.shape = t.rotate_tetromino_shape_clockwise();
    assert!(!turned.is_valid());
    turned.rotation = 1;
    assert!(turned.is_valid());
    turned.rotation = 3;
    assert!(!turned.is_valid());
    turned.shape = t.rotate_tetromino_shape_counter_clockwise();
    assert!(turned.is_valid());
    let mut wrong_colour = t;
    wrong_colour.color = TetrominoColor::Gold;
    assert!(!wrong_colour.is_valid());
    let mut wrong_letter = t;
    wrong_letter.letter = TetrominoLetter::L;
    assert!(!wrong_letter.is_valid());
    let mut too_many_turns = t;
    too_many_turns.rotation = 4;
    assert!(!too_many_turns.is_valid());
    for (x, y, valid) in [(-3, 0, true), (9, 29, true), (-4, 0, false), (10, 5, false), (3, 30, false)]
    {
        assert_eq!(piece_at(TetrominoLetter::O, x, y).is_valid(), valid);
    }
}

#[test]
fn try_tick_runs_only_on_a_valid_state_with_room() {
    let mut engine = playing(Tetromino::create_tetromino(TetrominoLetter::T));
    assert_eq!(
        engine.try_tick(&vec![Intent::MoveLeft], 0),
        Some(TickReport { redraw_needed: true, ..quiet() })
    );
    assert_eq!(engine.active.unwrap().position, (2, 21));

    let mut full_score = playing(Tetromino::create_tetromino(TetrominoLetter::T));
    full_score.scoring.score = usize::MAX - 799;
    assert!(!full_score.scoring.has_room());
    let before = full_score.clone();
    assert_eq!(full_score.try_tick(&vec![Intent::MoveLeft], 1_000_000), None);
    assert_eq!(full_score, before);
    full_score.scoring.score = usize::MAX - 800;
    assert!(full_score.scoring.has_room());
    assert!(full_score.try_tick(&vec![], 0).is_some());

    let mut broken = playing(piece_at(TetrominoLetter::T, 3, 0));
    let before = broken.clone();
    assert_eq!(broken.try_tick(&vec![Intent::HardDrop], 1_000_000), None);
    assert_eq!(broken, before);
}
