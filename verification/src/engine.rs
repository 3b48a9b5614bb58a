//! The engine: one exclusively owned state and the phases of a tick, each
//! with its own function and, for the state as a whole, a mathematical view
//! on which the phases are defined.
//!
//! A tick applies the intents in order, advances gravity, advances the lock
//! timer, resolves a lock that is due and spawns the next piece where one is
//! wanted.

use vstd::prelude::*;
use crate::game_manager::{detect_restart_game, detect_start_game, GamePhase, GameState, Intent};
use crate::grid::{
    cell_at, cell_hits, full_rows, kept_rows, lemma_kept_rows_ordered, reset_grid, row_empty,
    shape_covers, spec_cleared, spec_locked, CellState, Grid, GRID_CELLS, GRID_HEIGHT, GRID_ROWS,
};
use crate::movement::{
    cell_in_hidden_rows, detect_lock_position, fits, gravity, is_lose_conditions, is_resting,
    maybe_lock_in_tetromino, move_tetromino, reaches_hidden_rows, shifted,
    spec_gravity_timer_after, spec_is_resting, spec_lock_timer_after, spec_move,
    spec_move_succeeds,
};
use crate::queue::{
    detect_bag_low, fresh_bag, is_bag, lemma_fresh_bag_is_bag, restart_queue, shuffled_bag,
    spawn_tetromino, spec_bag_low, TetrominoQueue,
};
use crate::scoring::{reset_level_and_score, spec_recorded, Scoring};
use crate::tetromino::{
    lemma_spawned_piece_wf, shape_cell, spec_create, Tetromino, TetrominoLetter,
};
use crate::timers::{
    reset_gravity_timer, reset_lock_in_timer, spec_gravity_micros, spec_gravity_tick,
    spec_lock_tick, update_gravity_timer, GravityTimer, LockInTimer, LOCK_DELAY_MICROS,
};

verus! {

/// The whole state of a game.
#[derive(Clone, Debug, PartialEq, Eq)]
pub struct Engine {
    pub grid: Grid,
    pub queue: TetrominoQueue,
    pub scoring: Scoring,
    /// The falling piece, if there is one.
    pub active: Option<Tetromino>,
    pub game_state: GameState,
    pub gravity_timer: GravityTimer,
    pub lock_in_timer: LockInTimer,
}

/// The state of a game as plain mathematical values.
pub struct EngineView {
    pub cells: Seq<CellState>,
    pub queue: Seq<TetrominoLetter>,
    pub scoring: Scoring,
    pub active: Option<Tetromino>,
    pub phase: GamePhase,
    pub gravity_timer: GravityTimer,
    pub lock_in_timer: LockInTimer,
}

/// Where the active piece stands in the lock cycle.
#[derive(Clone, Copy, Debug, PartialEq, Eq, Structural)]
pub enum LockState {
    /// The piece can still fall.
    Falling,
    /// The piece rests and has done so for this many microseconds, up to the
    /// lock delay.
    Resting(u64),
    /// There is no active piece: the last one is locked.
    Locked,
}

/// What the lock resolution of a tick did.
#[derive(Clone, Copy, Debug, PartialEq, Eq, Structural)]
pub struct LockOutcome {
    /// A piece was written into the grid.
    pub locked: bool,
    /// The rows cleared after it.
    pub lines_cleared: usize,
    /// The level rose.
    pub level_up: bool,
    /// The piece topped out and the game is lost.
    pub lost: bool,
}

/// What a tick did, for the caller to draw and announce.
#[derive(Clone, Copy, Debug, PartialEq, Eq, Structural)]
pub struct TickReport {
    /// The active piece moved, turned or fell.
    pub redraw_needed: bool,
    /// A piece was written into the grid, which therefore changed.
    pub piece_locked: bool,
    /// The rows cleared.
    pub lines_cleared: usize,
    /// The level rose.
    pub level_up: bool,
    /// The game was lost in this tick.
    pub game_over: bool,
    /// A new piece spawned, and the queue changed with it.
    pub piece_spawned: bool,
}

impl View for Engine {
    type V = EngineView;

    open spec fn view(&self) -> EngineView {
        EngineView {
            cells: self.grid.cells@,
            queue: self.queue@,
            scoring: self.scoring,
            active: self.active,
            phase: self.game_state.phase,
            gravity_timer: self.gravity_timer,
            lock_in_timer: self.lock_in_timer,
        }
    }
}

/// The hidden rows hold no filled cell.
pub open spec fn hidden_rows_empty(cells: Seq<CellState>) -> bool {
    forall|y: int| 20 <= y < 26 ==> #[trigger] row_empty(cells, y)
}

/// The invariant of the engine. The parts are well-formed; unless the game
/// is lost, the hidden rows are empty; an active piece exists only while
/// playing and never collides; the lock timer has gathered time only for an
/// active piece that rests; and the queue is never down to a single letter,
/// nor empty while a piece is active.
pub open spec fn view_wf(v: EngineView) -> bool {
    &&& v.cells.len() == 260
    &&& v.queue.len() != 1
    &&& v.active is Some ==> v.queue.len() >= 2
    &&& v.scoring.wf()
    &&& v.gravity_timer.wf()
    &&& v.lock_in_timer.wf()
    &&& v.phase != GamePhase::Lost ==> hidden_rows_empty(v.cells)
    &&& match v.active {
        Some(piece) => {
            &&& piece.wf()
            &&& fits(v.cells, piece, 0, 0)
            &&& v.phase == GamePhase::Playing
            &&& v.lock_in_timer.elapsed > 0 ==> spec_is_resting(v.cells, piece)
        },
        None => v.lock_in_timer.elapsed == 0,
    }
}

/// The state after a restart: an empty grid, an empty queue, the initial
/// scoring, no active piece, both timers neutral, and the game playing.
pub open spec fn restarted() -> EngineView {
    EngineView {
        cells: Seq::new(260, |i: int| CellState::Empty),
        queue: Seq::empty(),
        scoring: Scoring { level: 1, score: 0, lines_cleared: 0 },
        active: None,
        phase: GamePhase::Playing,
        gravity_timer: GravityTimer { period: 1_000_000, elapsed: 0, just_finished: false },
        lock_in_timer: LockInTimer { elapsed: 0 },
    }
}

/// Whether the intent moves the active piece.
pub open spec fn intent_moves(v: EngineView, intent: Intent) -> bool {
    match v.active {
        Some(piece) => spec_move_succeeds(v.cells, piece, intent),
        None => false,
    }
}

/// The state after one intent. A start intent starts a game that has not
/// started, with the initial scoring; a restart intent resets everything; a
/// movement intent goes to the active piece, if there is one.
pub open spec fn step_intent(v: EngineView, intent: Intent) -> EngineView {
    match intent {
        Intent::StartGame => if v.phase == GamePhase::NotStarted {
            EngineView {
                phase: GamePhase::Playing,
                scoring: Scoring { level: 1, score: 0, lines_cleared: 0 },
                ..v
            }
        } else {
            v
        },
        Intent::RestartGame => restarted(),
        Intent::ToggleHelp => v,
        _ => match v.active {
            Some(piece) => {
                let moved = spec_move_succeeds(v.cells, piece, intent);
                EngineView {
                    active: Some(spec_move(v.cells, piece, intent)),
                    lock_in_timer: spec_lock_timer_after(moved, v.lock_in_timer),
                    gravity_timer: spec_gravity_timer_after(moved, intent, v.gravity_timer),
                    ..v
                }
            },
            None => v,
        },
    }
}

/// The state after the intents, applied in order.
pub open spec fn step_intents(v: EngineView, intents: Seq<Intent>) -> EngineView
    decreases intents.len(),
{
    if intents.len() == 0 {
        v
    } else {
        step_intent(step_intents(v, intents.drop_last()), intents.last())
    }
}

/// Whether one of the intents, applied in order, moves the active piece.
pub open spec fn any_intent_moves(v: EngineView, intents: Seq<Intent>) -> bool
    decreases intents.len(),
{
    if intents.len() == 0 {
        false
    } else {
        any_intent_moves(v, intents.drop_last()) || intent_moves(
            step_intents(v, intents.drop_last()),
            intents.last(),
        )
    }
}

/// Whether gravity makes the active piece fall in a tick of `elapsed`
/// microseconds: the timer fires and the piece fits one row down.
pub open spec fn gravity_falls(v: EngineView, elapsed: u64) -> bool {
    match v.active {
        Some(piece) => v.gravity_timer.elapsed + elapsed >= v.gravity_timer.period && fits(
            v.cells,
            piece,
            0,
            -1,
        ),
        None => false,
    }
}

/// The state after gravity has advanced. Without an active piece nothing
/// changes.
pub open spec fn step_gravity(v: EngineView, elapsed: u64) -> EngineView {
    match v.active {
        Some(piece) => EngineView {
            active: Some(
                if gravity_falls(v, elapsed) {
                    shifted(piece, 0, -1)
                } else {
                    piece
                },
            ),
            gravity_timer: spec_gravity_tick(v.gravity_timer, elapsed),
            ..v
        },
        None => v,
    }
}

/// The state after the lock timer has advanced, which it does only while the
/// active piece rests.
pub open spec fn step_lock_timer(v: EngineView, elapsed: u64) -> EngineView {
    match v.active {
        Some(piece) => if spec_is_resting(v.cells, piece) {
            EngineView { lock_in_timer: spec_lock_tick(v.lock_in_timer, elapsed), ..v }
        } else {
            v
        },
        None => v,
    }
}

/// The lock state of the engine.
pub open spec fn spec_lock_state(v: EngineView) -> LockState {
    match v.active {
        Some(piece) => if spec_is_resting(v.cells, piece) {
            LockState::Resting(v.lock_in_timer.elapsed)
        } else {
            LockState::Falling
        },
        None => LockState::Locked,
    }
}

/// Whether a lock is due: there is an active piece and the lock delay has
/// passed.
pub open spec fn lock_due(v: EngineView) -> bool {
    v.active is Some && v.lock_in_timer.spec_finished()
}

/// The grid with the active piece written into it.
pub open spec fn cells_with_piece(v: EngineView) -> Seq<CellState> {
    let piece = v.active->Some_0;
    spec_locked(v.cells, piece.position.0 as int, piece.position.1 as int, piece.shape, piece.color)
}

/// What resolving the lock does.
pub open spec fn spec_lock_outcome(v: EngineView) -> LockOutcome {
    if lock_due(v) {
        let piece = v.active->Some_0;
        let lines = full_rows(cells_with_piece(v), 26);
        LockOutcome {
            locked: true,
            lines_cleared: lines as usize,
            level_up: v.scoring.level < spec_recorded(v.scoring, lines).level,
            lost: spec_is_resting(v.cells, piece) && reaches_hidden_rows(piece),
        }
    } else {
        LockOutcome { locked: false, lines_cleared: 0, level_up: false, lost: false }
    }
}

/// The state after a lock that is due is resolved: the piece is written
/// into the grid, the game is lost if the piece topped out, full rows are
/// cleared and recorded, the gravity period follows a new level, both timers
/// are neutral, and there is no active piece.
pub open spec fn step_resolve(v: EngineView) -> EngineView {
    if lock_due(v) {
        let outcome = spec_lock_outcome(v);
        let scoring = spec_recorded(v.scoring, outcome.lines_cleared as int);
        EngineView {
            cells: spec_cleared(cells_with_piece(v)),
            scoring,
            active: None,
            phase: if outcome.lost {
                GamePhase::Lost
            } else {
                v.phase
            },
            gravity_timer: GravityTimer {
                period: if outcome.level_up {
                    spec_gravity_micros(scoring.level as int) as u64
                } else {
                    v.gravity_timer.period
                },
                elapsed: 0,
                just_finished: false,
            },
            lock_in_timer: LockInTimer { elapsed: 0 },
            ..v
        }
    } else {
        v
    }
}

/// Whether a piece is wanted: the game is playing and has no active piece.
pub open spec fn spawn_wanted(v: EngineView) -> bool {
    v.phase == GamePhase::Playing && v.active is None
}

/// The queue from which a spawn takes its letter: an empty queue is
/// refilled with the bag first.
pub open spec fn supply(queue: Seq<TetrominoLetter>, bag: Seq<TetrominoLetter>) -> Seq<
    TetrominoLetter,
> {
    if queue.len() == 0 {
        queue + bag
    } else {
        queue
    }
}

/// The queue that a spawn leaves: the supply without its head, refilled
/// with the bag where that leaves one letter.
pub open spec fn queue_after_spawn(
    queue: Seq<TetrominoLetter>,
    bag: Seq<TetrominoLetter>,
) -> Seq<TetrominoLetter> {
    let rest = supply(queue, bag).skip(1);
    if spec_bag_low(rest) {
        rest + bag
    } else {
        rest
    }
}

/// The state after the spawn phase. Where a piece is wanted, the head of
/// the supply spawns and leaves the queue; `bag` is the shuffled bag that a
/// refill appends.
pub open spec fn step_spawn(v: EngineView, bag: Seq<TetrominoLetter>) -> EngineView {
    if spawn_wanted(v) {
        EngineView {
            active: Some(spec_create(supply(v.queue, bag)[0])),
            queue: queue_after_spawn(v.queue, bag),
            ..v
        }
    } else {
        v
    }
}

/// The state after the phases of a tick that involve no chance: intents,
/// gravity, lock timer, lock resolution.
pub open spec fn before_spawn(v: EngineView, intents: Seq<Intent>, elapsed: u64) -> EngineView {
    step_resolve(step_lock_timer(step_gravity(step_intents(v, intents), elapsed), elapsed))
}

/// The state after a whole tick, given the bag that a refill appends.
pub open spec fn spec_tick(
    v: EngineView,
    intents: Seq<Intent>,
    elapsed: u64,
    bag: Seq<TetrominoLetter>,
) -> EngineView {
    step_spawn(before_spawn(v, intents, elapsed), bag)
}

/// What a tick reports.
pub open spec fn spec_report(v: EngineView, intents: Seq<Intent>, elapsed: u64) -> TickReport {
    let moved = step_intents(v, intents);
    let fallen = step_gravity(moved, elapsed);
    let outcome = spec_lock_outcome(step_lock_timer(fallen, elapsed));
    TickReport {
        redraw_needed: any_intent_moves(v, intents) || gravity_falls(moved, elapsed),
        piece_locked: outcome.locked,
        lines_cleared: outcome.lines_cleared,
        level_up: outcome.level_up,
        game_over: outcome.lost,
        piece_spawned: spawn_wanted(before_spawn(v, intents, elapsed)),
    }
}

/// A piece that has just spawned over empty hidden rows does not collide.
pub proof fn lemma_spawn_fits(cells: Seq<CellState>, letter: TetrominoLetter)
    requires
        cells.len() == 260,
        hidden_rows_empty(cells),
    ensures
        fits(cells, spec_create(letter), 0, 0),
        spec_create(letter).wf(),
{
    let piece = spec_create(letter);
    lemma_spawned_piece_wf(letter);
    assert forall|sx: int, sy: int| !#[trigger] cell_hits(cells, 3, 21, piece.shape, sx, sy) by {
        if shape_cell(piece.shape, sx, sy) {
            assert(row_empty(cells, 21 - sy));
            assert(cell_at(cells, 3 + sx, 21 - sy) == CellState::Empty);
        }
    }
}

/// Locking a piece that does not top out, and clearing the full rows after
/// it, leaves the hidden rows empty.
pub proof fn lemma_lock_keeps_hidden_rows_empty(cells: Seq<CellState>, piece: Tetromino)
    requires
        cells.len() == 260,
        hidden_rows_empty(cells),
        !reaches_hidden_rows(piece),
    ensures
        hidden_rows_empty(
            spec_cleared(
                spec_locked(
                    cells,
                    piece.position.0 as int,
                    piece.position.1 as int,
                    piece.shape,
                    piece.color,
                ),
            ),
        ),
{
    let px = piece.position.0 as int;
    let py = piece.position.1 as int;
    let locked = spec_locked(cells, px, py, piece.shape, piece.color);
    let after = spec_cleared(locked);
    let kept = kept_rows(locked, 26);
    lemma_kept_rows_ordered(locked, 26);
    assert forall|y: int| 20 <= y < 26 implies #[trigger] row_empty(locked, y) by {
        assert forall|x: int| 0 <= x < 10 implies #[trigger] cell_at(locked, x, y)
            == CellState::Empty by {
            assert(row_empty(cells, y));
            assert(cell_at(cells, x, y) == CellState::Empty);
            assert((y * 10 + x) % 10 == x && (y * 10 + x) / 10 == y);
            if shape_covers(px, py, piece.shape, x, y) {
                assert(cell_in_hidden_rows(piece, x - px, py - y));
            }
        }
    }
    assert forall|y: int| 20 <= y < 26 implies #[trigger] row_empty(after, y) by {
        assert forall|x: int| 0 <= x < 10 implies #[trigger] cell_at(after, x, y)
            == CellState::Empty by {
            assert((y * 10 + x) % 10 == x && (y * 10 + x) / 10 == y);
            if y < kept.len() {
                assert(y <= kept[y] < 26);
                assert(row_empty(locked, kept[y]));
            }
        }
    }
}

/// A restart intent, from any phase and any state, gives the restarted
/// state: the grid all empty, the queue empty, the scoring initial, the
/// phase `Playing`, both timers neutral, and no active piece. That state
/// meets the invariant, so play goes on from it and the next spawn refills
/// the queue.
pub proof fn lemma_restart_from_any_state(v: EngineView)
    ensures
        step_intent(v, Intent::RestartGame) == restarted(),
        view_wf(restarted()),
        forall|i: int| 0 <= i < 260 ==> restarted().cells[i] == CellState::Empty,
        restarted().cells.len() == 260,
        restarted().queue.len() == 0,
        restarted().scoring.is_initial(),
        restarted().phase == GamePhase::Playing,
        restarted().active is None,
        restarted().gravity_timer.is_neutral(),
        restarted().lock_in_timer.is_neutral(),
        spawn_wanted(restarted()),
{
    assert forall|y: int| 20 <= y < 26 implies #[trigger] row_empty(restarted().cells, y) by {
        assert forall|x: int| 0 <= x < 10 implies #[trigger] cell_at(restarted().cells, x, y)
            == CellState::Empty by {}
    }
}

/// An intent that moves the active piece puts the lock timer back to zero,
/// whatever it had gathered; one that does not move it leaves the timer as
/// it was.
pub proof fn lemma_move_resets_lock_timer(v: EngineView, intent: Intent)
    requires
        v.active is Some,
        intent != Intent::StartGame,
        intent != Intent::RestartGame,
    ensures
        intent_moves(v, intent) ==> step_intent(v, intent).lock_in_timer.elapsed == 0,
        !intent_moves(v, intent) ==> step_intent(v, intent).lock_in_timer == v.lock_in_timer,
{
}

/// When a lock is due, the game is lost exactly if a cell of the piece lies
/// in the hidden rows; a piece that locks within the visible rows leaves
/// the phase as it was.
pub proof fn lemma_top_out_loses(v: EngineView)
    requires
        view_wf(v),
        lock_due(v),
    ensures
        reaches_hidden_rows(v.active->Some_0) ==> step_resolve(v).phase == GamePhase::Lost,
        !reaches_hidden_rows(v.active->Some_0) ==> step_resolve(v).phase == GamePhase::Playing,
        step_resolve(v).active is None,
{
}

/// Only a resting piece has gathered lock time, so a lock is never due for a
/// piece that can still fall; and a piece that has just spawned has gathered
/// none.
pub proof fn lemma_lock_time_belongs_to_resting(v: EngineView, bag: Seq<TetrominoLetter>)
    requires
        view_wf(v),
    ensures
        spec_lock_state(v) != LockState::Resting(v.lock_in_timer.elapsed)
            ==> v.lock_in_timer.elapsed == 0,
        lock_due(v) ==> spec_lock_state(v) == LockState::Resting(v.lock_in_timer.elapsed),
        spawn_wanted(v) ==> step_spawn(v, bag).lock_in_timer.elapsed == 0,
{
}

/// While the game is lost nothing but a restart changes the state: no other
/// intent and no passing of time does.
pub proof fn lemma_lost_game_stands_still(v: EngineView, intent: Intent, elapsed: u64)
    requires
        view_wf(v),
        v.phase == GamePhase::Lost,
        intent != Intent::RestartGame,
    ensures
        step_intent(v, intent) == v,
        step_gravity(v, elapsed) == v,
        step_lock_timer(v, elapsed) == v,
        step_resolve(v) == v,
        forall|bag: Seq<TetrominoLetter>| step_spawn(v, bag) == v,
{
}

impl Engine {
    /// The invariant of the engine, on its view.
    pub open spec fn wf(&self) -> bool {
        view_wf(self@)
    }

    /// An engine before the first game: everything empty and neutral.
    pub fn new() -> (engine: Self)
        ensures
            engine.wf(),
            engine@ == (EngineView { phase: GamePhase::NotStarted, ..restarted() }),
            engine.scoring.has_headroom(),
    {
        let engine = Engine {
            grid: Grid::new(),
            queue: TetrominoQueue::new(),
            scoring: Scoring::new(),
            active: None,
            game_state: GameState::new(),
            gravity_timer: GravityTimer::new(1),
            lock_in_timer: LockInTimer::new(),
        };
        proof {
            assert(engine.grid.cells@ =~= restarted().cells);
            assert forall|y: int| 20 <= y < 26 implies #[trigger] row_empty(engine@.cells, y) by {
                assert forall|x: int| 0 <= x < 10 implies #[trigger] cell_at(engine@.cells, x, y)
                    == CellState::Empty by {}
            }
        }
        engine
    }

    /// Restarts the game from any phase: the grid is emptied, the queue
    /// cleared, the scoring put back to its initial state, the active piece
    /// dropped, both timers made neutral with the period of the first
    /// level, and the phase set to `Playing`.
    pub fn restart(&mut self)
        requires
            old(self).wf(),
        ensures
            final(self).wf(),
            final(self)@ == restarted(),
            final(self).grid.all_empty(),
            final(self).queue@.len() == 0,
            final(self).scoring.is_initial(),
            final(self).scoring.has_headroom(),
            final(self).active is None,
            final(self).game_state.phase == GamePhase::Playing,
            final(self).gravity_timer.is_neutral(),
            final(self).lock_in_timer.is_neutral(),
    {
        reset_grid(&mut self.grid);
        restart_queue(&mut self.queue);
        reset_level_and_score(&mut self.scoring);
        self.active = None;
        reset_gravity_timer(&mut self.gravity_timer);
        update_gravity_timer(&mut self.gravity_timer, self.scoring.level);
        reset_lock_in_timer(&mut self.lock_in_timer);
        detect_restart_game(&mut self.game_state, true);
        proof {
            assert(self.grid.cells@ =~= restarted().cells);
            assert forall|y: int| 20 <= y < 26 implies #[trigger] row_empty(self@.cells, y) by {
                assert forall|x: int| 0 <= x < 10 implies #[trigger] cell_at(self@.cells, x, y)
                    == CellState::Empty by {}
            }
        }
    }

    /// Whether the state meets the invariant of the engine.
    pub fn is_valid(&self) -> (valid: bool)
        ensures
            valid == self.wf(),
    {
        if self.grid.cells.len() != GRID_CELLS || self.queue.queue.len() == 1
            || !self.scoring.is_valid() || self.gravity_timer.period == 0
            || self.lock_in_timer.elapsed > LOCK_DELAY_MICROS {
            return false;
        }
        match self.game_state.phase {
            GamePhase::Lost => {},
            _ => {
                let mut row: usize = GRID_HEIGHT;
                while row < GRID_ROWS
                    invariant
                        20 <= row <= 26,
                        self.grid.wf(),
                        self.game_state.phase != GamePhase::Lost,
                        forall|y: int| 20 <= y < row ==> #[trigger] row_empty(self.grid.cells@, y),
                    decreases 26 - row,
                {
                    if !self.grid.is_row_empty(row) {
                        return false;
                    }
                    row += 1;
                }
            },
        }
        match self.active {
            Some(piece) => {
                if self.queue.queue.len() < 2 || !piece.is_valid() {
                    return false;
                }
                if self.grid.would_collide(piece.position, &piece.shape) {
                    return false;
                }
                match self.game_state.phase {
                    GamePhase::Playing => {},
                    _ => {
                        return false;
                    },
                }
                self.lock_in_timer.elapsed == 0 || is_resting(&piece, &self.grid)
            },
            None => self.lock_in_timer.elapsed == 0,
        }
    }

    /// Where the active piece stands in the lock cycle.
    pub fn lock_state(&self) -> (state: LockState)
        requires
            self.wf(),
        ensures
            state == spec_lock_state(self@),
    {
        match self.active {
            Some(piece) => {
                if is_resting(&piece, &self.grid) {
                    LockState::Resting(self.lock_in_timer.elapsed)
                } else {
                    LockState::Falling
                }
            },
            None => LockState::Locked,
        }
    }

    /// Applies one intent. Returns whether the active piece moved.
    pub fn apply_intent(&mut self, intent: Intent) -> (moved: bool)
        requires
            old(self).wf(),
        ensures
            final(self).wf(),
            final(self)@ == step_intent(old(self)@, intent),
            moved == intent_moves(old(self)@, intent),
            old(self).scoring.has_headroom() ==> final(self).scoring.has_headroom(),
    {
        match intent {
            Intent::StartGame => {
                if detect_start_game(&mut self.game_state, true) {
                    reset_level_and_score(&mut self.scoring);
                }
                false
            },
            Intent::RestartGame => {
                self.restart();
                false
            },
            Intent::ToggleHelp => false,
            _ => {
                match self.active {
                    Some(piece) => {
                        let mut piece = piece;
                        let moved = move_tetromino(
                            &mut piece,
                            &self.grid,
                            &mut self.lock_in_timer,
                            &mut self.gravity_timer,
                            intent,
                        );
                        self.active = Some(piece);
                        moved
                    },
                    None => false,
                }
            },
        }
    }

    /// Advances gravity by `elapsed` microseconds. Returns whether the
    /// active piece fell a row.
    pub fn advance_gravity(&mut self, elapsed: u64) -> (fell: bool)
        requires
            old(self).wf(),
        ensures
            final(self).wf(),
            final(self)@ == step_gravity(old(self)@, elapsed),
            fell == gravity_falls(old(self)@, elapsed),
    {
        match self.active {
            Some(piece) => {
                let mut piece = piece;
                let fell = gravity(&mut piece, &self.grid, &mut self.gravity_timer, elapsed);
                self.active = Some(piece);
                fell
            },
            None => false,
        }
    }

    /// Advances the lock timer by `elapsed` microseconds while the active
    /// piece rests.
    pub fn advance_lock_timer(&mut self, elapsed: u64)
        requires
            old(self).wf(),
        ensures
            final(self).wf(),
            final(self)@ == step_lock_timer(old(self)@, elapsed),
    {
        match self.active {
            Some(piece) => {
                detect_lock_position(&mut self.lock_in_timer, elapsed, &self.grid, &piece);
            },
            None => {},
        }
    }

    /// Resolves a lock that is due: writes the piece into the grid, detects
    /// a top-out, clears and records full rows, lets the gravity period
    /// follow a new level and makes both timers neutral.
    pub fn resolve_lock(&mut self) -> (outcome: LockOutcome)
        requires
            old(self).wf(),
            old(self).scoring.has_headroom(),
        ensures
            final(self).wf(),
            final(self)@ == step_resolve(old(self)@),
            outcome == spec_lock_outcome(old(self)@),
    {
        if !maybe_lock_in_tetromino(&self.lock_in_timer) {
            return LockOutcome { locked: false, lines_cleared: 0, level_up: false, lost: false };
        }
        match self.active {
            Some(piece) => {
                let lost = lock_in_tetromino(&mut self.grid, &piece);
                let (lines, level_up) = check_for_lines(&mut self.grid, &mut self.scoring);
                if level_up {
                    update_gravity_timer(&mut self.gravity_timer, self.scoring.level);
                }
                reset_gravity_timer(&mut self.gravity_timer);
                reset_lock_in_timer(&mut self.lock_in_timer);
                self.active = None;
                if lost {
                    self.game_state.phase = GamePhase::Lost;
                }
                proof {
                    if !lost {
                        lemma_lock_keeps_hidden_rows_empty(old(self)@.cells, piece);
                    }
                }
                LockOutcome { locked: true, lines_cleared: lines, level_up, lost }
            },
            None => LockOutcome { locked: false, lines_cleared: 0, level_up: false, lost: false },
        }
    }

    /// Spawns the next piece where one is wanted, refilling the queue with a
    /// shuffled bag when it is empty before the spawn or down to one letter
    /// after it. Returns whether a piece spawned.
    pub fn spawn_if_wanted(&mut self) -> (spawned: bool)
        requires
            old(self).wf(),
        ensures
            final(self).wf(),
            spawned == spawn_wanted(old(self)@),
            exists|bag: Seq<TetrominoLetter>| #[trigger]
                is_bag(bag) && final(self)@ == step_spawn(old(self)@, bag),
    {
        let ghost mut used = fresh_bag();
        proof {
            lemma_fresh_bag_is_bag();
        }
        let wanted = self.game_state.started() && self.active.is_none();
        if wanted {
            if self.queue.queue.len() == 0 {
                let bag = shuffled_bag();
                proof {
                    used = bag@;
                }
                self.queue.refill_with(&bag);
            }
            let piece = spawn_tetromino(&mut self.queue);
            if detect_bag_low(&self.queue) {
                let bag = shuffled_bag();
                proof {
                    used = bag@;
                }
                self.queue.refill_with(&bag);
            }
            self.active = Some(piece);
            proof {
                lemma_spawn_fits(self@.cells, piece.letter);
            }
        }
        assert(is_bag(used) && self@ == step_spawn(old(self)@, used));
        wanted
    }

    /// One tick: the intents in order, then gravity, then the lock timer,
    /// then the lock resolution, then the spawn. `elapsed` is the time since
    /// the last tick in microseconds.
    pub fn tick(&mut self, intents: &Vec<Intent>, elapsed: u64) -> (report: TickReport)
        requires
            old(self).wf(),
            old(self).scoring.has_headroom(),
        ensures
            final(self).wf(),
            exists|bag: Seq<TetrominoLetter>| #[trigger]
                is_bag(bag) && final(self)@ == spec_tick(old(self)@, intents@, elapsed, bag),
            report == spec_report(old(self)@, intents@, elapsed),
    {
        let mut redraw = false;
        let mut i: usize = 0;
        while i < intents.len()
            invariant
                i <= intents@.len(),
                self.wf(),
                self.scoring.has_headroom(),
                self@ == step_intents(old(self)@, intents@.take(i as int)),
                redraw == any_intent_moves(old(self)@, intents@.take(i as int)),
            decreases intents@.len() - i,
        {
            let moved = self.apply_intent(intents[i]);
            redraw = redraw || moved;
            proof {
                assert(intents@.take(i + 1).drop_last() =~= intents@.take(i as int));
                assert(intents@.take(i + 1).last() == intents@[i as int]);
            }
            i += 1;
        }
        proof {
            assert(intents@.take(intents@.len() as int) =~= intents@);
        }
        let fell = self.advance_gravity(elapsed);
        self.advance_lock_timer(elapsed);
        let outcome = self.resolve_lock();
        let spawned = self.spawn_if_wanted();
        TickReport {
            redraw_needed: redraw || fell,
            piece_locked: outcome.locked,
            lines_cleared: outcome.lines_cleared,
            level_up: outcome.level_up,
            game_over: outcome.lost,
            piece_spawned: spawned,
        }
    }

    /// A tick for a caller that cannot vouch for the state: it runs only
    /// where the state meets the invariant and the scoring has room, and
    /// otherwise returns `None` and changes nothing.
    pub fn try_tick(&mut self, intents: &Vec<Intent>, elapsed: u64) -> (report: Option<TickReport>)
        ensures
            report is Some <==> old(self).wf() && old(self).scoring.has_headroom(),
            report is None ==> *final(self) == *old(self),
            report is Some ==> final(self).wf(),
            report is Some ==> report == Some(spec_report(old(self)@, intents@, elapsed)),
            report is Some ==> exists|bag: Seq<TetrominoLetter>| #[trigger]
                is_bag(bag) && final(self)@ == spec_tick(old(self)@, intents@, elapsed, bag),
    {
        if self.is_valid() && self.scoring.has_room() {
            Some(self.tick(intents, elapsed))
        } else {
            None
        }
    }
}

/// Writes a piece that is due to lock into the grid. Returns whether it
/// topped out: whether, resting as it was, one of its cells lay in the
/// hidden rows.
pub fn lock_in_tetromino(grid: &mut Grid, tetromino: &Tetromino) -> (lost: bool)
    requires
        old(grid).wf(),
        tetromino.wf(),
        fits(old(grid).cells@, *tetromino, 0, 0),
    ensures
        final(grid).wf(),
        lost == (spec_is_resting(old(grid).cells@, *tetromino) && reaches_hidden_rows(*tetromino)),
        final(grid).cells@ == spec_locked(
            old(grid).cells@,
            tetromino.position.0 as int,
            tetromino.position.1 as int,
            tetromino.shape,
            tetromino.color,
        ),
{
    let lost = is_lose_conditions(tetromino, grid);
    grid.lock_into_grid(tetromino);
    lost
}

/// Clears the full rows of the grid and records them in the scoring.
/// Returns the number of rows cleared and whether the level rose.
pub fn check_for_lines(grid: &mut Grid, scoring_resource: &mut Scoring) -> (cleared: (usize, bool))
    requires
        old(grid).wf(),
        old(scoring_resource).has_headroom(),
    ensures
        final(grid).wf(),
        final(grid).cells@ == spec_cleared(old(grid).cells@),
        cleared.0 == full_rows(old(grid).cells@, 26),
        *final(scoring_resource) == spec_recorded(*old(scoring_resource), cleared.0 as int),
        final(scoring_resource).wf(),
        cleared.1 == (old(scoring_resource).level < final(scoring_resource).level),
{
    let lines_just_cleared = grid.clear_full_rows();
    let level_up = scoring_resource.record_lines(lines_just_cleared);
    (lines_just_cleared, level_up)
}

} // verus!
