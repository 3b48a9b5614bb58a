//! Movement of the active piece against the grid: shifts, drops, rotation
//! with wall kicks, the resting test and the top-out test. Every decision
//! goes through the grid's one collision predicate.

use vstd::prelude::*;
use crate::game_manager::Intent;
use crate::grid::{cell_hits, spec_would_collide, CellState, Grid};
use crate::tetromino::{
    lemma_piece_has_a_cell, lemma_turn_keeps_pattern, shape_cell, turned_piece, Tetromino,
    TetrominoLetter,
};
use crate::timers::{spec_gravity_tick, spec_lock_tick, GravityTimer, LockInTimer};

verus! {

/// Whether the piece, moved by `(dx, dy)` on the board, is free of
/// collisions.
pub open spec fn fits(cells: Seq<CellState>, piece: Tetromino, dx: int, dy: int) -> bool {
    !spec_would_collide(cells, piece.position.0 + dx, piece.position.1 + dy, piece.shape)
}

/// The piece rests: one row further down it would collide.
pub open spec fn spec_is_resting(cells: Seq<CellState>, piece: Tetromino) -> bool {
    !fits(cells, piece, 0, -1)
}

/// The piece moved by `(dx, dy)` on the board, everything else kept.
pub open spec fn shifted(piece: Tetromino, dx: int, dy: int) -> Tetromino {
    Tetromino {
        position: ((piece.position.0 + dx) as i32, (piece.position.1 + dy) as i32),
        ..piece
    }
}

/// Local cell `(sx, sy)` of the piece is set and lies in the hidden rows
/// above the visible ones.
pub open spec fn cell_in_hidden_rows(piece: Tetromino, sx: int, sy: int) -> bool {
    shape_cell(piece.shape, sx, sy) && piece.position.1 - sy >= 20
}

/// Some set cell of the piece lies in the hidden rows.
pub open spec fn reaches_hidden_rows(piece: Tetromino) -> bool {
    exists|sx: int, sy: int| #[trigger] cell_in_hidden_rows(piece, sx, sy)
}

/// The piece can fall `distance` rows and no further: every row on the way
/// is free and one row further down it would collide.
pub open spec fn is_drop_distance(cells: Seq<CellState>, piece: Tetromino, distance: int) -> bool {
    &&& distance >= 0
    &&& forall|k: int| 1 <= k <= distance ==> #[trigger] fits(cells, piece, 0, -k)
    &&& !fits(cells, piece, 0, -distance - 1)
}

/// How many rows the piece falls on a hard drop.
pub open spec fn drop_distance(cells: Seq<CellState>, piece: Tetromino) -> int {
    choose|distance: int| is_drop_distance(cells, piece, distance)
}

/// The piece after a hard drop: moved straight down through free rows onto
/// the first row where it rests.
pub open spec fn spec_land(cells: Seq<CellState>, piece: Tetromino) -> Tetromino {
    shifted(piece, 0, -drop_distance(cells, piece))
}

/// The kick offsets for each letter and each quarter turn from rotation
/// `from` to rotation `to`, in the order in which they are tried. One table
/// serves J, L, S, T and Z, a wider one serves I, and O has none.
pub open spec fn kick_table(letter: TetrominoLetter, from: int, to: int) -> Seq<(i32, i32)> {
    match letter {
        TetrominoLetter::O => Seq::empty(),
        TetrominoLetter::I => {
            if from == 0 && to == 1 {
                seq![(0i32, 0i32), (-2i32, 0i32), (1i32, 0i32), (-2i32, -1i32), (1i32, 2i32)]
            } else if from == 1 && to == 2 {
                seq![(0i32, 0i32), (-1i32, 0i32), (2i32, 0i32), (-1i32, 2i32), (2i32, -1i32)]
            } else if from == 2 && to == 3 {
                seq![(0i32, 0i32), (2i32, 0i32), (-1i32, 0i32), (2i32, 1i32), (-1i32, -2i32)]
            } else if from == 3 && to == 0 {
                seq![(0i32, 0i32), (1i32, 0i32), (-2i32, 0i32), (1i32, -2i32), (-2i32, 1i32)]
            } else if from == 1 && to == 0 {
                seq![(0i32, 0i32), (2i32, 0i32), (-1i32, 0i32), (2i32, -1i32), (-1i32, 2i32)]
            } else if from == 2 && to == 1 {
                seq![(0i32, 0i32), (1i32, 0i32), (-2i32, 0i32), (1i32, 2i32), (-2i32, -1i32)]
            } else if from == 3 && to == 2 {
                seq![(0i32, 0i32), (-2i32, 0i32), (1i32, 0i32), (-2i32, -1i32), (1i32, 2i32)]
            } else if from == 0 && to == 3 {
                seq![(0i32, 0i32), (-1i32, 0i32), (2i32, 0i32), (-1i32, 2i32), (2i32, -1i32)]
            } else {
                Seq::empty()
            }
        },
        _ => {
            if from == 0 && to == 1 {
                seq![(0i32, 0i32), (-1i32, 0i32), (-1i32, 1i32), (0i32, -2i32), (-1i32, -2i32)]
            } else if from == 1 && to == 2 {
                seq![(0i32, 0i32), (1i32, 0i32), (1i32, 1i32), (0i32, -2i32), (1i32, -2i32)]
            } else if from == 2 && to == 3 {
                seq![(0i32, 0i32), (1i32, 0i32), (1i32, -1i32), (0i32, 2i32), (1i32, 2i32)]
            } else if from == 3 && to == 0 {
                seq![(0i32, 0i32), (-1i32, 0i32), (-1i32, -1i32), (0i32, 2i32), (-1i32, 2i32)]
            } else if from == 1 && to == 0 {
                seq![(0i32, 0i32), (1i32, 0i32), (1i32, -1i32), (0i32, 2i32), (1i32, 2i32)]
            } else if from == 2 && to == 1 {
                seq![(0i32, 0i32), (-1i32, 0i32), (-1i32, -1i32), (0i32, 2i32), (-1i32, 2i32)]
            } else if from == 3 && to == 2 {
                seq![(0i32, 0i32), (-1i32, 0i32), (-1i32, 1i32), (0i32, -2i32), (-1i32, -2i32)]
            } else if from == 0 && to == 3 {
                seq![(0i32, 0i32), (1i32, 0i32), (1i32, 1i32), (0i32, -2i32), (1i32, -2i32)]
            } else {
                Seq::empty()
            }
        },
    }
}

/// The row offset of a kick as the table writes it, with rows growing
/// downward, turned into the offset that is taken off a board row.
pub open spec fn inverted(dy: i32) -> int {
    -(dy as int)
}

/// Whether `shape`, placed at the piece's position moved by the kick, is
/// free of collisions. The kick's row offset is inverted and then taken off
/// the board row.
pub open spec fn kick_fits(
    cells: Seq<CellState>,
    px: int,
    py: int,
    shape: [[bool; 4]; 4],
    kick: (i32, i32),
) -> bool {
    !spec_would_collide(cells, px + kick.0, py - inverted(kick.1), shape)
}

/// The index of the first kick from `from` on that fits, if there is one.
pub open spec fn first_fit(
    cells: Seq<CellState>,
    px: int,
    py: int,
    shape: [[bool; 4]; 4],
    table: Seq<(i32, i32)>,
    from: int,
) -> Option<int>
    decreases table.len() - from,
{
    if from < 0 || from >= table.len() {
        None
    } else if kick_fits(cells, px, py, shape, table[from]) {
        Some(from)
    } else {
        first_fit(cells, px, py, shape, table, from + 1)
    }
}

/// The rotation index after a quarter turn.
pub open spec fn next_rotation(rotation: int, clockwise: bool) -> int {
    if clockwise {
        (rotation + 1) % 4
    } else {
        (rotation + 3) % 4
    }
}

/// The kick that a quarter turn of the piece takes: the first of its table
/// that fits the turned shape. `None` when no kick fits, and always for the
/// O piece, which never turns.
pub open spec fn turn_kick(cells: Seq<CellState>, piece: Tetromino, clockwise: bool) -> Option<
    (i32, i32),
> {
    let table = kick_table(
        piece.letter,
        piece.rotation as int,
        next_rotation(piece.rotation as int, clockwise),
    );
    match first_fit(
        cells,
        piece.position.0 as int,
        piece.position.1 as int,
        turned_piece(piece, clockwise).shape,
        table,
        0,
    ) {
        Some(i) => if piece.letter == TetrominoLetter::O {
            None
        } else {
            Some(table[i])
        },
        None => None,
    }
}

/// The piece after an attempt to turn it: turned and moved by its kick, or
/// exactly as it was when no kick fits.
pub open spec fn spec_turn(cells: Seq<CellState>, piece: Tetromino, clockwise: bool) -> Tetromino {
    match turn_kick(cells, piece, clockwise) {
        Some(kick) => shifted(turned_piece(piece, clockwise), kick.0 as int, -inverted(kick.1)),
        None => piece,
    }
}

/// Whether the intent changes the piece, or is a hard drop, which always
/// counts as a move.
pub open spec fn spec_move_succeeds(cells: Seq<CellState>, piece: Tetromino, intent: Intent) -> bool {
    match intent {
        Intent::MoveLeft => fits(cells, piece, -1, 0),
        Intent::MoveRight => fits(cells, piece, 1, 0),
        Intent::SoftDrop => fits(cells, piece, 0, -1),
        Intent::HardDrop => true,
        Intent::RotateCW => turn_kick(cells, piece, true) is Some,
        Intent::RotateCCW => turn_kick(cells, piece, false) is Some,
        _ => false,
    }
}

/// The piece after an intent. A shift or a soft drop is taken when the piece
/// fits at the new position and refused otherwise.
pub open spec fn spec_move(cells: Seq<CellState>, piece: Tetromino, intent: Intent) -> Tetromino {
    match intent {
        Intent::MoveLeft => if fits(cells, piece, -1, 0) {
            shifted(piece, -1, 0)
        } else {
            piece
        },
        Intent::MoveRight => if fits(cells, piece, 1, 0) {
            shifted(piece, 1, 0)
        } else {
            piece
        },
        Intent::SoftDrop => if fits(cells, piece, 0, -1) {
            shifted(piece, 0, -1)
        } else {
            piece
        },
        Intent::HardDrop => spec_land(cells, piece),
        Intent::RotateCW => spec_turn(cells, piece, true),
        Intent::RotateCCW => spec_turn(cells, piece, false),
        _ => piece,
    }
}

/// The lock timer after an intent: a move that succeeds puts it back to
/// zero.
pub open spec fn spec_lock_timer_after(moved: bool, timer: LockInTimer) -> LockInTimer {
    if moved {
        LockInTimer { elapsed: 0 }
    } else {
        timer
    }
}

/// The gravity timer after an intent: a soft drop that succeeds and every
/// hard drop put it back to zero.
pub open spec fn spec_gravity_timer_after(
    moved: bool,
    intent: Intent,
    timer: GravityTimer,
) -> GravityTimer {
    if moved && (intent == Intent::SoftDrop || intent == Intent::HardDrop) {
        GravityTimer { elapsed: 0, just_finished: false, ..timer }
    } else {
        timer
    }
}

/// The first fit from `from` on is an entry that fits with none before it
/// that does; there is none exactly when no entry from `from` on fits.
pub proof fn lemma_first_fit(
    cells: Seq<CellState>,
    px: int,
    py: int,
    shape: [[bool; 4]; 4],
    table: Seq<(i32, i32)>,
    from: int,
)
    requires
        0 <= from,
    ensures
        match first_fit(cells, px, py, shape, table, from) {
            Some(i) => from <= i < table.len() && kick_fits(cells, px, py, shape, table[i])
                && forall|j: int| from <= j < i ==> !#[trigger] kick_fits(cells, px, py, shape, table[j]),
            None => forall|j: int|
                from <= j < table.len() ==> !#[trigger] kick_fits(cells, px, py, shape, table[j]),
        },
    decreases table.len() - from,
{
    if from < table.len() && !kick_fits(cells, px, py, shape, table[from]) {
        lemma_first_fit(cells, px, py, shape, table, from + 1);
    }
}

/// A turn whose unkicked position collides, but for which entry `i` of the
/// kick table is the first that fits, leaves the piece turned, with the new
/// rotation index, at its old position moved by that entry.
pub proof fn lemma_turn_takes_first_fitting_kick(
    cells: Seq<CellState>,
    piece: Tetromino,
    clockwise: bool,
    i: int,
)
    requires
        piece.letter != TetrominoLetter::O,
        0 <= i < kick_table(
            piece.letter,
            piece.rotation as int,
            next_rotation(piece.rotation as int, clockwise),
        ).len(),
        kick_fits(
            cells,
            piece.position.0 as int,
            piece.position.1 as int,
            turned_piece(piece, clockwise).shape,
            kick_table(
                piece.letter,
                piece.rotation as int,
                next_rotation(piece.rotation as int, clockwise),
            )[i],
        ),
        forall|j: int|
            0 <= j < i ==> !#[trigger] kick_fits(
                cells,
                piece.position.0 as int,
                piece.position.1 as int,
                turned_piece(piece, clockwise).shape,
                kick_table(
                    piece.letter,
                    piece.rotation as int,
                    next_rotation(piece.rotation as int, clockwise),
                )[j],
            ),
    ensures
        spec_turn(cells, piece, clockwise) == shifted(
            turned_piece(piece, clockwise),
            kick_table(
                piece.letter,
                piece.rotation as int,
                next_rotation(piece.rotation as int, clockwise),
            )[i].0 as int,
            kick_table(
                piece.letter,
                piece.rotation as int,
                next_rotation(piece.rotation as int, clockwise),
            )[i].1 as int,
        ),
        spec_turn(cells, piece, clockwise).shape == turned_piece(piece, clockwise).shape,
        spec_turn(cells, piece, clockwise).rotation == next_rotation(
            piece.rotation as int,
            clockwise,
        ),
{
    let table = kick_table(
        piece.letter,
        piece.rotation as int,
        next_rotation(piece.rotation as int, clockwise),
    );
    lemma_first_fit(
        cells,
        piece.position.0 as int,
        piece.position.1 as int,
        turned_piece(piece, clockwise).shape,
        table,
        0,
    );
    let found = first_fit(
        cells,
        piece.position.0 as int,
        piece.position.1 as int,
        turned_piece(piece, clockwise).shape,
        table,
        0,
    );
    assert(found == Some(i));
}

/// A turn for which no kick fits, and every turn of the O piece, leaves the
/// piece exactly as it was.
pub proof fn lemma_refused_turn_changes_nothing(
    cells: Seq<CellState>,
    piece: Tetromino,
    clockwise: bool,
)
    requires
        turn_kick(cells, piece, clockwise) is None,
    ensures
        spec_turn(cells, piece, clockwise) == piece,
{
}

/// A piece can fall only one distance.
pub proof fn lemma_drop_distance_unique(cells: Seq<CellState>, piece: Tetromino, a: int, b: int)
    requires
        is_drop_distance(cells, piece, a),
        is_drop_distance(cells, piece, b),
    ensures
        a == b,
{
    if a < b {
        assert(fits(cells, piece, 0, -(a + 1)));
    }
    if b < a {
        assert(fits(cells, piece, 0, -(b + 1)));
    }
}

/// A shape with a set cell that is free of collisions has its frame on the
/// board.
pub proof fn lemma_fit_is_on_board(cells: Seq<CellState>, px: int, py: int, shape: [[bool; 4]; 4])
    requires
        !spec_would_collide(cells, px, py, shape),
        exists|x: int, y: int| 0 <= x < 4 && 0 <= y < 4 && #[trigger] shape_cell(shape, x, y),
    ensures
        -3 <= px <= 9,
        0 <= py <= 29,
{
    let (x, y) = choose|x: int, y: int| 0 <= x < 4 && 0 <= y < 4 && #[trigger] shape_cell(shape, x, y);
    assert(!cell_hits(cells, px, py, shape, x, y));
}

/// A well-formed piece that fits after a shift is well-formed there.
pub proof fn lemma_shift_keeps_wf(cells: Seq<CellState>, piece: Tetromino, dx: int, dy: int)
    requires
        piece.wf(),
        fits(cells, piece, dx, dy),
    ensures
        shifted(piece, dx, dy).wf(),
        shifted(piece, dx, dy).position.0 == piece.position.0 + dx,
        shifted(piece, dx, dy).position.1 == piece.position.1 + dy,
{
    lemma_piece_has_a_cell(piece);
    lemma_fit_is_on_board(cells, piece.position.0 + dx, piece.position.1 + dy, piece.shape);
}

/// Whether the piece rests on the floor or on filled cells.
pub fn is_resting(tetromino: &Tetromino, grid: &Grid) -> (resting: bool)
    requires
        grid.wf(),
        tetromino.wf(),
    ensures
        resting == spec_is_resting(grid.cells@, *tetromino),
{
    grid.would_collide((tetromino.position.0, tetromino.position.1 - 1), &tetromino.shape)
}

/// The top-out test at lock time: the piece rests and one of its cells lies
/// in the hidden rows.
pub fn is_lose_conditions(tetromino: &Tetromino, grid_resource: &Grid) -> (lost: bool)
    requires
        grid_resource.wf(),
        tetromino.wf(),
    ensures
        lost == (spec_is_resting(grid_resource.cells@, *tetromino) && reaches_hidden_rows(
            *tetromino,
        )),
{
    if !is_resting(tetromino, grid_resource) {
        return false;
    }
    let mut k: usize = 0;
    while k < 16
        invariant
            k <= 16,
            tetromino.wf(),
            spec_is_resting(grid_resource.cells@, *tetromino),
            forall|sx: int, sy: int|
                0 <= sx < 4 && 0 <= sy < 4 && sy * 4 + sx < k ==> !#[trigger] cell_in_hidden_rows(
                    *tetromino,
                    sx,
                    sy,
                ),
        decreases 16 - k,
    {
        let sx: usize = k % 4;
        let sy: usize = k / 4;
        if tetromino.shape[sy][sx] && tetromino.position.1 - sy as i32 >= 20 {
            assert(cell_in_hidden_rows(*tetromino, sx as int, sy as int));
            return true;
        }
        k += 1;
    }
    false
}

/// The kick table for a letter and a quarter turn from `from` to `to`.
pub fn get_kick_table_scenario(letter: &TetrominoLetter, from: &usize, to: &usize) -> (table: Vec<
    (i32, i32),
>)
    ensures
        table@ == kick_table(*letter, *from as int, *to as int),
{
    let f: usize = *from;
    let t: usize = *to;
    let table = match letter {
        TetrominoLetter::O => Vec::new(),
        TetrominoLetter::I => {
            if f == 0 && t == 1 {
                vec![(0i32, 0i32), (-2i32, 0i32), (1i32, 0i32), (-2i32, -1i32), (1i32, 2i32)]
            } else if f == 1 && t == 2 {
                vec![(0i32, 0i32), (-1i32, 0i32), (2i32, 0i32), (-1i32, 2i32), (2i32, -1i32)]
            } else if f == 2 && t == 3 {
                vec![(0i32, 0i32), (2i32, 0i32), (-1i32, 0i32), (2i32, 1i32), (-1i32, -2i32)]
            } else if f == 3 && t == 0 {
                vec![(0i32, 0i32), (1i32, 0i32), (-2i32, 0i32), (1i32, -2i32), (-2i32, 1i32)]
            } else if f == 1 && t == 0 {
                vec![(0i32, 0i32), (2i32, 0i32), (-1i32, 0i32), (2i32, -1i32), (-1i32, 2i32)]
            } else if f == 2 && t == 1 {
                vec![(0i32, 0i32), (1i32, 0i32), (-2i32, 0i32), (1i32, 2i32), (-2i32, -1i32)]
            } else if f == 3 && t == 2 {
                vec![(0i32, 0i32), (-2i32, 0i32), (1i32, 0i32), (-2i32, -1i32), (1i32, 2i32)]
            } else if f == 0 && t == 3 {
                vec![(0i32, 0i32), (-1i32, 0i32), (2i32, 0i32), (-1i32, 2i32), (2i32, -1i32)]
            } else {
                Vec::new()
            }
        },
        _ => {
            if f == 0 && t == 1 {
                vec![(0i32, 0i32), (-1i32, 0i32), (-1i32, 1i32), (0i32, -2i32), (-1i32, -2i32)]
            } else if f == 1 && t == 2 {
                vec![(0i32, 0i32), (1i32, 0i32), (1i32, 1i32), (0i32, -2i32), (1i32, -2i32)]
            } else if f == 2 && t == 3 {
                vec![(0i32, 0i32), (1i32, 0i32), (1i32, -1i32), (0i32, 2i32), (1i32, 2i32)]
            } else if f == 3 && t == 0 {
                vec![(0i32, 0i32), (-1i32, 0i32), (-1i32, -1i32), (0i32, 2i32), (-1i32, 2i32)]
            } else if f == 1 && t == 0 {
                vec![(0i32, 0i32), (1i32, 0i32), (1i32, -1i32), (0i32, 2i32), (1i32, 2i32)]
            } else if f == 2 && t == 1 {
                vec![(0i32, 0i32), (-1i32, 0i32), (-1i32, -1i32), (0i32, 2i32), (-1i32, 2i32)]
            } else if f == 3 && t == 2 {
                vec![(0i32, 0i32), (-1i32, 0i32), (-1i32, 1i32), (0i32, -2i32), (-1i32, -2i32)]
            } else if f == 0 && t == 3 {
                vec![(0i32, 0i32), (1i32, 0i32), (1i32, 1i32), (0i32, -2i32), (1i32, -2i32)]
            } else {
                Vec::new()
            }
        },
    };
    assert(table@ =~= kick_table(*letter, *from as int, *to as int));
    table
}

/// Every kick moves the piece by at most two cells each way, and every
/// table of a piece that turns has five kicks, the first of which is no move
/// at all.
pub proof fn lemma_kick_table_shape(letter: TetrominoLetter, from: int, to: int)
    ensures
        forall|i: int|
            0 <= i < kick_table(letter, from, to).len() ==> -2 <= (#[trigger] kick_table(
                letter,
                from,
                to,
            )[i]).0 <= 2 && -2 <= kick_table(letter, from, to)[i].1 <= 2,
        letter != TetrominoLetter::O && 0 <= from < 4 && (to == (from + 1) % 4 || to == (from + 3)
            % 4) ==> kick_table(letter, from, to).len() == 5 && kick_table(letter, from, to)[0] == (
            0i32,
            0i32,
        ),
        letter == TetrominoLetter::O ==> kick_table(letter, from, to).len() == 0,
{
}

/// Tries the kicks of the table in order against the grid with the turned
/// shape. Returns the first that fits, as the column offset and the inverted
/// row offset, which the caller adds to the column and takes off the row.
pub fn maybe_try_kicks(
    tetromino: &Tetromino,
    kick_table: &Vec<(i32, i32)>,
    grid: &Grid,
    shape: &[[bool; 4]; 4],
) -> (kick: Option<(i32, i32)>)
    requires
        grid.wf(),
        forall|i: int|
            0 <= i < kick_table@.len() ==> i32::MIN < (#[trigger] kick_table@[i]).1 && i32::MIN
                <= tetromino.position.0 + kick_table@[i].0 <= i32::MAX && i32::MIN
                <= tetromino.position.1 + kick_table@[i].1 <= i32::MAX,
    ensures
        kick == match first_fit(
            grid.cells@,
            tetromino.position.0 as int,
            tetromino.position.1 as int,
            *shape,
            kick_table@,
            0,
        ) {
            Some(i) => Some((kick_table@[i].0, (-kick_table@[i].1) as i32)),
            None => None,
        },
{
    let current_position_x = tetromino.position.0;
    let current_position_y = tetromino.position.1;
    let mut i: usize = 0;
    while i < kick_table.len()
        invariant
            i <= kick_table@.len(),
            grid.wf(),
            current_position_x == tetromino.position.0,
            current_position_y == tetromino.position.1,
            forall|j: int|
                0 <= j < kick_table@.len() ==> i32::MIN < (#[trigger] kick_table@[j]).1 && i32::MIN
                    <= tetromino.position.0 + kick_table@[j].0 <= i32::MAX && i32::MIN
                    <= tetromino.position.1 + kick_table@[j].1 <= i32::MAX,
            first_fit(
                grid.cells@,
                current_position_x as int,
                current_position_y as int,
                *shape,
                kick_table@,
                0,
            ) == first_fit(
                grid.cells@,
                current_position_x as int,
                current_position_y as int,
                *shape,
                kick_table@,
                i as int,
            ),
        decreases kick_table@.len() - i,
    {
        let (dx, dy) = kick_table[i];
        let real_dy: i32 = -dy;
        let new_x: i32 = current_position_x + dx;
        let new_y: i32 = current_position_y - real_dy;
        if !grid.would_collide((new_x, new_y), shape) {
            return Some((dx, real_dy));
        }
        i += 1;
    }
    None
}

/// Moves the piece by `(dx, dy)` on the board when it fits there. Returns
/// whether it moved.
pub fn try_shift(tetromino: &mut Tetromino, grid: &Grid, dx: i32, dy: i32) -> (moved: bool)
    requires
        old(tetromino).wf(),
        grid.wf(),
    ensures
        moved == fits(grid.cells@, *old(tetromino), dx as int, dy as int),
        *final(tetromino) == if moved {
            shifted(*old(tetromino), dx as int, dy as int)
        } else {
            *old(tetromino)
        },
        final(tetromino).wf(),
        fits(grid.cells@, *old(tetromino), 0, 0) ==> fits(grid.cells@, *final(tetromino), 0, 0),
{
    let new_x: i64 = tetromino.position.0 as i64 + dx as i64;
    let new_y: i64 = tetromino.position.1 as i64 + dy as i64;
    proof {
        if fits(grid.cells@, *tetromino, dx as int, dy as int) {
            lemma_shift_keeps_wf(grid.cells@, *tetromino, dx as int, dy as int);
        }
    }
    if new_x < -3 || new_x > 9 || new_y < 0 || new_y > 29 {
        return false;
    }
    if grid.would_collide((new_x as i32, new_y as i32), &tetromino.shape) {
        false
    } else {
        tetromino.position = (new_x as i32, new_y as i32);
        true
    }
}

/// Drops the piece straight down until it rests.
pub fn hard_drop(tetromino: &mut Tetromino, grid: &Grid)
    requires
        old(tetromino).wf(),
        grid.wf(),
    ensures
        *final(tetromino) == spec_land(grid.cells@, *old(tetromino)),
        is_drop_distance(
            grid.cells@,
            *old(tetromino),
            old(tetromino).position.1 - final(tetromino).position.1,
        ),
        spec_is_resting(grid.cells@, *final(tetromino)),
        final(tetromino).wf(),
        fits(grid.cells@, *old(tetromino), 0, 0) ==> fits(grid.cells@, *final(tetromino), 0, 0),
{
    let ghost start = *tetromino;
    let x: i32 = tetromino.position.0;
    let mut y: i32 = tetromino.position.1;
    loop
        invariant_except_break
            forall|k: int| 1 <= k <= start.position.1 - y ==> #[trigger] fits(grid.cells@, start, 0, -k),
        invariant
            grid.wf(),
            start.wf(),
            *tetromino == start,
            x == start.position.0,
            0 <= y <= start.position.1,
        ensures
            is_drop_distance(grid.cells@, start, start.position.1 - y),
        decreases y,
    {
        if grid.would_collide((x, y - 1), &tetromino.shape) {
            break;
        }
        proof {
            lemma_shift_keeps_wf(grid.cells@, start, 0, y - 1 - start.position.1);
        }
        y = y - 1;
    }
    proof {
        let distance = start.position.1 - y;
        lemma_drop_distance_unique(grid.cells@, start, distance, drop_distance(grid.cells@, start));
        if distance > 0 {
            assert(fits(grid.cells@, start, 0, -distance));
        }
    }
    tetromino.position = (x, y);
}

/// Turns the piece a quarter, clockwise or counter-clockwise, trying the
/// kicks of its table in order with the turned shape and taking the first
/// that fits. Position, shape and rotation index change together or not at
/// all. The O piece never turns. Returns whether the piece turned.
pub fn rotate(tetromino: &mut Tetromino, grid: &Grid, clockwise: bool) -> (turned: bool)
    requires
        old(tetromino).wf(),
        grid.wf(),
    ensures
        turned == (turn_kick(grid.cells@, *old(tetromino), clockwise) is Some),
        *final(tetromino) == spec_turn(grid.cells@, *old(tetromino), clockwise),
        final(tetromino).wf(),
        fits(grid.cells@, *old(tetromino), 0, 0) ==> fits(grid.cells@, *final(tetromino), 0, 0),
{
    match tetromino.letter {
        TetrominoLetter::O => {
            return false;
        },
        _ => {},
    }
    let new_shape = if clockwise {
        tetromino.rotate_tetromino_shape_clockwise()
    } else {
        tetromino.rotate_tetromino_shape_counter_clockwise()
    };
    let from_rotation: usize = tetromino.rotation;
    let to_rotation: usize = if clockwise {
        (tetromino.rotation + 1) % 4
    } else {
        (tetromino.rotation + 3) % 4
    };
    let kick_table = get_kick_table_scenario(&tetromino.letter, &from_rotation, &to_rotation);
    proof {
        lemma_kick_table_shape(tetromino.letter, from_rotation as int, to_rotation as int);
        lemma_first_fit(
            grid.cells@,
            tetromino.position.0 as int,
            tetromino.position.1 as int,
            new_shape,
            kick_table@,
            0,
        );
    }
    let maybe_new_kick = maybe_try_kicks(tetromino, &kick_table, grid, &new_shape);
    match maybe_new_kick {
        Some((dx, dy)) => {
            proof {
                let after = turned_piece(*tetromino, clockwise);
                lemma_turn_keeps_pattern(*tetromino, clockwise);
                lemma_piece_has_a_cell(after);
                lemma_fit_is_on_board(
                    grid.cells@,
                    tetromino.position.0 + dx,
                    tetromino.position.1 - dy,
                    new_shape,
                );
            }
            tetromino.position = (tetromino.position.0 + dx, tetromino.position.1 - dy);
            tetromino.rotation = to_rotation;
            tetromino.shape = new_shape;
            true
        },
        None => false,
    }
}

/// Applies one intent to the active piece. A shift, a soft drop or a turn
/// takes effect only where the piece fits afterwards; a hard drop lets the
/// piece fall until it rests and does not lock it. A move that succeeds puts
/// the lock timer back to zero, and a soft or hard drop the gravity timer
/// too. Returns whether the piece has to be drawn again.
pub fn move_tetromino(
    tetromino: &mut Tetromino,
    grid: &Grid,
    lock_in_timer: &mut LockInTimer,
    gravity_timer: &mut GravityTimer,
    intent: Intent,
) -> (moved: bool)
    requires
        old(tetromino).wf(),
        grid.wf(),
    ensures
        moved == spec_move_succeeds(grid.cells@, *old(tetromino), intent),
        *final(tetromino) == spec_move(grid.cells@, *old(tetromino), intent),
        *final(lock_in_timer) == spec_lock_timer_after(moved, *old(lock_in_timer)),
        *final(gravity_timer) == spec_gravity_timer_after(moved, intent, *old(gravity_timer)),
        moved ==> final(lock_in_timer).elapsed == 0,
        final(tetromino).wf(),
        fits(grid.cells@, *old(tetromino), 0, 0) ==> fits(grid.cells@, *final(tetromino), 0, 0),
{
    let moved = match intent {
        Intent::MoveLeft => try_shift(tetromino, grid, -1, 0),
        Intent::MoveRight => try_shift(tetromino, grid, 1, 0),
        Intent::SoftDrop => {
            let fell = try_shift(tetromino, grid, 0, -1);
            if fell {
                gravity_timer.reset();
            }
            fell
        },
        Intent::HardDrop => {
            hard_drop(tetromino, grid);
            gravity_timer.reset();
            true
        },
        Intent::RotateCW => rotate(tetromino, grid, true),
        Intent::RotateCCW => rotate(tetromino, grid, false),
        _ => false,
    };
    if moved {
        lock_in_timer.reset();
    }
    moved
}

/// Advances the gravity timer by `delta` microseconds and, when it fires,
/// lets the piece fall one row if it fits there. Returns whether the piece
/// fell.
pub fn gravity(
    tetromino: &mut Tetromino,
    grid: &Grid,
    gravity_timer: &mut GravityTimer,
    delta: u64,
) -> (fell: bool)
    requires
        old(tetromino).wf(),
        grid.wf(),
        old(gravity_timer).wf(),
    ensures
        fell == (old(gravity_timer).elapsed + delta >= old(gravity_timer).period && fits(
            grid.cells@,
            *old(tetromino),
            0,
            -1,
        )),
        *final(tetromino) == if fell {
            shifted(*old(tetromino), 0, -1)
        } else {
            *old(tetromino)
        },
        *final(gravity_timer) == spec_gravity_tick(*old(gravity_timer), delta),
        final(gravity_timer).wf(),
        final(tetromino).wf(),
        fits(grid.cells@, *old(tetromino), 0, 0) ==> fits(grid.cells@, *final(tetromino), 0, 0),
{
    if gravity_timer.tick(delta) {
        try_shift(tetromino, grid, 0, -1)
    } else {
        false
    }
}

/// Advances the lock timer by `delta` microseconds while the piece rests.
pub fn detect_lock_position(
    lock_in_timer: &mut LockInTimer,
    delta: u64,
    grid: &Grid,
    tetromino: &Tetromino,
)
    requires
        old(lock_in_timer).wf(),
        grid.wf(),
        tetromino.wf(),
    ensures
        *final(lock_in_timer) == if spec_is_resting(grid.cells@, *tetromino) {
            spec_lock_tick(*old(lock_in_timer), delta)
        } else {
            *old(lock_in_timer)
        },
        final(lock_in_timer).wf(),
{
    if is_resting(tetromino, grid) {
        lock_in_timer.tick(delta);
    }
}

/// Whether the piece has to lock now: the lock delay has passed.
pub fn maybe_lock_in_tetromino(lock_in_timer: &LockInTimer) -> (lock: bool)
    ensures
        lock == lock_in_timer.spec_finished(),
{
    lock_in_timer.finished()
}

/// The ghost piece: where the piece would rest after a hard drop. There is
/// none when the piece rests already.
pub fn ghost_piece(tetromino: &Tetromino, grid: &Grid) -> (ghost_tetromino: Option<Tetromino>)
    requires
        tetromino.wf(),
        grid.wf(),
    ensures
        ghost_tetromino == if spec_is_resting(grid.cells@, *tetromino) {
            None
        } else {
            Some(spec_land(grid.cells@, *tetromino))
        },
{
    if is_resting(tetromino, grid) {
        None
    } else {
        let mut ghost_tetromino = *tetromino;
        hard_drop(&mut ghost_tetromino, grid);
        Some(ghost_tetromino)
    }
}

} // verus!
