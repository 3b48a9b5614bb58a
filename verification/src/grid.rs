//! The playing field: cell occupancy for the visible rows and the hidden
//! buffer above them, the shared collision predicate, piece lock-in and
//! line clearing.
//!
//! Cells are stored row-major, row 0 at the bottom: the cell at column `x` of
//! row `y` has index `y * GRID_WIDTH + x`.

use vstd::prelude::*;
use crate::tetromino::{shape_cell, Tetromino, TetrominoColor};

verus! {

/// Columns of the board.
pub const GRID_WIDTH: usize = 10;

/// Visible rows of the board.
pub const GRID_HEIGHT: usize = 20;

/// Hidden rows above the visible ones.
pub const GRID_HIDDEN_HEIGHT: usize = 6;

/// All rows, visible and hidden.
pub const GRID_ROWS: usize = 26;

/// All cells of the board.
pub const GRID_CELLS: usize = 260;

/// One cell of the board.
#[derive(Clone, Copy, Debug, PartialEq, Eq, Structural)]
pub enum CellState {
    Empty,
    Filled(TetrominoColor),
}

/// The board.
#[derive(Clone, Debug, PartialEq, Eq)]
pub struct Grid {
    pub cells: Vec<CellState>,
}

/// Whether `(x, y)` names a cell of the board.
pub open spec fn in_bounds(x: int, y: int) -> bool {
    0 <= x < 10 && 0 <= y < 26
}

/// The cell at column `x` of row `y`.
pub open spec fn cell_at(cells: Seq<CellState>, x: int, y: int) -> CellState {
    cells[y * 10 + x]
}

/// A position is occupied when it lies outside the board or its cell is
/// filled.
pub open spec fn spec_is_occupied(cells: Seq<CellState>, x: int, y: int) -> bool {
    !in_bounds(x, y) || cell_at(cells, x, y) != CellState::Empty
}

/// Local cell `(sx, sy)` of `shape` is set and, with the shape's corner at
/// `(px, py)`, lands on an occupied position. Local rows grow downward, board
/// rows upward.
pub open spec fn cell_hits(
    cells: Seq<CellState>,
    px: int,
    py: int,
    shape: [[bool; 4]; 4],
    sx: int,
    sy: int,
) -> bool {
    shape_cell(shape, sx, sy) && spec_is_occupied(cells, px + sx, py - sy)
}

/// The one collision predicate: some set cell of the shape lands on an
/// occupied position.
pub open spec fn spec_would_collide(
    cells: Seq<CellState>,
    px: int,
    py: int,
    shape: [[bool; 4]; 4],
) -> bool {
    exists|sx: int, sy: int| #[trigger] cell_hits(cells, px, py, shape, sx, sy)
}

/// Whether the shape with its corner at `(px, py)` has a set cell on board
/// position `(x, y)`.
pub open spec fn shape_covers(px: int, py: int, shape: [[bool; 4]; 4], x: int, y: int) -> bool {
    shape_cell(shape, x - px, py - y)
}

/// Every cell of row `row` is filled.
pub open spec fn row_full(cells: Seq<CellState>, row: int) -> bool {
    forall|x: int| 0 <= x < 10 ==> #[trigger] cell_at(cells, x, row) != CellState::Empty
}

/// Every cell of row `row` is empty.
pub open spec fn row_empty(cells: Seq<CellState>, row: int) -> bool {
    forall|x: int| 0 <= x < 10 ==> #[trigger] cell_at(cells, x, row) == CellState::Empty
}

/// The rows below `n` that are not full, in ascending order.
pub open spec fn kept_rows(cells: Seq<CellState>, n: int) -> Seq<int>
    decreases n,
{
    if n <= 0 {
        Seq::empty()
    } else if row_full(cells, n - 1) {
        kept_rows(cells, n - 1)
    } else {
        kept_rows(cells, n - 1).push(n - 1)
    }
}

/// The number of full rows below `n`.
pub open spec fn full_rows(cells: Seq<CellState>, n: int) -> int
    decreases n,
{
    if n <= 0 {
        0
    } else if row_full(cells, n - 1) {
        full_rows(cells, n - 1) + 1
    } else {
        full_rows(cells, n - 1)
    }
}

/// The board that line clearing leaves: the rows that were not full, in
/// their old order from the bottom, and empty rows above them.
pub open spec fn cleared(before: Seq<CellState>, after: Seq<CellState>) -> bool {
    let kept = kept_rows(before, 26);
    &&& after.len() == 260
    &&& forall|x: int, y: int|
        0 <= x < 10 && 0 <= y < kept.len() ==> #[trigger] cell_at(after, x, y) == cell_at(
            before,
            x,
            kept[y],
        )
    &&& forall|y: int| kept.len() <= y < 26 ==> #[trigger] row_empty(after, y)
}

/// The board after a shape with its corner at `(px, py)` is written into it
/// in `color`: the cells under its set cells are filled, the others kept.
pub open spec fn spec_locked(
    cells: Seq<CellState>,
    px: int,
    py: int,
    shape: [[bool; 4]; 4],
    color: TetrominoColor,
) -> Seq<CellState> {
    Seq::new(
        260,
        |i: int|
            if shape_covers(px, py, shape, i % 10, i / 10) {
                CellState::Filled(color)
            } else {
                cells[i]
            },
    )
}

/// The board after line clearing: the rows that were not full, in their old
/// order from the bottom, and empty rows above them.
pub open spec fn spec_cleared(cells: Seq<CellState>) -> Seq<CellState> {
    let kept = kept_rows(cells, 26);
    Seq::new(
        260,
        |i: int|
            if i / 10 < kept.len() {
                cell_at(cells, i % 10, kept[i / 10])
            } else {
                CellState::Empty
            },
    )
}

/// The converting of board coordinates into an index of the cell vector.
pub fn get_vec_index_from_grid_coordinates(x: i32, y: i32) -> (index: usize)
    requires
        in_bounds(x as int, y as int),
    ensures
        index == y * 10 + x,
        index < 260,
{
    (y * 10 + x) as usize
}

impl Grid {
    /// The board holds exactly `GRID_CELLS` cells.
    pub open spec fn wf(&self) -> bool {
        self.cells@.len() == 260
    }

    /// Every cell is empty.
    pub open spec fn all_empty(&self) -> bool {
        forall|i: int| 0 <= i < self.cells@.len() ==> #[trigger] self.cells@[i] == CellState::Empty
    }

    /// An empty board.
    pub fn new() -> (grid: Self)
        ensures
            grid.wf(),
            grid.all_empty(),
    {
        let mut cells: Vec<CellState> = Vec::new();
        let mut i: usize = 0;
        while i < GRID_CELLS
            invariant
                i <= GRID_CELLS,
                cells@.len() == i,
                forall|j: int| 0 <= j < i ==> #[trigger] cells@[j] == CellState::Empty,
            decreases GRID_CELLS - i,
        {
            cells.push(CellState::Empty);
            i += 1;
        }
        Grid { cells }
    }

    /// Empties every cell.
    pub fn reset(&mut self)
        requires
            old(self).wf(),
        ensures
            final(self).wf(),
            final(self).all_empty(),
    {
        let mut i: usize = 0;
        while i < GRID_CELLS
            invariant
                i <= GRID_CELLS,
                self.cells@.len() == 260,
                forall|j: int| 0 <= j < i ==> #[trigger] self.cells@[j] == CellState::Empty,
            decreases GRID_CELLS - i,
        {
            self.cells[i] = CellState::Empty;
            i += 1;
        }
    }

    /// Whether a board position is occupied: outside the board on any side,
    /// or filled.
    pub fn is_occupied(&self, x: i32, y: i32) -> (occupied: bool)
        requires
            self.wf(),
        ensures
            occupied == spec_is_occupied(self.cells@, x as int, y as int),
    {
        if x < 0 || x >= 10 || y < 0 || y >= 26 {
            return true;
        }
        let index = get_vec_index_from_grid_coordinates(x, y);
        match self.cells[index] {
            CellState::Empty => false,
            CellState::Filled(_) => true,
        }
    }

    /// Whether the shape, with its corner at `position`, would overlap a
    /// filled cell or leave the board.
    pub fn would_collide(&self, position: (i32, i32), shape: &[[bool; 4]; 4]) -> (hit: bool)
        requires
            self.wf(),
        ensures
            hit == spec_would_collide(self.cells@, position.0 as int, position.1 as int, *shape),
    {
        let px: i64 = position.0 as i64;
        let py: i64 = position.1 as i64;
        let mut k: usize = 0;
        while k < 16
            invariant
                k <= 16,
                self.wf(),
                px == position.0,
                py == position.1,
                forall|sx: int, sy: int|
                    0 <= sx < 4 && 0 <= sy < 4 && sy * 4 + sx < k ==> !#[trigger] cell_hits(
                        self.cells@,
                        px as int,
                        py as int,
                        *shape,
                        sx,
                        sy,
                    ),
            decreases 16 - k,
        {
            let sx: usize = k % 4;
            let sy: usize = k / 4;
            if shape[sy][sx] {
                let bx: i64 = px + sx as i64;
                let by: i64 = py - sy as i64;
                let occupied = if bx < 0 || bx >= 10 || by < 0 || by >= 26 {
                    true
                } else {
                    let index: usize = (by * 10 + bx) as usize;
                    match self.cells[index] {
                        CellState::Empty => false,
                        CellState::Filled(_) => true,
                    }
                };
                if occupied {
                    assert(cell_hits(
                        self.cells@,
                        px as int,
                        py as int,
                        *shape,
                        sx as int,
                        sy as int,
                    ));
                    return true;
                }
            }
            k += 1;
        }
        false
    }

    /// Writes the piece into the board: every cell under a set cell of the
    /// piece becomes filled with the piece's colour, and no other cell
    /// changes. The piece must not collide.
    pub fn lock_into_grid(&mut self, piece: &Tetromino)
        requires
            old(self).wf(),
            !spec_would_collide(
                old(self).cells@,
                piece.position.0 as int,
                piece.position.1 as int,
                piece.shape,
            ),
        ensures
            final(self).wf(),
            final(self).cells@ == spec_locked(
                old(self).cells@,
                piece.position.0 as int,
                piece.position.1 as int,
                piece.shape,
                piece.color,
            ),
            forall|x: int, y: int|
                in_bounds(x, y) ==> #[trigger] cell_at(final(self).cells@, x, y) == (if shape_covers(
                    piece.position.0 as int,
                    piece.position.1 as int,
                    piece.shape,
                    x,
                    y,
                ) {
                    CellState::Filled(piece.color)
                } else {
                    cell_at(old(self).cells@, x, y)
                }),
    {
        let px: i64 = piece.position.0 as i64;
        let py: i64 = piece.position.1 as i64;
        let shape = &piece.shape;
        let mut k: usize = 0;
        while k < 16
            invariant
                k <= 16,
                self.cells@.len() == 260,
                px == piece.position.0,
                py == piece.position.1,
                *shape == piece.shape,
                !spec_would_collide(old(self).cells@, px as int, py as int, *shape),
                forall|x: int, y: int|
                    in_bounds(x, y) ==> #[trigger] cell_at(self.cells@, x, y) == (if shape_covers(
                        px as int,
                        py as int,
                        *shape,
                        x,
                        y,
                    ) && (py - y) * 4 + (x - px) < k {
                        CellState::Filled(piece.color)
                    } else {
                        cell_at(old(self).cells@, x, y)
                    }),
            decreases 16 - k,
        {
            let sx: usize = k % 4;
            let sy: usize = k / 4;
            if shape[sy][sx] {
                assert(!cell_hits(
                    old(self).cells@,
                    px as int,
                    py as int,
                    *shape,
                    sx as int,
                    sy as int,
                ));
                let bx: i64 = px + sx as i64;
                let by: i64 = py - sy as i64;
                let index: usize = (by * 10 + bx) as usize;
                let ghost before = self.cells@;
                self.cells[index] = CellState::Filled(piece.color);
                assert forall|x: int, y: int| in_bounds(x, y) implies #[trigger] cell_at(
                    self.cells@,
                    x,
                    y,
                ) == (if shape_covers(px as int, py as int, *shape, x, y) && (py - y) * 4 + (x
                    - px) < k + 1 {
                    CellState::Filled(piece.color)
                } else {
                    cell_at(old(self).cells@, x, y)
                }) by {
                    if x == bx && y == by {
                    } else {
                        assert(y * 10 + x != index);
                        assert(cell_at(self.cells@, x, y) == cell_at(before, x, y));
                    }
                }
            }
            k += 1;
        }
        proof {
            let model = spec_locked(old(self).cells@, px as int, py as int, *shape, piece.color);
            assert forall|i: int| 0 <= i < 260 implies self.cells@[i] == model[i] by {
                assert(self.cells@[i] == cell_at(self.cells@, i % 10, i / 10));
                if shape_covers(px as int, py as int, *shape, i % 10, i / 10) {
                    assert((py - i / 10) * 4 + (i % 10 - px) < 16);
                }
            }
            assert(self.cells@ =~= model);
        }
    }

    /// Whether every cell of row `row` is filled.
    pub fn is_all_row_filled(&self, row: usize) -> (full: bool)
        requires
            self.wf(),
            row < 26,
        ensures
            full == row_full(self.cells@, row as int),
    {
        let mut x: usize = 0;
        while x < GRID_WIDTH
            invariant
                x <= 10,
                row < 26,
                self.wf(),
                forall|c: int| 0 <= c < x ==> #[trigger] cell_at(self.cells@, c, row as int)
                    != CellState::Empty,
            decreases 10 - x,
        {
            match self.cells[row * GRID_WIDTH + x] {
                CellState::Empty => {
                    assert(cell_at(self.cells@, x as int, row as int) == CellState::Empty);
                    return false;
                },
                CellState::Filled(_) => {},
            }
            x += 1;
        }
        true
    }

    /// Whether every cell of row `row` is empty.
    pub fn is_row_empty(&self, row: usize) -> (empty: bool)
        requires
            self.wf(),
            row < 26,
        ensures
            empty == row_empty(self.cells@, row as int),
    {
        let mut x: usize = 0;
        while x < GRID_WIDTH
            invariant
                x <= 10,
                row < 26,
                self.wf(),
                forall|c: int| 0 <= c < x ==> #[trigger] cell_at(self.cells@, c, row as int)
                    == CellState::Empty,
            decreases 10 - x,
        {
            match self.cells[row * GRID_WIDTH + x] {
                CellState::Empty => {},
                CellState::Filled(_) => {
                    assert(cell_at(self.cells@, x as int, row as int) != CellState::Empty);
                    return false;
                },
            }
            x += 1;
        }
        true
    }

    /// Removes every full row. The rows that were not full keep their order
    /// and move down to close the gaps; as many empty rows as were removed
    /// come in at the top. Returns the number of rows removed.
    pub fn clear_full_rows(&mut self) -> (removed: usize)
        requires
            old(self).wf(),
        ensures
            final(self).wf(),
            removed == full_rows(old(self).cells@, 26),
            removed <= 26,
            kept_rows(old(self).cells@, 26).len() == 26 - removed,
            final(self).cells@ == spec_cleared(old(self).cells@),
            cleared(old(self).cells@, final(self).cells@),
            forall|y: int| 26 - removed <= y < 26 ==> #[trigger] row_empty(final(self).cells@, y),
            (forall|r: int| 0 <= r < 26 ==> !#[trigger] row_full(old(self).cells@, r)) ==> removed
                == 0 && final(self).cells@ == old(self).cells@,
    {
        let mut out: Vec<CellState> = Vec::new();
        let mut removed: usize = 0;
        let mut row: usize = 0;
        while row < GRID_ROWS
            invariant
                row <= 26,
                self.wf(),
                self.cells@ == old(self).cells@,
                removed == full_rows(self.cells@, row as int),
                kept_rows(self.cells@, row as int).len() + removed == row,
                out@.len() == kept_rows(self.cells@, row as int).len() * 10,
                forall|y: int|
                    0 <= y < kept_rows(self.cells@, row as int).len() ==> 0 <= #[trigger] kept_rows(
                        self.cells@,
                        row as int,
                    )[y] < row,
                forall|x: int, y: int|
                    0 <= x < 10 && 0 <= y < kept_rows(self.cells@, row as int).len()
                        ==> #[trigger] cell_at(out@, x, y) == cell_at(
                        self.cells@,
                        x,
                        kept_rows(self.cells@, row as int)[y],
                    ),
            decreases 26 - row,
        {
            let ghost kept = kept_rows(self.cells@, row as int);
            if self.is_all_row_filled(row) {
                removed += 1;
            } else {
                let ghost base = out@;
                let mut x: usize = 0;
                while x < GRID_WIDTH
                    invariant
                        x <= 10,
                        row < 26,
                        self.wf(),
                        kept.len() <= row,
                        base.len() == kept.len() * 10,
                        out@.len() == base.len() + x,
                        forall|i: int| 0 <= i < base.len() ==> out@[i] == base[i],
                        forall|c: int|
                            0 <= c < x ==> out@[base.len() + c] == #[trigger] cell_at(
                                self.cells@,
                                c,
                                row as int,
                            ),
                    decreases 10 - x,
                {
                    out.push(self.cells[row * GRID_WIDTH + x]);
                    x += 1;
                }
                proof {
                    let next = kept.push(row as int);
                    assert(kept_rows(self.cells@, row + 1) == next);
                    assert forall|x: int, y: int| 0 <= x < 10 && 0 <= y < next.len() implies #[trigger] cell_at(
                        out@,
                        x,
                        y,
                    ) == cell_at(self.cells@, x, next[y]) by {
                        if y < kept.len() {
                            assert(cell_at(base, x, y) == cell_at(self.cells@, x, kept[y]));
                            assert(out@[y * 10 + x] == base[y * 10 + x]);
                        } else {
                            assert(out@[base.len() + x] == cell_at(self.cells@, x, row as int));
                        }
                    }
                }
            }
            row += 1;
        }
        let ghost kept = kept_rows(self.cells@, 26);
        let ghost base = out@;
        while out.len() < GRID_CELLS
            invariant
                base.len() == kept.len() * 10,
                base.len() <= out@.len() <= 260,
                forall|i: int| 0 <= i < base.len() ==> out@[i] == base[i],
                forall|i: int| base.len() <= i < out@.len() ==> out@[i] == CellState::Empty,
            decreases 260 - out@.len(),
        {
            out.push(CellState::Empty);
        }
        proof {
            assert forall|x: int, y: int| 0 <= x < 10 && 0 <= y < kept.len() implies #[trigger] cell_at(
                out@,
                x,
                y,
            ) == cell_at(self.cells@, x, kept[y]) by {
                assert(cell_at(base, x, y) == cell_at(self.cells@, x, kept[y]));
                assert(out@[y * 10 + x] == base[y * 10 + x]);
            }
            assert forall|y: int| kept.len() <= y < 26 implies #[trigger] row_empty(out@, y) by {
                assert forall|x: int| 0 <= x < 10 implies #[trigger] cell_at(out@, x, y)
                    == CellState::Empty by {
                    assert(out@[y * 10 + x] == CellState::Empty);
                }
            }
            let model = spec_cleared(self.cells@);
            assert forall|i: int| 0 <= i < 260 implies out@[i] == model[i] by {
                let x = i % 10;
                let y = i / 10;
                if y < kept.len() {
                    assert(cell_at(out@, x, y) == cell_at(self.cells@, x, kept[y]));
                } else {
                    assert(row_empty(out@, y));
                    assert(cell_at(out@, x, y) == CellState::Empty);
                }
            }
            assert(out@ =~= model);
            if forall|r: int| 0 <= r < 26 ==> !#[trigger] row_full(self.cells@, r) {
                lemma_no_full_rows_keeps_all(self.cells@, 26);
                assert forall|i: int| 0 <= i < 260 implies out@[i] == self.cells@[i] by {
                    let x = i % 10;
                    let y = i / 10;
                    assert(kept[y] == y);
                    assert(cell_at(out@, x, y) == cell_at(self.cells@, x, kept[y]));
                }
                assert(out@ =~= self.cells@);
            }
        }
        self.cells = out;
        removed
    }
}

/// Empties the board.
pub fn reset_grid(grid_resource: &mut Grid)
    requires
        old(grid_resource).wf(),
    ensures
        final(grid_resource).wf(),
        final(grid_resource).all_empty(),
{
    grid_resource.reset();
}

/// Where no row below `n` is full, every row below `n` is kept and none is
/// counted as full.
pub proof fn lemma_no_full_rows_keeps_all(cells: Seq<CellState>, n: int)
    requires
        0 <= n,
        forall|r: int| 0 <= r < n ==> !#[trigger] row_full(cells, r),
    ensures
        kept_rows(cells, n) =~= Seq::new(n as nat, |i: int| i),
        full_rows(cells, n) == 0,
    decreases n,
{
    if n > 0 {
        lemma_no_full_rows_keeps_all(cells, n - 1);
        assert(!row_full(cells, n - 1));
    }
}

/// Clearing a board without a full row removes nothing and changes nothing.
pub proof fn lemma_clear_without_full_rows(cells: Seq<CellState>)
    requires
        cells.len() == 260,
        forall|r: int| 0 <= r < 26 ==> !#[trigger] row_full(cells, r),
    ensures
        full_rows(cells, 26) == 0,
        spec_cleared(cells) == cells,
{
    lemma_no_full_rows_keeps_all(cells, 26);
    let kept = kept_rows(cells, 26);
    assert forall|i: int| 0 <= i < 260 implies spec_cleared(cells)[i] == cells[i] by {
        assert(kept[i / 10] == i / 10);
    }
    assert(spec_cleared(cells) =~= cells);
}

/// A cleared board has no full row, so clearing it again removes nothing and
/// changes nothing.
pub proof fn lemma_clear_is_idempotent(cells: Seq<CellState>)
    requires
        cells.len() == 260,
    ensures
        forall|r: int| 0 <= r < 26 ==> !#[trigger] row_full(spec_cleared(cells), r),
        full_rows(spec_cleared(cells), 26) == 0,
        spec_cleared(spec_cleared(cells)) == spec_cleared(cells),
{
    let after = spec_cleared(cells);
    let kept = kept_rows(cells, 26);
    lemma_kept_rows_ordered(cells, 26);
    assert forall|r: int| 0 <= r < 26 implies !#[trigger] row_full(after, r) by {
        if r < kept.len() {
            assert(!row_full(cells, kept[r]));
            let x = choose|x: int| 0 <= x < 10 && #[trigger] cell_at(cells, x, kept[r])
                == CellState::Empty;
            assert((r * 10 + x) % 10 == x && (r * 10 + x) / 10 == r);
            assert(cell_at(after, x, r) == CellState::Empty);
        } else {
            assert((r * 10 + 0) % 10 == 0 && (r * 10 + 0) / 10 == r);
            assert(cell_at(after, 0, r) == CellState::Empty);
        }
    }
    lemma_clear_without_full_rows(after);
}

/// The kept rows are exactly the rows below `n` that are not full, in
/// ascending order; with the full rows they make up all `n` rows.
pub proof fn lemma_kept_rows_ordered(cells: Seq<CellState>, n: int)
    requires
        0 <= n,
    ensures
        kept_rows(cells, n).len() + full_rows(cells, n) == n,
        0 <= full_rows(cells, n) <= n,
        forall|j: int|
            0 <= j < kept_rows(cells, n).len() ==> j <= #[trigger] kept_rows(cells, n)[j] < n
                && !row_full(cells, kept_rows(cells, n)[j]),
        forall|i: int, j: int|
            0 <= i < j < kept_rows(cells, n).len() ==> #[trigger] kept_rows(cells, n)[i]
                < #[trigger] kept_rows(cells, n)[j],
        forall|r: int|
            0 <= r < n && !#[trigger] row_full(cells, r) ==> kept_rows(cells, n).contains(r),
    decreases n,
{
    if n > 0 {
        lemma_kept_rows_ordered(cells, n - 1);
        let before = kept_rows(cells, n - 1);
        let kept = kept_rows(cells, n);
        if !row_full(cells, n - 1) {
            assert(kept == before.push(n - 1));
            assert(kept[before.len() as int] == n - 1);
            assert forall|r: int| 0 <= r < n && !#[trigger] row_full(cells, r) implies kept.contains(
                r,
            ) by {
                if r < n - 1 {
                    let j = choose|j: int| 0 <= j < before.len() && before[j] == r;
                    assert(kept[j] == r);
                } else {
                    assert(kept[before.len() as int] == r);
                }
            }
        }
    }
}

} // verus!
