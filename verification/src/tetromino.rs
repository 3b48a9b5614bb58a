//! The seven pieces: their letters, colours, local 4x4 shapes and the pure
//! quarter-turn transforms on those shapes.
//!
//! A shape is indexed `shape[y][x]`, with `y` the local row (row 0 is the top
//! row of the piece) and `x` the local column.

use vstd::prelude::*;

verus! {

/// The identity of a piece.
#[derive(Clone, Copy, Debug, PartialEq, Eq, Structural)]
pub enum TetrominoLetter {
    I,
    J,
    L,
    O,
    S,
    Z,
    T,
}

/// The colour a piece carries into the grid. It identifies which piece filled
/// a cell and has no effect on the rules.
#[derive(Clone, Copy, Debug, PartialEq, Eq, Structural)]
pub enum TetrominoColor {
    Cyan,
    Indigo,
    Tangerine,
    Gold,
    Emerald,
    Crimson,
    Orchid,
}

/// A piece: its local shape, the board position of the shape's top-left
/// corner, its rotation index, colour and letter.
#[derive(Clone, Copy, Debug, PartialEq, Eq)]
pub struct Tetromino {
    pub shape: [[bool; 4]; 4],
    pub position: (i32, i32),
    pub rotation: usize,
    pub color: TetrominoColor,
    pub letter: TetrominoLetter,
}

/// Column of the spawn position.
pub const SPAWN_X: i32 = 3;

/// Row of the spawn position.
pub const SPAWN_Y: i32 = 21;

/// Whether local cell `(x, y)` of `shape` is set. False outside the 4x4 frame.
pub open spec fn shape_cell(shape: [[bool; 4]; 4], x: int, y: int) -> bool {
    0 <= x < 4 && 0 <= y < 4 && shape[y][x]
}

/// The cells of each letter as it spawns.
pub open spec fn spawn_cell(letter: TetrominoLetter, x: int, y: int) -> bool {
    match letter {
        TetrominoLetter::I => y == 0 && 0 <= x < 4,
        TetrominoLetter::J => (y == 0 && x == 0) || (y == 1 && 0 <= x < 3),
        TetrominoLetter::L => (y == 0 && x == 2) || (y == 1 && 0 <= x < 3),
        TetrominoLetter::O => 0 <= y < 2 && 0 <= x < 2,
        TetrominoLetter::S => (y == 0 && 1 <= x < 3) || (y == 1 && 0 <= x < 2),
        TetrominoLetter::Z => (y == 0 && 0 <= x < 2) || (y == 1 && 1 <= x < 3),
        TetrominoLetter::T => (y == 0 && x == 1) || (y == 1 && 0 <= x < 3),
    }
}

/// The cells of `letter` after `rotation` clockwise quarter turns of its
/// spawn shape.
pub open spec fn canonical_cell(letter: TetrominoLetter, rotation: int, x: int, y: int) -> bool {
    if rotation == 0 {
        spawn_cell(letter, x, y)
    } else if rotation == 1 {
        spawn_cell(letter, y, 3 - x)
    } else if rotation == 2 {
        spawn_cell(letter, 3 - x, 3 - y)
    } else {
        spawn_cell(letter, 3 - y, x)
    }
}

/// The shape of each letter as it spawns.
pub open spec fn spawn_shape(letter: TetrominoLetter) -> [[bool; 4]; 4] {
    match letter {
        TetrominoLetter::I => [
            [true, true, true, true],
            [false, false, false, false],
            [false, false, false, false],
            [false, false, false, false],
        ],
        TetrominoLetter::J => [
            [true, false, false, false],
            [true, true, true, false],
            [false, false, false, false],
            [false, false, false, false],
        ],
        TetrominoLetter::L => [
            [false, false, true, false],
            [true, true, true, false],
            [false, false, false, false],
            [false, false, false, false],
        ],
        TetrominoLetter::O => [
            [true, true, false, false],
            [true, true, false, false],
            [false, false, false, false],
            [false, false, false, false],
        ],
        TetrominoLetter::S => [
            [false, true, true, false],
            [true, true, false, false],
            [false, false, false, false],
            [false, false, false, false],
        ],
        TetrominoLetter::Z => [
            [true, true, false, false],
            [false, true, true, false],
            [false, false, false, false],
            [false, false, false, false],
        ],
        TetrominoLetter::T => [
            [false, true, false, false],
            [true, true, true, false],
            [false, false, false, false],
            [false, false, false, false],
        ],
    }
}

/// The colour assigned to each letter.
pub open spec fn letter_color(letter: TetrominoLetter) -> TetrominoColor {
    match letter {
        TetrominoLetter::I => TetrominoColor::Cyan,
        TetrominoLetter::J => TetrominoColor::Indigo,
        TetrominoLetter::L => TetrominoColor::Tangerine,
        TetrominoLetter::O => TetrominoColor::Gold,
        TetrominoLetter::S => TetrominoColor::Emerald,
        TetrominoLetter::Z => TetrominoColor::Crimson,
        TetrominoLetter::T => TetrominoColor::Orchid,
    }
}

/// The piece that spawns for a letter: its spawn shape at the spawn position,
/// unrotated, in the letter's colour.
pub open spec fn spec_create(letter: TetrominoLetter) -> Tetromino {
    Tetromino {
        shape: spawn_shape(letter),
        position: (SPAWN_X, SPAWN_Y),
        rotation: 0,
        color: letter_color(letter),
        letter,
    }
}

/// `after` is `before` turned a quarter clockwise: `after[x][3 - y] == before[y][x]`.
pub open spec fn is_clockwise_turn(before: [[bool; 4]; 4], after: [[bool; 4]; 4]) -> bool {
    forall|x: int, y: int|
        0 <= x < 4 && 0 <= y < 4 ==> #[trigger] shape_cell(after, x, y) == shape_cell(
            before,
            y,
            3 - x,
        )
}

/// `after` is `before` turned a quarter counter-clockwise:
/// `after[3 - x][y] == before[y][x]`.
pub open spec fn is_counter_clockwise_turn(before: [[bool; 4]; 4], after: [[bool; 4]; 4]) -> bool {
    forall|x: int, y: int|
        0 <= x < 4 && 0 <= y < 4 ==> #[trigger] shape_cell(after, x, y) == shape_cell(
            before,
            3 - y,
            x,
        )
}

/// The shape turned a quarter clockwise.
pub open spec fn spec_turn_clockwise(s: [[bool; 4]; 4]) -> [[bool; 4]; 4] {
    [
        [s[3][0], s[2][0], s[1][0], s[0][0]],
        [s[3][1], s[2][1], s[1][1], s[0][1]],
        [s[3][2], s[2][2], s[1][2], s[0][2]],
        [s[3][3], s[2][3], s[1][3], s[0][3]],
    ]
}

/// The shape turned a quarter counter-clockwise.
pub open spec fn spec_turn_counter_clockwise(s: [[bool; 4]; 4]) -> [[bool; 4]; 4] {
    [
        [s[0][3], s[1][3], s[2][3], s[3][3]],
        [s[0][2], s[1][2], s[2][2], s[3][2]],
        [s[0][1], s[1][1], s[2][1], s[3][1]],
        [s[0][0], s[1][0], s[2][0], s[3][0]],
    ]
}

/// 1 for a set cell, 0 for a clear one.
pub open spec fn cell_weight(shape: [[bool; 4]; 4], x: int, y: int) -> nat {
    if shape_cell(shape, x, y) {
        1
    } else {
        0
    }
}

/// The number of set cells in local row `y`.
pub open spec fn row_count(shape: [[bool; 4]; 4], y: int) -> nat {
    cell_weight(shape, 0, y) + cell_weight(shape, 1, y) + cell_weight(shape, 2, y) + cell_weight(
        shape,
        3,
        y,
    )
}

/// The number of set cells in local column `x`.
pub open spec fn column_count(shape: [[bool; 4]; 4], x: int) -> nat {
    cell_weight(shape, x, 0) + cell_weight(shape, x, 1) + cell_weight(shape, x, 2) + cell_weight(
        shape,
        x,
        3,
    )
}

/// The number of set cells of a shape.
pub open spec fn shape_count(shape: [[bool; 4]; 4]) -> nat {
    row_count(shape, 0) + row_count(shape, 1) + row_count(shape, 2) + row_count(shape, 3)
}

/// Two shapes with the same cells.
pub open spec fn same_shape(a: [[bool; 4]; 4], b: [[bool; 4]; 4]) -> bool {
    forall|x: int, y: int|
        0 <= x < 4 && 0 <= y < 4 ==> #[trigger] shape_cell(a, x, y) == shape_cell(b, x, y)
}

impl Tetromino {
    /// The shape is the pattern of the letter at the rotation index, and the
    /// colour is the letter's.
    pub open spec fn has_pattern(&self) -> bool {
        &&& self.rotation < 4
        &&& self.color == letter_color(self.letter)
        &&& forall|x: int, y: int|
            0 <= x < 4 && 0 <= y < 4 ==> #[trigger] shape_cell(self.shape, x, y) == canonical_cell(
                self.letter,
                self.rotation as int,
                x,
                y,
            )
    }

    /// The piece has its pattern and its 4x4 frame overlaps the board.
    pub open spec fn wf(&self) -> bool {
        &&& self.has_pattern()
        &&& -3 <= self.position.0 <= 9
        &&& 0 <= self.position.1 <= 29
    }

    /// A fresh piece of the given letter at the spawn position, unrotated.
    pub fn create_tetromino(letter: TetrominoLetter) -> (piece: Self)
        ensures
            piece == spec_create(letter),
            piece.wf(),
            forall|x: int, y: int|
                0 <= x < 4 && 0 <= y < 4 ==> #[trigger] shape_cell(piece.shape, x, y)
                    == spawn_cell(letter, x, y),
    {
        let shape = match letter {
            TetrominoLetter::I => [
                [true, true, true, true],
                [false, false, false, false],
                [false, false, false, false],
                [false, false, false, false],
            ],
            TetrominoLetter::J => [
                [true, false, false, false],
                [true, true, true, false],
                [false, false, false, false],
                [false, false, false, false],
            ],
            TetrominoLetter::L => [
                [false, false, true, false],
                [true, true, true, false],
                [false, false, false, false],
                [false, false, false, false],
            ],
            TetrominoLetter::O => [
                [true, true, false, false],
                [true, true, false, false],
                [false, false, false, false],
                [false, false, false, false],
            ],
            TetrominoLetter::S => [
                [false, true, true, false],
                [true, true, false, false],
                [false, false, false, false],
                [false, false, false, false],
            ],
            TetrominoLetter::Z => [
                [true, true, false, false],
                [false, true, true, false],
                [false, false, false, false],
                [false, false, false, false],
            ],
            TetrominoLetter::T => [
                [false, true, false, false],
                [true, true, true, false],
                [false, false, false, false],
                [false, false, false, false],
            ],
        };
        let color = match letter {
            TetrominoLetter::I => TetrominoColor::Cyan,
            TetrominoLetter::J => TetrominoColor::Indigo,
            TetrominoLetter::L => TetrominoColor::Tangerine,
            TetrominoLetter::O => TetrominoColor::Gold,
            TetrominoLetter::S => TetrominoColor::Emerald,
            TetrominoLetter::Z => TetrominoColor::Crimson,
            TetrominoLetter::T => TetrominoColor::Orchid,
        };
        proof {
            let model = spawn_shape(letter);
            assert(shape[0] =~= model[0]);
            assert(shape[1] =~= model[1]);
            assert(shape[2] =~= model[2]);
            assert(shape[3] =~= model[3]);
            assert(shape =~= model);
        }
        Self { shape, position: (SPAWN_X, SPAWN_Y), rotation: 0, color, letter }
    }

    /// Whether the piece is well-formed: its shape is the pattern of its
    /// letter at its rotation index, its colour is the letter's, and its
    /// frame overlaps the board.
    pub fn is_valid(&self) -> (valid: bool)
        ensures
            valid == self.wf(),
    {
        if self.rotation >= 4 || self.position.0 < -3 || self.position.0 > 9 || self.position.1 < 0
            || self.position.1 > 29 {
            return false;
        }
        let mut pattern = Tetromino::create_tetromino(self.letter);
        if self.color != pattern.color {
            return false;
        }
        let mut turns: usize = 0;
        while turns < self.rotation
            invariant
                turns <= self.rotation < 4,
                pattern.has_pattern(),
                pattern.rotation == turns,
                pattern.letter == self.letter,
            decreases self.rotation - turns,
        {
            proof {
                lemma_turn_keeps_pattern(pattern, true);
            }
            pattern.shape = pattern.rotate_tetromino_shape_clockwise();
            turns += 1;
            pattern.rotation = turns;
        }
        let mut k: usize = 0;
        while k < 16
            invariant
                k <= 16,
                self.rotation < 4,
                self.color == letter_color(self.letter),
                pattern.has_pattern(),
                pattern.rotation == self.rotation,
                pattern.letter == self.letter,
                forall|x: int, y: int|
                    0 <= x < 4 && 0 <= y < 4 && y * 4 + x < k ==> #[trigger] shape_cell(
                        self.shape,
                        x,
                        y,
                    ) == shape_cell(pattern.shape, x, y),
            decreases 16 - k,
        {
            let x: usize = k % 4;
            let y: usize = k / 4;
            if self.shape[y][x] != pattern.shape[y][x] {
                assert(shape_cell(self.shape, x as int, y as int) != shape_cell(
                    pattern.shape,
                    x as int,
                    y as int,
                ));
                return false;
            }
            k += 1;
        }
        true
    }

    /// The local shape turned a quarter clockwise. The piece is not changed.
    pub fn rotate_tetromino_shape_clockwise(&self) -> (turned: [[bool; 4]; 4])
        ensures
            turned == spec_turn_clockwise(self.shape),
            is_clockwise_turn(self.shape, turned),
            shape_count(turned) == shape_count(self.shape),
    {
        let s = &self.shape;
        let row0 = [s[3][0], s[2][0], s[1][0], s[0][0]];
        let row1 = [s[3][1], s[2][1], s[1][1], s[0][1]];
        let row2 = [s[3][2], s[2][2], s[1][2], s[0][2]];
        let row3 = [s[3][3], s[2][3], s[1][3], s[0][3]];
        let turned = [row0, row1, row2, row3];
        proof {
            assert forall|x: int, y: int| 0 <= x < 4 && 0 <= y < 4 implies #[trigger] shape_cell(
                turned,
                x,
                y,
            ) == shape_cell(self.shape, y, 3 - x) by {
                let row = turned[y];
                assert(row == if y == 0 {
                    row0
                } else if y == 1 {
                    row1
                } else if y == 2 {
                    row2
                } else {
                    row3
                });
            }
            lemma_clockwise_turn_keeps_count(self.shape, turned);
            let model = spec_turn_clockwise(self.shape);
            assert(row0 =~= model[0]);
            assert(row1 =~= model[1]);
            assert(row2 =~= model[2]);
            assert(row3 =~= model[3]);
            assert(turned =~= model);
        }
        turned
    }

    /// The local shape turned a quarter counter-clockwise. The piece is not
    /// changed.
    pub fn rotate_tetromino_shape_counter_clockwise(&self) -> (turned: [[bool; 4]; 4])
        ensures
            turned == spec_turn_counter_clockwise(self.shape),
            is_counter_clockwise_turn(self.shape, turned),
            shape_count(turned) == shape_count(self.shape),
    {
        let s = &self.shape;
        let row0 = [s[0][3], s[1][3], s[2][3], s[3][3]];
        let row1 = [s[0][2], s[1][2], s[2][2], s[3][2]];
        let row2 = [s[0][1], s[1][1], s[2][1], s[3][1]];
        let row3 = [s[0][0], s[1][0], s[2][0], s[3][0]];
        let turned = [row0, row1, row2, row3];
        proof {
            assert forall|x: int, y: int| 0 <= x < 4 && 0 <= y < 4 implies #[trigger] shape_cell(
                turned,
                x,
                y,
            ) == shape_cell(self.shape, 3 - y, x) by {
                let row = turned[y];
                assert(row == if y == 0 {
                    row0
                } else if y == 1 {
                    row1
                } else if y == 2 {
                    row2
                } else {
                    row3
                });
            }
            lemma_counter_clockwise_turn_keeps_count(self.shape, turned);
            let model = spec_turn_counter_clockwise(self.shape);
            assert(row0 =~= model[0]);
            assert(row1 =~= model[1]);
            assert(row2 =~= model[2]);
            assert(row3 =~= model[3]);
            assert(turned =~= model);
        }
        turned
    }
}

/// The shape as the sum of its columns.
proof fn lemma_count_by_columns(shape: [[bool; 4]; 4])
    ensures
        shape_count(shape) == column_count(shape, 0) + column_count(shape, 1) + column_count(
            shape,
            2,
        ) + column_count(shape, 3),
{
}

/// A clockwise quarter turn keeps the number of set cells.
pub proof fn lemma_clockwise_turn_keeps_count(before: [[bool; 4]; 4], after: [[bool; 4]; 4])
    requires
        is_clockwise_turn(before, after),
    ensures
        shape_count(after) == shape_count(before),
{
    assert forall|y: int| 0 <= y < 4 implies row_count(after, y) == column_count(before, y) by {
        assert(shape_cell(after, 0, y) == shape_cell(before, y, 3));
        assert(shape_cell(after, 1, y) == shape_cell(before, y, 2));
        assert(shape_cell(after, 2, y) == shape_cell(before, y, 1));
        assert(shape_cell(after, 3, y) == shape_cell(before, y, 0));
    }
    lemma_count_by_columns(before);
}

/// A counter-clockwise quarter turn keeps the number of set cells.
pub proof fn lemma_counter_clockwise_turn_keeps_count(
    before: [[bool; 4]; 4],
    after: [[bool; 4]; 4],
)
    requires
        is_counter_clockwise_turn(before, after),
    ensures
        shape_count(after) == shape_count(before),
{
    assert forall|y: int| 0 <= y < 4 implies row_count(after, y) == column_count(before, 3 - y) by {
        assert(shape_cell(after, 0, y) == shape_cell(before, 3 - y, 0));
        assert(shape_cell(after, 1, y) == shape_cell(before, 3 - y, 1));
        assert(shape_cell(after, 2, y) == shape_cell(before, 3 - y, 2));
        assert(shape_cell(after, 3, y) == shape_cell(before, 3 - y, 3));
    }
    lemma_count_by_columns(before);
}

/// The turned shapes are the shapes that the turn formulas describe.
pub proof fn lemma_turns_follow_the_formulas(shape: [[bool; 4]; 4])
    ensures
        is_clockwise_turn(shape, spec_turn_clockwise(shape)),
        is_counter_clockwise_turn(shape, spec_turn_counter_clockwise(shape)),
{
    let right = spec_turn_clockwise(shape);
    let left = spec_turn_counter_clockwise(shape);
    assert forall|x: int, y: int| 0 <= x < 4 && 0 <= y < 4 implies #[trigger] shape_cell(
        right,
        x,
        y,
    ) == shape_cell(shape, y, 3 - x) by {
        let row = right[y];
    }
    assert forall|x: int, y: int| 0 <= x < 4 && 0 <= y < 4 implies #[trigger] shape_cell(
        left,
        x,
        y,
    ) == shape_cell(shape, 3 - y, x) by {
        let row = left[y];
    }
}

/// Turning any shape a quarter, either way, keeps the number of its set
/// cells.
pub proof fn lemma_turn_keeps_count(shape: [[bool; 4]; 4])
    ensures
        shape_count(spec_turn_clockwise(shape)) == shape_count(shape),
        shape_count(spec_turn_counter_clockwise(shape)) == shape_count(shape),
{
    lemma_turns_follow_the_formulas(shape);
    lemma_clockwise_turn_keeps_count(shape, spec_turn_clockwise(shape));
    lemma_counter_clockwise_turn_keeps_count(shape, spec_turn_counter_clockwise(shape));
}

/// Two shapes with the same cells are the same shape.
pub proof fn lemma_same_shape_is_equal(a: [[bool; 4]; 4], b: [[bool; 4]; 4])
    requires
        same_shape(a, b),
    ensures
        a == b,
{
    assert forall|y: int| 0 <= y < 4 implies a[y] == b[y] by {
        assert forall|x: int| 0 <= x < 4 implies a[y][x] == b[y][x] by {
            assert(shape_cell(a, x, y) == shape_cell(b, x, y));
        }
        assert(a[y] =~= b[y]);
    }
    assert(a =~= b);
}

/// A clockwise and a counter-clockwise quarter turn undo each other, and
/// four clockwise quarter turns give the shape back.
pub proof fn lemma_turns_are_inverse(shape: [[bool; 4]; 4])
    ensures
        spec_turn_counter_clockwise(spec_turn_clockwise(shape)) == shape,
        spec_turn_clockwise(spec_turn_counter_clockwise(shape)) == shape,
        spec_turn_clockwise(
            spec_turn_clockwise(spec_turn_clockwise(spec_turn_clockwise(shape))),
        ) == shape,
{
    let right = spec_turn_clockwise(shape);
    let left = spec_turn_counter_clockwise(shape);
    let half = spec_turn_clockwise(right);
    let three = spec_turn_clockwise(half);
    lemma_turns_follow_the_formulas(shape);
    lemma_turns_follow_the_formulas(right);
    lemma_turns_follow_the_formulas(left);
    lemma_turns_follow_the_formulas(half);
    lemma_turns_follow_the_formulas(three);
    let back = spec_turn_counter_clockwise(right);
    let forth = spec_turn_clockwise(left);
    let round = spec_turn_clockwise(three);
    assert forall|x: int, y: int| 0 <= x < 4 && 0 <= y < 4 implies #[trigger] shape_cell(
        back,
        x,
        y,
    ) == shape_cell(shape, x, y) by {
        assert(shape_cell(back, x, y) == shape_cell(right, 3 - y, x));
    }
    assert forall|x: int, y: int| 0 <= x < 4 && 0 <= y < 4 implies #[trigger] shape_cell(
        forth,
        x,
        y,
    ) == shape_cell(shape, x, y) by {
        assert(shape_cell(forth, x, y) == shape_cell(left, y, 3 - x));
    }
    assert forall|x: int, y: int| 0 <= x < 4 && 0 <= y < 4 implies #[trigger] shape_cell(
        round,
        x,
        y,
    ) == shape_cell(shape, x, y) by {
        assert(shape_cell(round, x, y) == shape_cell(three, y, 3 - x));
        assert(shape_cell(three, y, 3 - x) == shape_cell(half, 3 - x, 3 - y));
        assert(shape_cell(half, 3 - x, 3 - y) == shape_cell(right, 3 - y, x));
    }
    lemma_same_shape_is_equal(back, shape);
    lemma_same_shape_is_equal(forth, shape);
    lemma_same_shape_is_equal(round, shape);
}

/// Every piece at every rotation has exactly four set cells.
pub proof fn lemma_piece_has_four_cells(piece: Tetromino)
    requires
        piece.has_pattern(),
    ensures
        shape_count(piece.shape) == 4,
{
    lemma_all_cells_canonical(piece);
}

/// Spells the shape invariant out for each of the sixteen cells.
proof fn lemma_all_cells_canonical(piece: Tetromino)
    requires
        piece.has_pattern(),
    ensures
        forall|x: int, y: int|
            0 <= x < 4 && 0 <= y < 4 ==> shape_cell(piece.shape, x, y) == #[trigger] canonical_cell(
                piece.letter,
                piece.rotation as int,
                x,
                y,
            ),
{
    assert forall|x: int, y: int| 0 <= x < 4 && 0 <= y < 4 implies shape_cell(piece.shape, x, y)
        == #[trigger] canonical_cell(piece.letter, piece.rotation as int, x, y) by {
        assert(shape_cell(piece.shape, x, y) == canonical_cell(
            piece.letter,
            piece.rotation as int,
            x,
            y,
        ));
    }
}

/// The piece that spawns for a letter is well-formed, and its shape holds
/// the letter's spawn cells.
pub proof fn lemma_spawned_piece_wf(letter: TetrominoLetter)
    ensures
        spec_create(letter).wf(),
        forall|x: int, y: int|
            0 <= x < 4 && 0 <= y < 4 ==> #[trigger] shape_cell(spawn_shape(letter), x, y)
                == spawn_cell(letter, x, y),
{
    let shape = spawn_shape(letter);
    assert forall|x: int, y: int| 0 <= x < 4 && 0 <= y < 4 implies #[trigger] shape_cell(
        shape,
        x,
        y,
    ) == spawn_cell(letter, x, y) by {
        let row = shape[y];
        let value = row[x];
    }
}

/// A piece with its pattern has a set cell.
pub proof fn lemma_piece_has_a_cell(piece: Tetromino)
    requires
        piece.has_pattern(),
    ensures
        exists|x: int, y: int| 0 <= x < 4 && 0 <= y < 4 && #[trigger] shape_cell(piece.shape, x, y),
{
    let r = piece.rotation as int;
    let (x, y): (int, int) = if piece.letter == TetrominoLetter::I {
        if r == 0 {
            (0, 0)
        } else if r == 1 {
            (3, 0)
        } else if r == 2 {
            (0, 3)
        } else {
            (0, 0)
        }
    } else {
        if r == 0 {
            (1, 1)
        } else if r == 1 {
            (2, 1)
        } else if r == 2 {
            (2, 2)
        } else {
            (1, 2)
        }
    };
    assert(canonical_cell(piece.letter, r, x, y));
    assert(shape_cell(piece.shape, x, y));
}

/// The piece after a quarter turn in place: the shape turned and the
/// rotation index stepped forward for a clockwise turn, back for a
/// counter-clockwise one.
pub open spec fn turned_piece(piece: Tetromino, clockwise: bool) -> Tetromino {
    Tetromino {
        shape: if clockwise {
            spec_turn_clockwise(piece.shape)
        } else {
            spec_turn_counter_clockwise(piece.shape)
        },
        rotation: if clockwise {
            ((piece.rotation + 1) % 4) as usize
        } else {
            ((piece.rotation + 3) % 4) as usize
        },
        ..piece
    }
}

/// A quarter turn of a piece with its pattern gives a piece with its
/// pattern.
pub proof fn lemma_turn_keeps_pattern(piece: Tetromino, clockwise: bool)
    requires
        piece.has_pattern(),
    ensures
        turned_piece(piece, clockwise).has_pattern(),
{
    let turned = if clockwise {
        spec_turn_clockwise(piece.shape)
    } else {
        spec_turn_counter_clockwise(piece.shape)
    };
    let to = if clockwise {
        (piece.rotation + 1) % 4
    } else {
        (piece.rotation + 3) % 4
    };
    assert forall|x: int, y: int| 0 <= x < 4 && 0 <= y < 4 implies #[trigger] shape_cell(
        turned,
        x,
        y,
    ) == canonical_cell(piece.letter, to, x, y) by {
        let row = turned[y];
        if clockwise {
            assert(shape_cell(turned, x, y) == shape_cell(piece.shape, y, 3 - x));
            assert(shape_cell(piece.shape, y, 3 - x) == canonical_cell(
                piece.letter,
                piece.rotation as int,
                y,
                3 - x,
            ));
        } else {
            assert(shape_cell(turned, x, y) == shape_cell(piece.shape, 3 - y, x));
            assert(shape_cell(piece.shape, 3 - y, x) == canonical_cell(
                piece.letter,
                piece.rotation as int,
                3 - y,
                x,
            ));
        }
    }
}

} // verus!
