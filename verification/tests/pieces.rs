use tetris_engine::tetromino::{Tetromino, TetrominoColor, TetrominoLetter};

fn letters() -> [TetrominoLetter; 7] {
    [
        TetrominoLetter::I,
        TetrominoLetter::J,
        TetrominoLetter::L,
        TetrominoLetter::O,
        TetrominoLetter::S,
        TetrominoLetter::Z,
        TetrominoLetter::T,
    ]
}

fn count(shape: &[[bool; 4]; 4]) -> usize {
    shape.iter().map(|row| row.iter().filter(|cell| **cell).count()).sum()
}

const F: bool = false;
const X: bool = true;

#[test]
fn spawn_shapes_are_the_canonical_patterns() {
    assert_eq!(
        Tetromino::create_tetromino(TetrominoLetter::I).shape,
        [[X, X, X, X], [F, F, F, F], [F, F, F, F], [F, F, F, F]]
    );
    assert_eq!(
        Tetromino::create_tetromino(TetrominoLetter::J).shape,
        [[X, F, F, F], [X, X, X, F], [F, F, F, F], [F, F, F, F]]
    );
    assert_eq!(
        Tetromino::create_tetromino(TetrominoLetter::L).shape,
        [[F, F, X, F], [X, X, X, F], [F, F, F, F], [F, F, F, F]]
    );
    assert_eq!(
        Tetromino::create_tetromino(TetrominoLetter::O).shape,
        [[X, X, F, F], [X, X, F, F], [F, F, F, F], [F, F, F, F]]
    );
    assert_eq!(
        Tetromino::create_tetromino(TetrominoLetter::S).shape,
        [[F, X, X, F], [X, X, F, F], [F, F, F, F], [F, F, F, F]]
    );
    assert_eq!(
        Tetromino::create_tetromino(TetrominoLetter::Z).shape,
        [[X, X, F, F], [F, X, X, F], [F, F, F, F], [F, F, F, F]]
    );
    assert_eq!(
        Tetromino::create_tetromino(TetrominoLetter::T).shape,
        [[F, X, F, F], [X, X, X, F], [F, F, F, F], [F, F, F, F]]
    );
}

#[test]
fn pieces_spawn_unrotated_at_the_spawn_anchor() {
    for letter in letters() {
        let piece = Tetromino::create_tetromino(letter);
        assert_eq!(piece.position, (3, 21));
        assert_eq!(piece.rotation, 0);
        assert_eq!(piece.letter, letter);
        assert_eq!(count(&piece.shape), 4);
    }
}

#[test]
fn each_letter_has_its_colour() {
    let expected = [
        TetrominoColor::Cyan,
        TetrominoColor::Indigo,
        TetrominoColor::Tangerine,
        TetrominoColor::Gold,
        TetrominoColor::Emerald,
        TetrominoColor::Crimson,
        TetrominoColor::Orchid,
    ];
    for (letter, color) in letters().iter().zip(expected.iter()) {
        assert_eq!(Tetromino::create_tetromino(*letter).color, *color);
    }
}

#[test]
fn clockwise_turn_keeps_the_cell_count_at_every_rotation() {
    for letter in letters() {
        let mut piece = Tetromino::create_tetromino(letter);
        for _ in 0..4 {
            let turned = piece.rotate_tetromino_shape_clockwise();
            assert_eq!(count(&turned), count(&piece.shape));
            assert_eq!(count(&turned), 4);
            piece.shape = turned;
        }
    }
}

#[test]
fn counter_clockwise_turn_keeps_the_cell_count_at_every_rotation() {
    for letter in letters() {
        let mut piece = Tetromino::create_tetromino(letter);
        for _ in 0..4 {
            let turned = piece.rotate_tetromino_shape_counter_clockwise();
            assert_eq!(count(&turned), count(&piece.shape));
            piece.shape = turned;
        }
    }
}

#[test]
fn clockwise_turn_of_t_is_exact() {
    let piece = Tetromino::create_tetromino(TetrominoLetter::T);
    assert_eq!(
        piece.rotate_tetromino_shape_clockwise(),
        [[F, F, X, F], [F, F, X, X], [F, F, X, F], [F, F, F, F]]
    );
}

#[test]
fn counter_clockwise_turn_of_t_is_exact() {
    let piece = Tetromino::create_tetromino(TetrominoLetter::T);
    assert_eq!(
        piece.rotate_tetromino_shape_counter_clockwise(),
        [[F, F, F, F], [F, X, F, F], [X, X, F, F], [F, X, F, F]]
    );
}

#[test]
fn clockwise_turn_follows_the_formula() {
    for letter in letters() {
        let piece = Tetromino::create_tetromino(letter);
        let turned = piece.rotate_tetromino_shape_clockwise();
        for y in 0..4 {
            for x in 0..4 {
                assert_eq!(turned[x][3 - y], piece.shape[y][x]);
            }
        }
    }
}

#[test]
fn counter_clockwise_turn_follows_the_formula() {
    for letter in letters() {
        let piece = Tetromino::create_tetromino(letter);
        let turned = piece.rotate_tetromino_shape_counter_clockwise();
        for y in 0..4 {
            for x in 0..4 {
                assert_eq!(turned[3 - x][y], piece.shape[y][x]);
            }
        }
    }
}

#[test]
fn four_clockwise_turns_give_the_shape_back() {
    for letter in letters() {
        let start = Tetromino::create_tetromino(letter);
        let mut piece = start;
        for _ in 0..4 {
            piece.shape = piece.rotate_tetromino_shape_clockwise();
        }
        assert_eq!(piece.shape, start.shape);
    }
}

#[test]
fn counter_clockwise_undoes_clockwise() {
    for letter in letters() {
        let start = Tetromino::create_tetromino(letter);
        let mut piece = start;
        piece.shape = piece.rotate_tetromino_shape_clockwise();
        piece.shape = piece.rotate_tetromino_shape_counter_clockwise();
        assert_eq!(piece.shape, start.shape);
    }
}

#[test]
fn turning_the_shape_leaves_the_piece_alone() {
    let piece = Tetromino::create_tetromino(TetrominoLetter::L);
    let before = piece;
    let _ = piece.rotate_tetromino_shape_clockwise();
    assert_eq!(piece, before);
}
