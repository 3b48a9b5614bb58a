use std::collections::VecDeque;
use tetris_engine::queue::{
    detect_bag_low, restart_queue, shuffle_tetrominoes_into_queue, shuffled_bag,
    spawn_next_piece, spawn_tetromino, TetrominoQueue,
};
use tetris_engine::tetromino::{Tetromino, TetrominoLetter};

fn letters() -> [TetrominoLetter; 7] {
    [
        TetrominoLetter::I,
        TetrominoLetter::J,
        TetrominoLetter::L,
        TetrominoLetter::O,
        TetrominoLetter::S,
        TetrominoLetter::Z,
        TetrominoLetter::T,
    ]
}

fn assert_is_bag(bag: &[TetrominoLetter]) {
    assert_eq!(bag.len(), 7);
    for letter in letters() {
        assert_eq!(bag.iter().filter(|l| **l == letter).count(), 1, "{letter:?}");
    }
}

#[test]
fn a_shuffled_bag_holds_each_letter_once() {
    for _ in 0..200 {
        assert_is_bag(&shuffled_bag());
    }
}

#[test]
fn the_shuffle_changes_the_order() {
    let laid_out = vec![
        TetrominoLetter::I,
        TetrominoLetter::O,
        TetrominoLetter::T,
        TetrominoLetter::S,
        TetrominoLetter::Z,
        TetrominoLetter::J,
        TetrominoLetter::L,
    ];
    assert!((0..200).any(|_| shuffled_bag() != laid_out));
}

#[test]
fn a_refill_appends_one_bag_at_the_tail() {
    let mut queue = TetrominoQueue::new();
    assert_eq!(queue.queue.len(), 0);
    shuffle_tetrominoes_into_queue(&mut queue);
    let first: Vec<TetrominoLetter> = queue.queue.iter().copied().collect();
    assert_is_bag(&first);
    shuffle_tetrominoes_into_queue(&mut queue);
    let all: Vec<TetrominoLetter> = queue.queue.iter().copied().collect();
    assert_eq!(all.len(), 14);
    assert_eq!(&all[..7], &first[..]);
    assert_is_bag(&all[7..]);
}

#[test]
fn refill_with_keeps_the_order_of_the_bag() {
    let mut queue = TetrominoQueue { queue: VecDeque::from(vec![TetrominoLetter::T]) };
    queue.refill_with(&vec![TetrominoLetter::S, TetrominoLetter::Z, TetrominoLetter::I]);
    assert_eq!(
        queue.queue,
        VecDeque::from(vec![
            TetrominoLetter::T,
            TetrominoLetter::S,
            TetrominoLetter::Z,
            TetrominoLetter::I
        ])
    );
}

#[test]
fn the_queue_is_low_at_exactly_one_letter() {
    let mut queue = TetrominoQueue::new();
    assert!(!detect_bag_low(&queue));
    queue.queue.push_back(TetrominoLetter::J);
    assert!(detect_bag_low(&queue));
    queue.queue.push_back(TetrominoLetter::L);
    assert!(!detect_bag_low(&queue));
}

#[test]
fn restart_clears_the_queue() {
    let mut queue = TetrominoQueue::new();
    shuffle_tetrominoes_into_queue(&mut queue);
    restart_queue(&mut queue);
    assert!(queue.queue.is_empty());
    shuffle_tetrominoes_into_queue(&mut queue);
    assert_eq!(queue.queue.len(), 7);
}

#[test]
fn spawn_takes_the_head_and_preview_shows_the_next() {
    let mut queue = TetrominoQueue {
        queue: VecDeque::from(vec![TetrominoLetter::S, TetrominoLetter::I, TetrominoLetter::O]),
    };
    assert_eq!(spawn_next_piece(&queue), Some(Tetromino::create_tetromino(TetrominoLetter::S)));
    let piece = spawn_tetromino(&mut queue);
    assert_eq!(piece, Tetromino::create_tetromino(TetrominoLetter::S));
    assert_eq!(queue.queue, VecDeque::from(vec![TetrominoLetter::I, TetrominoLetter::O]));
    assert_eq!(spawn_next_piece(&queue), Some(Tetromino::create_tetromino(TetrominoLetter::I)));
    assert_eq!(queue.queue.len(), 2);
    assert_eq!(queue.pop_next(), TetrominoLetter::I);
    assert_eq!(queue.pop_next(), TetrominoLetter::O);
    assert_eq!(spawn_next_piece(&queue), None);
}
