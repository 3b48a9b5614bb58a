//! The supply of upcoming pieces: a first-in first-out queue of letters that
//! is refilled with shuffled bags of all seven.

use rand::seq::SliceRandom;
use rand::thread_rng;
use std::collections::VecDeque;
use vstd::prelude::*;
use crate::tetromino::{spec_create, Tetromino, TetrominoLetter};

verus! {

/// The upcoming letters, the next one at the front.
#[derive(Clone, Debug, PartialEq, Eq)]
pub struct TetrominoQueue {
    pub queue: VecDeque<TetrominoLetter>,
}

impl View for TetrominoQueue {
    type V = Seq<TetrominoLetter>;

    open spec fn view(&self) -> Seq<TetrominoLetter> {
        self.queue@
    }
}

/// A bag: seven letters, each of the seven exactly once.
pub open spec fn is_bag(letters: Seq<TetrominoLetter>) -> bool {
    &&& letters.len() == 7
    &&& forall|letter: TetrominoLetter| #[trigger] letters.to_multiset().count(letter) == 1
}

/// The seven letters in the order in which a bag is laid out before it is
/// shuffled.
pub open spec fn fresh_bag() -> Seq<TetrominoLetter> {
    seq![
        TetrominoLetter::I,
        TetrominoLetter::O,
        TetrominoLetter::T,
        TetrominoLetter::S,
        TetrominoLetter::Z,
        TetrominoLetter::J,
        TetrominoLetter::L,
    ]
}

/// The queue is low: one letter is left.
pub open spec fn spec_bag_low(letters: Seq<TetrominoLetter>) -> bool {
    letters.len() == 1
}

/// The unshuffled bag is a bag.
pub proof fn lemma_fresh_bag_is_bag()
    ensures
        is_bag(fresh_bag()),
{
    broadcast use vstd::multiset::group_multiset_axioms;

    let s0 = Seq::<TetrominoLetter>::empty();
    let s1 = s0.push(TetrominoLetter::I);
    let s2 = s1.push(TetrominoLetter::O);
    let s3 = s2.push(TetrominoLetter::T);
    let s4 = s3.push(TetrominoLetter::S);
    let s5 = s4.push(TetrominoLetter::Z);
    let s6 = s5.push(TetrominoLetter::J);
    let s7 = s6.push(TetrominoLetter::L);
    vstd::seq_lib::to_multiset_len(s0);
    assert(s0.to_multiset() =~= vstd::multiset::Multiset::empty());
    vstd::seq_lib::to_multiset_build(s0, TetrominoLetter::I);
    vstd::seq_lib::to_multiset_build(s1, TetrominoLetter::O);
    vstd::seq_lib::to_multiset_build(s2, TetrominoLetter::T);
    vstd::seq_lib::to_multiset_build(s3, TetrominoLetter::S);
    vstd::seq_lib::to_multiset_build(s4, TetrominoLetter::Z);
    vstd::seq_lib::to_multiset_build(s5, TetrominoLetter::J);
    vstd::seq_lib::to_multiset_build(s6, TetrominoLetter::L);
    assert(s7 =~= fresh_bag());
    assert forall|letter: TetrominoLetter| #[trigger]
        fresh_bag().to_multiset().count(letter) == 1 by {
        match letter {
            TetrominoLetter::I => {},
            TetrominoLetter::O => {},
            TetrominoLetter::T => {},
            TetrominoLetter::S => {},
            TetrominoLetter::Z => {},
            TetrominoLetter::J => {},
            TetrominoLetter::L => {},
        }
    }
}

/// A bag holds every letter, and no letter at two places.
pub proof fn lemma_bag_has_each_letter_once(letters: Seq<TetrominoLetter>)
    requires
        is_bag(letters),
    ensures
        forall|letter: TetrominoLetter| #[trigger] letters.contains(letter),
        letters.no_duplicates(),
{
    assert forall|letter: TetrominoLetter| #[trigger] letters.contains(letter) by {
        assert(letters.to_multiset().count(letter) == 1);
        vstd::seq_lib::to_multiset_contains(letters, letter);
    }
    assert forall|i: int, j: int| 0 <= i < letters.len() && 0 <= j < letters.len() && i
        != j implies letters[i] != letters[j] by {
        if letters[i] == letters[j] {
            let (a, b) = if i < j {
                (i, j)
            } else {
                (j, i)
            };
            let letter = letters[a];
            let rest = letters.remove(b);
            vstd::seq_lib::to_multiset_remove(letters, b);
            assert(rest[a] == letter);
            assert(rest.contains(letter));
            vstd::seq_lib::to_multiset_contains(rest, letter);
            assert(letters.to_multiset().count(letter) == 1);
            broadcast use vstd::multiset::group_multiset_axioms;

            assert(rest.to_multiset().count(letter) == 0);
        }
    }
}

/// Shuffles the letters in place with `SliceRandom::shuffle` of the `rand`
/// crate, driven by the generator that `rand::thread_rng` hands out. The
/// shuffle only swaps elements of the slice, so whatever the generator
/// yields, the letters afterwards are the letters before in some order.
/// Which order is not stated. The generator seeds itself from the operating
/// system and gives up with a panic where that source fails.
#[verifier::external_body]
fn shuffle_letters(letters: &mut Vec<TetrominoLetter>)
    ensures
        final(letters)@.to_multiset() == old(letters)@.to_multiset(),
{
    letters.shuffle(&mut thread_rng());
}

/// A freshly shuffled bag.
pub fn shuffled_bag() -> (bag: Vec<TetrominoLetter>)
    ensures
        is_bag(bag@),
{
    let mut tetrominoes: Vec<TetrominoLetter> = Vec::new();
    tetrominoes.push(TetrominoLetter::I);
    tetrominoes.push(TetrominoLetter::O);
    tetrominoes.push(TetrominoLetter::T);
    tetrominoes.push(TetrominoLetter::S);
    tetrominoes.push(TetrominoLetter::Z);
    tetrominoes.push(TetrominoLetter::J);
    tetrominoes.push(TetrominoLetter::L);
    proof {
        lemma_fresh_bag_is_bag();
        assert(tetrominoes@ =~= fresh_bag());
    }
    shuffle_letters(&mut tetrominoes);
    proof {
        vstd::seq_lib::to_multiset_len(tetrominoes@);
        vstd::seq_lib::to_multiset_len(fresh_bag());
    }
    tetrominoes
}

impl TetrominoQueue {
    /// An empty queue.
    pub fn new() -> (tetromino_queue: Self)
        ensures
            tetromino_queue@ == Seq::<TetrominoLetter>::empty(),
    {
        TetrominoQueue { queue: VecDeque::new() }
    }

    /// Appends the letters of `bag` at the tail, in their order.
    pub fn refill_with(&mut self, bag: &Vec<TetrominoLetter>)
        ensures
            final(self)@ == old(self)@ + bag@,
    {
        let mut i: usize = 0;
        while i < bag.len()
            invariant
                i <= bag@.len(),
                self@ == old(self)@ + bag@.take(i as int),
            decreases bag@.len() - i,
        {
            self.queue.push_back(bag[i]);
            assert(bag@.take(i + 1) =~= bag@.take(i as int).push(bag@[i as int]));
            assert(self@ =~= old(self)@ + bag@.take(i + 1));
            i += 1;
        }
        assert(bag@.take(bag@.len() as int) =~= bag@);
    }

    /// Takes the letter at the front. The queue must not be empty.
    pub fn pop_next(&mut self) -> (letter: TetrominoLetter)
        requires
            old(self)@.len() > 0,
        ensures
            letter == old(self)@[0],
            final(self)@ == old(self)@.skip(1),
    {
        let letter = self.queue.pop_front().unwrap();
        assert(self@ =~= old(self)@.skip(1));
        letter
    }
}

/// Refills the queue: a shuffled bag of the seven letters, each exactly once,
/// is appended at the tail.
pub fn shuffle_tetrominoes_into_queue(tetromino_queue: &mut TetrominoQueue)
    ensures
        final(tetromino_queue)@.len() == old(tetromino_queue)@.len() + 7,
        final(tetromino_queue)@.take(old(tetromino_queue)@.len() as int) == old(tetromino_queue)@,
        is_bag(final(tetromino_queue)@.skip(old(tetromino_queue)@.len() as int)),
{
    let bag = shuffled_bag();
    tetromino_queue.refill_with(&bag);
    assert(tetromino_queue@.take(old(tetromino_queue)@.len() as int) =~= old(tetromino_queue)@);
    assert(tetromino_queue@.skip(old(tetromino_queue)@.len() as int) =~= bag@);
}

/// Whether the queue has dropped to its low-water mark of one letter.
pub fn detect_bag_low(tetromino_queue: &TetrominoQueue) -> (low: bool)
    ensures
        low == spec_bag_low(tetromino_queue@),
{
    tetromino_queue.queue.len() == 1
}

/// Empties the queue.
pub fn restart_queue(tetromino_queue: &mut TetrominoQueue)
    ensures
        final(tetromino_queue)@ == Seq::<TetrominoLetter>::empty(),
{
    tetromino_queue.queue.clear();
}

/// Takes the letter at the front of the queue and makes the piece that
/// spawns for it. The queue must not be empty.
pub fn spawn_tetromino(tetromino_queue: &mut TetrominoQueue) -> (piece: Tetromino)
    requires
        old(tetromino_queue)@.len() > 0,
    ensures
        piece == spec_create(old(tetromino_queue)@[0]),
        piece.wf(),
        final(tetromino_queue)@ == old(tetromino_queue)@.skip(1),
{
    let letter = tetromino_queue.pop_next();
    Tetromino::create_tetromino(letter)
}

/// The preview: the piece that spawns for the letter now at the front,
/// without taking it. `None` when the queue is empty.
pub fn spawn_next_piece(tetromino_queue: &TetrominoQueue) -> (next: Option<Tetromino>)
    ensures
        next == if tetromino_queue@.len() == 0 {
            None
        } else {
            Some(spec_create(tetromino_queue@[0]))
        },
{
    if tetromino_queue.queue.len() == 0 {
        None
    } else {
        Some(Tetromino::create_tetromino(tetromino_queue.queue[0]))
    }
}

} // verus!
