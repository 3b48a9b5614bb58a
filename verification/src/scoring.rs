//! Score, level and cleared-line bookkeeping.

use vstd::prelude::*;

verus! {

/// Level, score and the running total of cleared lines. The level is cached
/// and follows the total of cleared lines.
#[derive(Clone, Copy, Debug, PartialEq, Eq, Structural)]
pub struct Scoring {
    pub level: usize,
    pub score: usize,
    pub lines_cleared: usize,
}

/// The level reached after `lines` cleared lines: one level per ten lines,
/// starting at 1.
pub open spec fn spec_level(lines: int) -> int {
    lines / 10 + 1
}

/// The points for clearing `lines` rows at once on `level`.
pub open spec fn spec_score(lines: int, level: int) -> int {
    if lines == 1 {
        100 * level
    } else if lines == 2 {
        300 * level
    } else if lines == 3 {
        500 * level
    } else if lines == 4 {
        800 * level
    } else {
        0
    }
}

/// The level for a total of cleared lines.
pub fn calculate_level(total_lines_cleared: &usize) -> (level: usize)
    ensures
        level == spec_level(*total_lines_cleared as int),
        level >= 1,
{
    (*total_lines_cleared / 10) + 1
}

/// The points for rows cleared at once. The product must fit in `usize`.
pub fn calculate_score(lines_cleared_at_once: usize, level: usize) -> (score: usize)
    requires
        spec_score(lines_cleared_at_once as int, level as int) <= usize::MAX,
    ensures
        score == spec_score(lines_cleared_at_once as int, level as int),
{
    match lines_cleared_at_once {
        1 => 100 * level,
        2 => 300 * level,
        3 => 500 * level,
        4 => 800 * level,
        _ => 0,
    }
}

/// The scoring after `lines` rows cleared at once are recorded: the total
/// grows by their number, the score by their points on the level held before,
/// and the level follows the new total.
pub open spec fn spec_recorded(scoring: Scoring, lines: int) -> Scoring {
    Scoring {
        lines_cleared: (scoring.lines_cleared + lines) as usize,
        score: (scoring.score + spec_score(lines, scoring.level as int)) as usize,
        level: spec_level(scoring.lines_cleared + lines) as usize,
    }
}

impl Scoring {
    /// The cached level is the level of the cleared-line total.
    pub open spec fn wf(&self) -> bool {
        self.level == spec_level(self.lines_cleared as int)
    }

    /// The state at the start of a game.
    pub open spec fn is_initial(&self) -> bool {
        self.level == 1 && self.score == 0 && self.lines_cleared == 0
    }

    /// Whether `lines` more cleared rows can be recorded without leaving
    /// `usize`.
    pub open spec fn can_record(&self, lines: int) -> bool {
        &&& self.lines_cleared + lines <= usize::MAX
        &&& self.score + spec_score(lines, self.level as int) <= usize::MAX
    }

    /// Whether any number of rows that a board can hold can still be
    /// recorded without leaving `usize`.
    pub open spec fn has_headroom(&self) -> bool {
        &&& self.lines_cleared + 26 <= usize::MAX
        &&& self.score + 800 * self.level <= usize::MAX
    }

    /// Level 1, no score, no lines.
    pub fn new() -> (scoring: Self)
        ensures
            scoring.is_initial(),
            scoring.wf(),
            scoring.has_headroom(),
    {
        Scoring { level: 1, score: 0, lines_cleared: 0 }
    }

    /// Whether the cached level is the level of the cleared-line total.
    pub fn is_valid(&self) -> (valid: bool)
        ensures
            valid == self.wf(),
    {
        self.level == self.lines_cleared / 10 + 1
    }

    /// Whether any number of rows that a board can hold can still be
    /// recorded without leaving `usize`.
    pub fn has_room(&self) -> (room: bool)
        ensures
            room == self.has_headroom(),
    {
        self.lines_cleared <= usize::MAX - 26 && self.level <= (usize::MAX - self.score) / 800
    }

    /// Records rows cleared at once: the total grows by their number, the
    /// score by their points on the level held before, and the level is
    /// recomputed from the new total. Returns whether the level rose.
    pub fn record_lines(&mut self, lines_just_cleared: usize) -> (level_up: bool)
        requires
            old(self).can_record(lines_just_cleared as int),
        ensures
            *final(self) == spec_recorded(*old(self), lines_just_cleared as int),
            final(self).lines_cleared == old(self).lines_cleared + lines_just_cleared,
            final(self).score == old(self).score + spec_score(
                lines_just_cleared as int,
                old(self).level as int,
            ),
            final(self).level == spec_level(final(self).lines_cleared as int),
            final(self).wf(),
            level_up == (old(self).level < final(self).level),
    {
        let old_level = self.level;
        self.lines_cleared = self.lines_cleared + lines_just_cleared;
        self.score = self.score + calculate_score(lines_just_cleared, old_level);
        self.level = calculate_level(&self.lines_cleared);
        old_level < self.level
    }
}

/// Puts the scoring back to its initial state.
pub fn reset_level_and_score(scoring_resource: &mut Scoring)
    ensures
        final(scoring_resource).is_initial(),
        final(scoring_resource).wf(),
        final(scoring_resource).has_headroom(),
{
    scoring_resource.level = 1;
    scoring_resource.score = 0;
    scoring_resource.lines_cleared = 0;
}

/// The level never falls as lines are cleared.
pub proof fn lemma_level_never_falls(fewer: int, more: int)
    requires
        0 <= fewer <= more,
    ensures
        1 <= spec_level(fewer) <= spec_level(more),
{
}

} // verus!
