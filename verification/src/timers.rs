//! The two timers of the engine, counted in whole microseconds handed in by
//! the caller's clock: the repeating gravity timer and the one-shot lock
//! timer.

use vstd::prelude::*;

verus! {

/// The lock delay: how long a piece may rest before it locks.
pub const LOCK_DELAY_MICROS: u64 = 500_000;

/// The gravity period of each level in microseconds: a fixed step table
/// from one second at level 1 down to a floor from level 11 on.
pub open spec fn spec_gravity_micros(level: int) -> int {
    if level == 1 {
        1_000_000
    } else if level == 2 {
        800_000
    } else if level == 3 {
        600_000
    } else if level == 4 {
        400_000
    } else if level == 5 {
        300_000
    } else if level == 6 {
        250_000
    } else if level == 7 {
        200_000
    } else if level == 8 {
        150_000
    } else if level == 9 {
        100_000
    } else if level == 10 {
        50_000
    } else {
        16_670
    }
}

/// The gravity period of a level in microseconds.
pub fn gravity_micros_for_level(level: usize) -> (micros: u64)
    ensures
        micros == spec_gravity_micros(level as int),
        16_670 <= micros <= 1_000_000,
{
    match level {
        1 => 1_000_000,
        2 => 800_000,
        3 => 600_000,
        4 => 400_000,
        5 => 300_000,
        6 => 250_000,
        7 => 200_000,
        8 => 150_000,
        9 => 100_000,
        10 => 50_000,
        _ => 16_670,
    }
}

/// From level 1 on, a higher level never has a longer gravity period.
pub proof fn lemma_gravity_never_slows(lower: int, higher: int)
    requires
        1 <= lower <= higher,
    ensures
        spec_gravity_micros(higher) <= spec_gravity_micros(lower),
{
}

/// The repeating timer that makes the active piece fall one row each time
/// its period has passed.
#[derive(Clone, Copy, Debug, PartialEq, Eq, Structural)]
pub struct GravityTimer {
    /// The period in microseconds.
    pub period: u64,
    /// The time gathered towards the next firing.
    pub elapsed: u64,
    /// Whether the last tick completed a period.
    pub just_finished: bool,
}

/// The gravity timer after `delta` more microseconds: it fires when the time
/// gathered reaches the period, and keeps what is left over after whole
/// periods.
pub open spec fn spec_gravity_tick(timer: GravityTimer, delta: u64) -> GravityTimer {
    if timer.elapsed + delta >= timer.period {
        GravityTimer {
            elapsed: ((timer.elapsed + delta) % (timer.period as int)) as u64,
            just_finished: true,
            ..timer
        }
    } else {
        GravityTimer { elapsed: (timer.elapsed + delta) as u64, just_finished: false, ..timer }
    }
}

/// The lock timer after `delta` more microseconds of resting: it stops at the
/// lock delay.
pub open spec fn spec_lock_tick(timer: LockInTimer, delta: u64) -> LockInTimer {
    if timer.elapsed + delta >= LOCK_DELAY_MICROS {
        LockInTimer { elapsed: LOCK_DELAY_MICROS }
    } else {
        LockInTimer { elapsed: (timer.elapsed + delta) as u64 }
    }
}

impl GravityTimer {
    /// The period is not zero.
    pub open spec fn wf(&self) -> bool {
        self.period > 0
    }

    /// Nothing gathered and not fired.
    pub open spec fn is_neutral(&self) -> bool {
        self.elapsed == 0 && !self.just_finished
    }

    /// A neutral timer with the period of `level`.
    pub fn new(level: usize) -> (timer: Self)
        ensures
            timer.wf(),
            timer.is_neutral(),
            timer.period == spec_gravity_micros(level as int),
    {
        let period = gravity_micros_for_level(level);
        GravityTimer { period, elapsed: 0, just_finished: false }
    }

    /// Advances the timer by `delta` microseconds. It fires when the time
    /// gathered reaches the period, and keeps what is left over after whole
    /// periods.
    pub fn tick(&mut self, delta: u64) -> (fired: bool)
        requires
            old(self).wf(),
        ensures
            *final(self) == spec_gravity_tick(*old(self), delta),
            fired == (old(self).elapsed + delta >= old(self).period),
            final(self).wf(),
    {
        let total: u128 = self.elapsed as u128 + delta as u128;
        let period: u128 = self.period as u128;
        if total >= period {
            let rest: u128 = total % period;
            self.elapsed = rest as u64;
            self.just_finished = true;
        } else {
            self.elapsed = total as u64;
            self.just_finished = false;
        }
        self.just_finished
    }

    /// Drops the gathered time. The period stays.
    pub fn reset(&mut self)
        ensures
            final(self).period == old(self).period,
            final(self).is_neutral(),
    {
        self.elapsed = 0;
        self.just_finished = false;
    }

    /// Sets the period to that of `level`. The gathered time stays.
    pub fn set_level(&mut self, level: usize)
        ensures
            final(self).period == spec_gravity_micros(level as int),
            final(self).elapsed == old(self).elapsed,
            final(self).just_finished == old(self).just_finished,
            final(self).wf(),
    {
        self.period = gravity_micros_for_level(level);
    }
}

/// The one-shot timer that counts how long the active piece has rested.
#[derive(Clone, Copy, Debug, PartialEq, Eq, Structural)]
pub struct LockInTimer {
    /// The resting time gathered, never more than the lock delay.
    pub elapsed: u64,
}

impl LockInTimer {
    /// The gathered time does not pass the lock delay.
    pub open spec fn wf(&self) -> bool {
        self.elapsed <= LOCK_DELAY_MICROS
    }

    /// Nothing gathered.
    pub open spec fn is_neutral(&self) -> bool {
        self.elapsed == 0
    }

    /// The lock delay has passed.
    pub open spec fn spec_finished(&self) -> bool {
        self.elapsed >= LOCK_DELAY_MICROS
    }

    /// A neutral timer.
    pub fn new() -> (timer: Self)
        ensures
            timer.wf(),
            timer.is_neutral(),
    {
        LockInTimer { elapsed: 0 }
    }

    /// Advances the timer by `delta` microseconds, stopping at the lock
    /// delay.
    pub fn tick(&mut self, delta: u64)
        requires
            old(self).wf(),
        ensures
            *final(self) == spec_lock_tick(*old(self), delta),
            final(self).wf(),
    {
        if delta >= LOCK_DELAY_MICROS - self.elapsed {
            self.elapsed = LOCK_DELAY_MICROS;
        } else {
            self.elapsed = self.elapsed + delta;
        }
    }

    /// Whether the lock delay has passed.
    #[verifier::when_used_as_spec(spec_finished)]
    pub fn finished(&self) -> (done: bool)
        ensures
            done == self.spec_finished(),
    {
        self.elapsed >= LOCK_DELAY_MICROS
    }

    /// Drops the gathered time.
    pub fn reset(&mut self)
        ensures
            final(self).is_neutral(),
            final(self).wf(),
    {
        self.elapsed = 0;
    }
}

/// Sets the gravity period to that of `level`, as a level change asks. The
/// time gathered so far stays.
pub fn update_gravity_timer(gravity_timer: &mut GravityTimer, level: usize)
    ensures
        *final(gravity_timer) == (GravityTimer {
            period: spec_gravity_micros(level as int) as u64,
            ..*old(gravity_timer)
        }),
        final(gravity_timer).wf(),
{
    gravity_timer.set_level(level);
}

/// Puts the gravity timer back to neutral. The period stays.
pub fn reset_gravity_timer(gravity_timer: &mut GravityTimer)
    ensures
        *final(gravity_timer) == (GravityTimer {
            elapsed: 0,
            just_finished: false,
            ..*old(gravity_timer)
        }),
        final(gravity_timer).is_neutral(),
{
    gravity_timer.reset();
}

/// Puts the lock timer back to neutral.
pub fn reset_lock_in_timer(lock_in_timer: &mut LockInTimer)
    ensures
        *final(lock_in_timer) == (LockInTimer { elapsed: 0 }),
        final(lock_in_timer).is_neutral(),
{
    lock_in_timer.reset();
}

} // verus!
