//! Countdown / repeating elapsed-time tracker.
//!
//! A timer accumulates elapsed milliseconds up to a configured duration.
//! In `Once` mode it latches `finished` when the accumulation reaches the
//! duration; in `Repeating` mode it wraps the accumulation modulo the
//! duration and reports `finished` only on the tick that crossed it.
//! `just_finished` holds exactly on a tick that crossed the duration.
//! A zero-length duration finishes on the first tick that carries any time
//! and reports its elapsed fraction as one.

use vstd::prelude::*;

verus! {

#[derive(Clone, Copy, Debug, PartialEq, Eq, Structural)]
pub enum TimerMode {
    Once,
    Repeating,
}

#[derive(Clone, Copy, Debug, PartialEq, Eq, Structural)]
pub struct Timer {
    pub duration_ms: u64,
    pub elapsed_ms: u64,
    pub mode: TimerMode,
    pub finished: bool,
    pub just_finished: bool,
}

impl Timer {
    /// The accumulated time never exceeds the configured duration.
    pub open spec fn inv(self) -> bool {
        self.elapsed_ms <= self.duration_ms
    }

    /// State after one tick of `delta` milliseconds.
    pub open spec fn spec_tick(self, delta: u64) -> Timer {
        match self.mode {
            TimerMode::Once => {
                if self.finished {
                    Timer { just_finished: false, ..self }
                } else if self.elapsed_ms + delta >= self.duration_ms && (self.duration_ms > 0
                    || delta > 0) {
                    Timer {
                        elapsed_ms: self.duration_ms,
                        finished: true,
                        just_finished: true,
                        ..self
                    }
                } else {
                    Timer {
                        elapsed_ms: (self.elapsed_ms + delta) as u64,
                        finished: false,
                        just_finished: false,
                        ..self
                    }
                }
            },
            TimerMode::Repeating => {
                if self.duration_ms == 0 {
                    if delta > 0 {
                        Timer { elapsed_ms: 0, finished: true, just_finished: true, ..self }
                    } else {
                        Timer { finished: false, just_finished: false, ..self }
                    }
                } else if self.elapsed_ms + delta >= self.duration_ms {
                    Timer {
                        elapsed_ms: ((self.elapsed_ms + delta) % (self.duration_ms as int)) as u64,
                        finished: true,
                        just_finished: true,
                        ..self
                    }
                } else {
                    Timer {
                        elapsed_ms: (self.elapsed_ms + delta) as u64,
                        finished: false,
                        just_finished: false,
                        ..self
                    }
                }
            },
        }
    }

    /// Elapsed fraction of the duration in permille, clamped to `[0, 1000]`;
    /// a zero-length duration counts as fully elapsed.
    pub open spec fn spec_fraction_permille(self) -> int {
        if self.duration_ms == 0 {
            1000
        } else {
            self.elapsed_ms * 1000 / (self.duration_ms as int)
        }
    }

    pub fn new(duration_ms: u64, mode: TimerMode) -> (t: Timer)
        ensures
            t == (Timer {
                duration_ms,
                elapsed_ms: 0,
                mode,
                finished: false,
                just_finished: false,
            }),
            t.inv(),
    {
        Timer { duration_ms, elapsed_ms: 0, mode, finished: false, just_finished: false }
    }

    /// Advance the accumulation by `delta_ms` milliseconds.
    pub fn tick(&mut self, delta_ms: u64)
        requires
            old(self).inv(),
        ensures
            *final(self) == old(self).spec_tick(delta_ms),
            final(self).inv(),
    {
        match self.mode {
            TimerMode::Once => {
                if self.finished {
                    self.just_finished = false;
                } else {
                    let total: u128 = (self.elapsed_ms as u128) + (delta_ms as u128);
                    if total >= self.duration_ms as u128 && (self.duration_ms > 0 || delta_ms > 0) {
                        self.elapsed_ms = self.duration_ms;
                        self.finished = true;
                        self.just_finished = true;
                    } else {
                        self.elapsed_ms = total as u64;
                        self.finished = false;
                        self.just_finished = false;
                    }
                }
            },
            TimerMode::Repeating => {
                if self.duration_ms == 0 {
                    if delta_ms > 0 {
                        self.elapsed_ms = 0;
                        self.finished = true;
                        self.just_finished = true;
                    } else {
                        self.finished = false;
                        self.just_finished = false;
                    }
                } else {
                    let total: u128 = (self.elapsed_ms as u128) + (delta_ms as u128);
                    if total >= self.duration_ms as u128 {
                        self.elapsed_ms = (total % (self.duration_ms as u128)) as u64;
                        self.finished = true;
                        self.just_finished = true;
                    } else {
                        self.elapsed_ms = total as u64;
                        self.finished = false;
                        self.just_finished = false;
                    }
                }
            },
        }
    }

    /// Forget all accumulated time.
    pub fn reset(&mut self)
        ensures
            *final(self) == (Timer {
                elapsed_ms: 0,
                finished: false,
                just_finished: false,
                ..*old(self)
            }),
            final(self).inv(),
    {
        self.elapsed_ms = 0;
        self.finished = false;
        self.just_finished = false;
    }

    /// True from the completing tick onward (`Once`), or only on a
    /// completing tick (`Repeating`).
    pub fn finished(&self) -> (r: bool)
        ensures
            r == self.finished,
    {
        self.finished
    }

    /// True exactly on a tick that crossed the duration.
    pub fn just_finished(&self) -> (r: bool)
        ensures
            r == self.just_finished,
    {
        self.just_finished
    }

    /// See [`Timer::spec_fraction_permille`].
    pub fn fraction_permille(&self) -> (r: u64)
        requires
            self.inv(),
        ensures
            r == self.spec_fraction_permille(),
            r <= 1000,
    {
        if self.duration_ms == 0 {
            1000
        } else {
            proof {
                lemma_fraction_le_1000(self.elapsed_ms as int, self.duration_ms as int);
            }
            (((self.elapsed_ms as u128) * 1000) / (self.duration_ms as u128)) as u64
        }
    }

    /// Permille of the duration still to run.
    pub fn fraction_remaining_permille(&self) -> (r: u64)
        requires
            self.inv(),
        ensures
            r == 1000 - self.spec_fraction_permille(),
    {
        1000 - self.fraction_permille()
    }

    /// Milliseconds still to run.
    pub fn remaining_ms(&self) -> (r: u64)
        requires
            self.inv(),
        ensures
            r == self.duration_ms - self.elapsed_ms,
    {
        self.duration_ms - self.elapsed_ms
    }
}

/// The timer after a whole sequence of ticks, first delta first.
pub open spec fn spec_tick_all(t: Timer, deltas: Seq<u64>) -> Timer
    decreases deltas.len(),
{
    if deltas.len() == 0 {
        t
    } else {
        spec_tick_all(t.spec_tick(deltas[0]), deltas.drop_first())
    }
}

/// Total elapsed time of a tick sequence.
pub open spec fn spec_sum(deltas: Seq<u64>) -> int
    decreases deltas.len(),
{
    if deltas.len() == 0 {
        0
    } else {
        deltas[0] + spec_sum(deltas.drop_first())
    }
}

/// A sum of tick deltas is never negative.
pub proof fn lemma_sum_nonneg(deltas: Seq<u64>)
    ensures
        spec_sum(deltas) >= 0,
    decreases deltas.len(),
{
    if deltas.len() > 0 {
        lemma_sum_nonneg(deltas.drop_first());
    }
}

/// Law: a one-shot timer that has finished stays finished, whatever is
/// ticked afterwards.
pub proof fn lemma_once_stays_finished(t: Timer, deltas: Seq<u64>)
    requires
        t.mode == TimerMode::Once,
        t.finished,
    ensures
        spec_tick_all(t, deltas).finished,
    decreases deltas.len(),
{
    if deltas.len() > 0 {
        lemma_once_stays_finished(t.spec_tick(deltas[0]), deltas.drop_first());
    }
}

/// Law: for every positive duration, a one-shot timer finishes exactly
/// when the ticked deltas accumulate to the duration — it reports
/// `finished` after a tick sequence if and only if the sequence's total,
/// on top of what had already elapsed, reaches the duration.
pub proof fn lemma_once_finishes_on_accumulation(t: Timer, deltas: Seq<u64>)
    requires
        t.mode == TimerMode::Once,
        t.elapsed_ms < t.duration_ms,
        !t.finished,
        t.duration_ms > 0,
    ensures
        spec_tick_all(t, deltas).finished <==> t.elapsed_ms + spec_sum(deltas) >= t.duration_ms,
    decreases deltas.len(),
{
    if deltas.len() > 0 {
        let d = deltas[0];
        let rest = deltas.drop_first();
        let t1 = t.spec_tick(d);
        lemma_sum_nonneg(rest);
        if t1.finished {
            lemma_once_stays_finished(t1, rest);
        } else {
            lemma_once_finishes_on_accumulation(t1, rest);
        }
    }
}

/// Law: a repeating timer with a positive duration tracks the total
/// accumulation modulo the duration — it resets once per full duration —
/// and it never latches: after any tick, `finished` holds exactly when
/// that tick crossed the duration.
pub proof fn lemma_repeating_tracks_accumulation(t: Timer, deltas: Seq<u64>)
    requires
        t.mode == TimerMode::Repeating,
        t.duration_ms > 0,
        t.elapsed_ms < t.duration_ms,
    ensures
        spec_tick_all(t, deltas).elapsed_ms == (t.elapsed_ms + spec_sum(deltas)) % (
        t.duration_ms as int),
        deltas.len() > 0 ==> spec_tick_all(t, deltas).finished == spec_tick_all(
            t,
            deltas,
        ).just_finished,
    decreases deltas.len(),
{
    let dur = t.duration_ms as int;
    if deltas.len() == 0 {
        vstd::arithmetic::div_mod::lemma_small_mod(t.elapsed_ms as nat, t.duration_ms as nat);
    } else {
        let d = deltas[0];
        let rest = deltas.drop_first();
        let t1 = t.spec_tick(d);
        let x = t.elapsed_ms + d;
        if x >= dur {
            assert(t1.elapsed_ms == x % dur);
            vstd::arithmetic::div_mod::lemma_mod_bound(x, dur);
        } else {
            vstd::arithmetic::div_mod::lemma_small_mod(x as nat, t.duration_ms as nat);
            assert(t1.elapsed_ms == x % dur);
        }
        lemma_repeating_tracks_accumulation(t1, rest);
        assert(spec_tick_all(t1, rest).elapsed_ms == (x % dur + spec_sum(rest)) % dur);
        let q = x / dur;
        vstd::arithmetic::div_mod::lemma_fundamental_div_mod(x, dur);
        assert(x % dur + spec_sum(rest) == dur * (-q) + (x + spec_sum(rest))) by (nonlinear_arith)
            requires
                x == dur * q + x % dur,
        ;
        vstd::arithmetic::div_mod::lemma_mod_multiples_vanish(-q, x + spec_sum(rest), dur);
    }
}

/// The elapsed fraction of a well-formed timer lies in `[0, 1000]`.
pub proof fn lemma_fraction_range(t: Timer)
    requires
        t.inv(),
    ensures
        0 <= t.spec_fraction_permille() <= 1000,
{
    if t.duration_ms != 0 {
        lemma_fraction_le_1000(t.elapsed_ms as int, t.duration_ms as int);
    }
}

proof fn lemma_fraction_le_1000(e: int, d: int)
    requires
        0 <= e <= d,
        1 <= d,
    ensures
        0 <= e * 1000 / d <= 1000,
{
    assert(e * 1000 <= d * 1000) by (nonlinear_arith)
        requires
            e <= d,
    ;
    vstd::arithmetic::div_mod::lemma_div_is_ordered(e * 1000, d * 1000, d);
    vstd::arithmetic::div_mod::lemma_div_multiples_vanish(1000, d);
    assert(e * 1000 / d >= 0) by (nonlinear_arith)
        requires
            e >= 0,
            d >= 1,
    ;
}

} // verus!
