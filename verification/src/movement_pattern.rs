//! Motion patterns: how an entity's movement intent is derived from elapsed
//! time.
//!
//! A constant pattern keeps a fixed intent and owns no timer. A periodic
//! pattern scales a maximum-speed vector by the positive half wave of the
//! sine of its repeating timer's elapsed fraction. A circle pattern orbits:
//! its intent is the tangent of a circle of the given radius, a quarter turn
//! ahead of the elapsed fraction of its repeating timer. Non-constant
//! patterns advance their embedded timer exactly once per tick.

use vstd::prelude::*;
use crate::geom::Vec2;
use crate::movement::MovementController;
use crate::num::MAX_COORD;
use crate::num::lemma_abs_mul_le;
use crate::num::lemma_tdiv_milli_scale_bound;
use crate::num::mul_milli;
use crate::num::tdiv_milli;
use crate::timer::Timer;
use crate::timer::TimerMode;
use crate::trig::lemma_sin_half_bounds;
use crate::trig::lemma_sin_turn_bounds;
use crate::trig::cos_turn_permille;
use crate::trig::sin_half_permille;
use crate::trig::sin_turn_permille;
use crate::trig::spec_cos_turn_permille;
use crate::trig::spec_sin_half_permille;
use crate::trig::spec_sin_turn_permille;

verus! {

#[derive(Clone, Copy, Debug, PartialEq, Eq, Structural)]
pub enum MovementPattern {
    Constant { speed: Vec2 },
    Periodic { timer: Timer, max_speed: Vec2 },
    Circle { timer: Timer, radius: i64 },
}

/// Data-defined form of a motion pattern, as level files give it: durations
/// in milliseconds instead of live timers.
#[derive(Clone, Copy, Debug, PartialEq, Eq, Structural)]
pub enum MovementPatternDefinition {
    Constant { speed: Vec2 },
    Periodic { duration_ms: u64, max_speed: Vec2 },
    Circle { duration_ms: u64, radius: i64 },
}

impl MovementPattern {
    pub open spec fn wf(self) -> bool {
        match self {
            MovementPattern::Constant { speed } => speed.in_range(),
            MovementPattern::Periodic { timer, max_speed } => timer.inv() && max_speed.in_range(),
            MovementPattern::Circle { timer, radius } => timer.inv() && -MAX_COORD <= radius
                <= MAX_COORD,
        }
    }

    /// The intent the pattern produces at its current elapsed fraction.
    pub open spec fn spec_intent(self) -> (int, int) {
        match self {
            MovementPattern::Constant { speed } => (speed.x as int, speed.y as int),
            MovementPattern::Periodic { timer, max_speed } => {
                let s = spec_sin_half_permille(timer.spec_fraction_permille());
                (tdiv_milli(max_speed.x * s), tdiv_milli(max_speed.y * s))
            },
            MovementPattern::Circle { timer, radius } => {
                let t = timer.spec_fraction_permille();
                (
                    tdiv_milli(-spec_sin_turn_permille(t) * radius),
                    tdiv_milli(spec_cos_turn_permille(t) * radius),
                )
            },
        }
    }

    /// The pattern after one tick: constant patterns never advance their
    /// timer, the others always do.
    pub open spec fn spec_update_timer(self, delta: u64) -> MovementPattern {
        match self {
            MovementPattern::Constant { speed } => self,
            MovementPattern::Periodic { timer, max_speed } => MovementPattern::Periodic {
                timer: timer.spec_tick(delta),
                max_speed,
            },
            MovementPattern::Circle { timer, radius } => MovementPattern::Circle {
                timer: timer.spec_tick(delta),
                radius,
            },
        }
    }
}

/// The intent of a well-formed pattern stays in the stored range.
pub proof fn lemma_intent_bounds(p: MovementPattern)
    requires
        p.wf(),
    ensures
        -MAX_COORD <= p.spec_intent().0 <= MAX_COORD,
        -MAX_COORD <= p.spec_intent().1 <= MAX_COORD,
{
    match p {
        MovementPattern::Constant { speed } => {},
        MovementPattern::Periodic { timer, max_speed } => {
            let f = timer.spec_fraction_permille();
            crate::timer::lemma_fraction_range(timer);
            lemma_sin_half_bounds(f);
            let s = spec_sin_half_permille(f);
            lemma_abs_mul_le(max_speed.x as int, s, MAX_COORD as int, 1000);
            lemma_tdiv_milli_scale_bound(max_speed.x * s, MAX_COORD as int);
            lemma_abs_mul_le(max_speed.y as int, s, MAX_COORD as int, 1000);
            lemma_tdiv_milli_scale_bound(max_speed.y * s, MAX_COORD as int);
        },
        MovementPattern::Circle { timer, radius } => {
            let t = timer.spec_fraction_permille();
            crate::timer::lemma_fraction_range(timer);
            lemma_sin_turn_bounds(t);
            crate::trig::lemma_cos_turn_bounds(t);
            lemma_abs_mul_le(-spec_sin_turn_permille(t), radius as int, 1000, MAX_COORD as int);
            lemma_tdiv_milli_scale_bound(-spec_sin_turn_permille(t) * radius, MAX_COORD as int);
            lemma_abs_mul_le(spec_cos_turn_permille(t), radius as int, 1000, MAX_COORD as int);
            lemma_tdiv_milli_scale_bound(spec_cos_turn_permille(t) * radius, MAX_COORD as int);
        },
    }
}

/// Write the pattern's current intent into the movement controller; nothing
/// else of the controller changes.
pub fn move_creatures(controller: &mut MovementController, pattern: &MovementPattern)
    requires
        old(controller).wf(),
        pattern.wf(),
    ensures
        final(controller).intent.x == pattern.spec_intent().0,
        final(controller).intent.y == pattern.spec_intent().1,
        final(controller).intent_modifier == old(controller).intent_modifier,
        final(controller).max_speed == old(controller).max_speed,
        final(controller).wf(),
{
    proof {
        lemma_intent_bounds(*pattern);
    }
    match pattern {
        MovementPattern::Constant { speed } => {
            controller.intent = *speed;
        },
        MovementPattern::Periodic { timer, max_speed } => {
            let f: u64 = timer.fraction_permille();
            let s: i64 = sin_half_permille(f);
            proof {
                lemma_abs_mul_le(max_speed.x as int, s as int, MAX_COORD as int, 1000);
                lemma_abs_mul_le(max_speed.y as int, s as int, MAX_COORD as int, 1000);
            }
            controller.intent = Vec2 { x: mul_milli(max_speed.x, s), y: mul_milli(max_speed.y, s) };
        },
        MovementPattern::Circle { timer, radius } => {
            let t: u64 = timer.fraction_permille();
            let sn: i64 = sin_turn_permille(t);
            let cs: i64 = cos_turn_permille(t);
            proof {
                lemma_abs_mul_le(-sn as int, *radius as int, 1000, MAX_COORD as int);
                lemma_abs_mul_le(cs as int, *radius as int, 1000, MAX_COORD as int);
            }
            controller.intent = Vec2 { x: mul_milli(-sn, *radius), y: mul_milli(cs, *radius) };
        },
    }
}

/// Advance the embedded timer of a non-constant pattern by `delta_ms`.
pub fn update_timer(pattern: &mut MovementPattern, delta_ms: u64)
    requires
        old(pattern).wf(),
    ensures
        *final(pattern) == old(pattern).spec_update_timer(delta_ms),
        final(pattern).wf(),
{
    let p: MovementPattern = *pattern;
    *pattern = match p {
        MovementPattern::Constant { speed } => MovementPattern::Constant { speed },
        MovementPattern::Periodic { mut timer, max_speed } => {
            timer.tick(delta_ms);
            MovementPattern::Periodic { timer, max_speed }
        },
        MovementPattern::Circle { mut timer, radius } => {
            timer.tick(delta_ms);
            MovementPattern::Circle { timer, radius }
        },
    };
}

impl MovementPatternDefinition {
    pub open spec fn wf(self) -> bool {
        match self {
            MovementPatternDefinition::Constant { speed } => speed.in_range(),
            MovementPatternDefinition::Periodic { duration_ms, max_speed } => max_speed.in_range(),
            MovementPatternDefinition::Circle { duration_ms, radius } => -MAX_COORD <= radius
                <= MAX_COORD,
        }
    }

    /// The live pattern a definition builds: non-constant variants get a
    /// fresh repeating timer of the defined duration.
    pub open spec fn spec_build(self) -> MovementPattern {
        match self {
            MovementPatternDefinition::Constant { speed } => MovementPattern::Constant { speed },
            MovementPatternDefinition::Periodic { duration_ms, max_speed } => {
                MovementPattern::Periodic {
                    timer: Timer {
                        duration_ms,
                        elapsed_ms: 0,
                        mode: TimerMode::Repeating,
                        finished: false,
                        just_finished: false,
                    },
                    max_speed,
                }
            },
            MovementPatternDefinition::Circle { duration_ms, radius } => {
                MovementPattern::Circle {
                    timer: Timer {
                        duration_ms,
                        elapsed_ms: 0,
                        mode: TimerMode::Repeating,
                        finished: false,
                        just_finished: false,
                    },
                    radius,
                }
            },
        }
    }

    /// See [`MovementPatternDefinition::spec_build`].
    pub fn build(&self) -> (p: MovementPattern)
        ensures
            p == self.spec_build(),
            self.wf() ==> p.wf(),
    {
        match self {
            MovementPatternDefinition::Constant { speed } => MovementPattern::Constant {
                speed: *speed,
            },
            MovementPatternDefinition::Periodic { duration_ms, max_speed } => {
                MovementPattern::Periodic {
                    timer: Timer::new(*duration_ms, TimerMode::Repeating),
                    max_speed: *max_speed,
                }
            },
            MovementPatternDefinition::Circle { duration_ms, radius } => MovementPattern::Circle {
                timer: Timer::new(*duration_ms, TimerMode::Repeating),
                radius: *radius,
            },
        }
    }
}

} // verus!
