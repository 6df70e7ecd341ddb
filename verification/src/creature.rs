//! Creature state and lifecycle: spawn, natural shrink, death animation and
//! removal.
//!
//! A creature is alive until a hit kills it; a killed creature freezes in
//! place (its intent modifier drops to zero), shows its shot pose and runs a
//! one-second death timer during which it spins down and shrinks along a
//! quadratic ease; when the timer completes it is removed. The natural
//! shrink timer that runs from spawn is cosmetic and never gates removal.

use vstd::prelude::*;
use crate::creature_image::CreatureImage;
use crate::geom::Rect;
use crate::geom::Vec2;
use crate::movement::MovementController;
use crate::movement_pattern::MovementPattern;
use crate::movement_pattern::MovementPatternDefinition;
use crate::num::MAX_COORD;
use crate::num::lemma_abs_mul_le;
use crate::num::lemma_tdiv_milli_scale_bound;
use crate::num::mul_milli;
use crate::num::tdiv_milli;
use crate::rng::sample_range;
use crate::timer::Timer;
use crate::timer::TimerMode;

verus! {

/// How long a death animation runs, in milliseconds.
pub const DEATH_DURATION_MS: u64 = 1000;

/// Shrink duration a creature definition falls back to when the level file
/// leaves it out.
pub fn default_shrink_duration() -> (r: u64)
    ensures
        r == 10_000,
{
    10_000
}

/// Cosmetic shrink timer that runs from spawn.
#[derive(Clone, Copy, Debug, PartialEq, Eq, Structural)]
pub struct CreatureAnimation {
    pub timer: Timer,
}

impl CreatureAnimation {
    pub fn new(duration_ms: u64) -> (a: CreatureAnimation)
        ensures
            a.timer == (Timer {
                duration_ms,
                elapsed_ms: 0,
                mode: TimerMode::Once,
                finished: false,
                just_finished: false,
            }),
            a.timer.inv(),
    {
        CreatureAnimation { timer: Timer::new(duration_ms, TimerMode::Once) }
    }

    /// Advance the shrink timer.
    pub fn update_timer(&mut self, delta_ms: u64)
        requires
            old(self).timer.inv(),
        ensures
            final(self).timer == old(self).timer.spec_tick(delta_ms),
            final(self).timer.inv(),
    {
        self.timer.tick(delta_ms);
    }
}

/// Death state of a shot creature: the removal timer and two random
/// rotation periods for the cosmetic spin-down.
#[derive(Clone, Copy, Debug, PartialEq, Eq, Structural)]
pub struct DeathAnimation {
    pub timer: Timer,
    pub x_rotation_ms: i64,
    pub y_rotation_ms: i64,
}

impl DeathAnimation {
    pub open spec fn wf(self) -> bool {
        &&& self.timer.inv()
        &&& 75 <= self.x_rotation_ms < 400
        &&& 75 <= self.y_rotation_ms < 400
    }

    /// A fresh death animation with rotation periods drawn uniformly from
    /// `[75, 400)` milliseconds, independently per axis.
    pub fn new() -> (d: DeathAnimation)
        ensures
            d.timer == (Timer {
                duration_ms: DEATH_DURATION_MS,
                elapsed_ms: 0,
                mode: TimerMode::Once,
                finished: false,
                just_finished: false,
            }),
            d.wf(),
    {
        DeathAnimation {
            timer: Timer::new(DEATH_DURATION_MS, TimerMode::Once),
            x_rotation_ms: sample_range(75, 400),
            y_rotation_ms: sample_range(75, 400),
        }
    }
}

/// A simulated creature entity.
#[derive(Clone, Copy, Debug)]
pub struct Creature {
    pub pos: Vec2,
    pub controller: MovementController,
    pub pattern: MovementPattern,
    pub image: CreatureImage,
    /// True wraps on the play-area edge; false bounces.
    pub wrap: bool,
    pub animation: CreatureAnimation,
    pub death: Option<DeathAnimation>,
    /// Current display scale, milli-scaled.
    pub scale_milli: i64,
    /// Sprite-atlas cell: zero for the live pose, one for the shot pose.
    pub atlas_index: u32,
}

impl Creature {
    pub open spec fn wf(self) -> bool {
        &&& self.pos.in_range()
        &&& self.controller.wf()
        &&& self.pattern.wf()
        &&& self.animation.timer.inv()
        &&& match self.death {
            Some(d) => d.wf(),
            None => true,
        }
        &&& 0 <= self.scale_milli <= 4000
    }

    /// A creature counts as alive until a hit kills it.
    pub open spec fn alive(self) -> bool {
        self.death is None
    }

    /// Whether the creature's hit box contains the point: an axis-aligned
    /// box of the source image size at the current scale, centred on the
    /// position, borders included.
    pub open spec fn spec_hit_box_contains(self, p: Vec2) -> bool {
        let dx = tdiv_milli(self.image.spec_size().0 * self.scale_milli);
        let dy = tdiv_milli(self.image.spec_size().1 * self.scale_milli);
        let mnx = self.pos.x - dx / 2;
        let mny = self.pos.y - dy / 2;
        mnx <= p.x <= mnx + dx && mny <= p.y <= mny + dy
    }

    /// The hit box as a rectangle.
    pub fn hit_box(&self) -> (r: Rect)
        requires
            self.wf(),
        ensures
            forall|p: Vec2| r.spec_contains(p) == self.spec_hit_box_contains(p),
    {
        let img_size: Vec2 = self.image.size();
        proof {
            lemma_abs_mul_le(img_size.x as int, self.scale_milli as int, 256_000, 4000);
            lemma_abs_mul_le(img_size.y as int, self.scale_milli as int, 256_000, 4000);
            lemma_tdiv_milli_scale_bound(img_size.x * self.scale_milli, 1_024_000);
            lemma_tdiv_milli_scale_bound(img_size.y * self.scale_milli, 1_024_000);
        }
        let dx: i64 = mul_milli(img_size.x, self.scale_milli);
        let dy: i64 = mul_milli(img_size.y, self.scale_milli);
        Rect::from_center_size(self.pos, Vec2 { x: dx, y: dy })
    }
}

/// A spawn request: everything a new creature is built from.
#[derive(Clone, Copy, Debug, PartialEq, Eq, Structural)]
pub struct SpawnCreature {
    pub image: CreatureImage,
    /// Maximum speed in milli-units per second.
    pub max_speed: i64,
    pub pos: Vec2,
    pub movement: MovementPattern,
    pub shrink_duration_ms: u64,
    /// True wraps on the play-area edge; false bounces.
    pub wrap: bool,
}

impl SpawnCreature {
    pub open spec fn wf(self) -> bool {
        &&& self.pos.in_range()
        &&& -MAX_COORD <= self.max_speed <= MAX_COORD
        &&& self.movement.wf()
    }
}

/// A declarative creature entry of a level file. A missing position means
/// the creature spawns at a random point of the play area.
#[derive(Clone, Copy, Debug)]
pub struct CreatureDefinition {
    pub image: CreatureImage,
    pub max_speed: i64,
    pub pos: Option<Vec2>,
    pub movement: MovementPatternDefinition,
    pub shrink_duration_ms: u64,
    pub wrap: bool,
}

impl CreatureDefinition {
    pub open spec fn wf(self) -> bool {
        &&& -MAX_COORD <= self.max_speed <= MAX_COORD
        &&& self.movement.wf()
        &&& match self.pos {
            Some(p) => p.in_range(),
            None => true,
        }
    }
}

/// Build a new alive creature from a spawn request: fresh controller at the
/// requested speed, fresh shrink timer, default scale, live pose.
pub fn spawn_creature(config: SpawnCreature) -> (c: Creature)
    requires
        config.wf(),
    ensures
        c.pos == config.pos,
        c.controller == (MovementController {
            intent: Vec2 { x: 0, y: 0 },
            intent_modifier: Vec2 { x: 1000, y: 1000 },
            max_speed: config.max_speed,
        }),
        c.pattern == config.movement,
        c.image == config.image,
        c.wrap == config.wrap,
        c.animation.timer == (Timer {
            duration_ms: config.shrink_duration_ms,
            elapsed_ms: 0,
            mode: TimerMode::Once,
            finished: false,
            just_finished: false,
        }),
        c.death is None,
        c.scale_milli == config.image.spec_default_scale(),
        c.atlas_index == 0,
        c.wf(),
{
    let mut controller: MovementController = Default::default();
    controller.max_speed = config.max_speed;
    Creature {
        pos: config.pos,
        controller,
        pattern: config.movement,
        image: config.image,
        wrap: config.wrap,
        animation: CreatureAnimation::new(config.shrink_duration_ms),
        death: None,
        scale_milli: config.image.default_scale(),
        atlas_index: 0,
    }
}

/// Kill a creature: freeze it in place, show the shot pose and start its
/// death animation. Movement intent and speed are left as they were; the
/// zero modifier is what stops it.
pub fn kill_creature(c: &mut Creature)
    requires
        old(c).wf(),
    ensures
        final(c).controller.intent_modifier == (Vec2 { x: 0, y: 0 }),
        final(c).controller.intent == old(c).controller.intent,
        final(c).controller.max_speed == old(c).controller.max_speed,
        final(c).atlas_index == 1,
        final(c).death matches Some(d) && d.timer == (Timer {
            duration_ms: DEATH_DURATION_MS,
            elapsed_ms: 0,
            mode: TimerMode::Once,
            finished: false,
            just_finished: false,
        }),
        final(c).pos == old(c).pos,
        final(c).pattern == old(c).pattern,
        final(c).image == old(c).image,
        final(c).wrap == old(c).wrap,
        final(c).animation == old(c).animation,
        final(c).scale_milli == old(c).scale_milli,
        final(c).wf(),
{
    c.controller.intent_modifier = Vec2 { x: 0, y: 0 };
    c.atlas_index = 1;
    c.death = Some(DeathAnimation::new());
}

/// Advance a dying creature's death timer; an alive creature is untouched.
pub fn tick_death_animation(c: &mut Creature, delta_ms: u64)
    requires
        old(c).wf(),
    ensures
        final(c).death == (match old(c).death {
            Some(d) => Some(DeathAnimation { timer: d.timer.spec_tick(delta_ms), ..d }),
            None => None::<DeathAnimation>,
        }),
        final(c).pos == old(c).pos,
        final(c).controller == old(c).controller,
        final(c).pattern == old(c).pattern,
        final(c).image == old(c).image,
        final(c).wrap == old(c).wrap,
        final(c).animation == old(c).animation,
        final(c).scale_milli == old(c).scale_milli,
        final(c).atlas_index == old(c).atlas_index,
        final(c).wf(),
{
    match c.death {
        Some(mut d) => {
            d.timer.tick(delta_ms);
            c.death = Some(d);
        },
        None => {},
    }
}

/// What one reaper pass decides for a creature.
#[derive(Clone, Copy, Debug, PartialEq, Eq, Structural)]
pub struct ReapStep {
    /// The death timer has completed: remove the creature.
    pub remove: bool,
    /// Cosmetic spin applied this tick, in milli-turns per axis.
    pub rot_x_mturns: u64,
    pub rot_y_mturns: u64,
}

/// The quadratic ease of the death animation: the squared remaining
/// fraction, milli-scaled.
pub open spec fn spec_explosive_entry(d: DeathAnimation) -> int {
    let frem = 1000 - d.timer.spec_fraction_permille();
    frem * frem / 1000
}

/// The display scale of a dying creature: the default scale eased from full
/// size down to a quarter as the remaining fraction falls.
pub open spec fn spec_death_scale(image: CreatureImage, d: DeathAnimation) -> int {
    tdiv_milli(image.spec_default_scale() * (250 + tdiv_milli(spec_explosive_entry(d) * 750)))
}

/// One reaper pass over a creature: decide removal when the death timer has
/// completed, and ease the dying creature's scale and spin. An alive
/// creature is untouched and never removed.
pub fn reaper(c: &mut Creature, delta_ms: u64) -> (out: ReapStep)
    requires
        old(c).wf(),
        delta_ms <= 1_000_000,
    ensures
        final(c).death == old(c).death,
        final(c).pos == old(c).pos,
        final(c).controller == old(c).controller,
        final(c).pattern == old(c).pattern,
        final(c).image == old(c).image,
        final(c).wrap == old(c).wrap,
        final(c).animation == old(c).animation,
        final(c).atlas_index == old(c).atlas_index,
        match old(c).death {
            Some(d) => {
                &&& out.remove == d.timer.finished
                &&& out.rot_x_mturns == delta_ms * spec_explosive_entry(d) / (d.x_rotation_ms as int)
                &&& out.rot_y_mturns == delta_ms * spec_explosive_entry(d) / (d.y_rotation_ms as int)
                &&& final(c).scale_milli == spec_death_scale(old(c).image, d)
            },
            None => {
                &&& out == (ReapStep { remove: false, rot_x_mturns: 0, rot_y_mturns: 0 })
                &&& final(c).scale_milli == old(c).scale_milli
            },
        },
        final(c).wf(),
{
    match c.death {
        Some(d) => {
            proof {
                crate::timer::lemma_fraction_range(d.timer);
            }
            let frem: u64 = d.timer.fraction_remaining_permille();
            proof {
                lemma_abs_mul_le(frem as int, frem as int, 1000, 1000);
                lemma_em_range(frem as int);
            }
            let em: u64 = (frem * frem) / 1000;
            proof {
                lemma_abs_mul_le(em as int, 750, 1000, 750);
                lemma_tdiv_milli_scale_bound(em * 750, 750);
            }
            let eased: i64 = 250 + mul_milli(em as i64, 750);
            let ds: i64 = c.image.default_scale();
            proof {
                lemma_abs_mul_le(ds as int, eased as int, 4000, 1000);
                assert(ds * eased >= 0) by (nonlinear_arith)
                    requires
                        ds >= 0,
                        eased >= 0,
                ;
                lemma_tdiv_milli_scale_bound(ds * eased, 4000);
                lemma_abs_mul_le(delta_ms as int, em as int, 1_000_000, 1000);
            }
            c.scale_milli = mul_milli(ds, eased);
            let rx: u64 = (delta_ms * em) / (d.x_rotation_ms as u64);
            let ry: u64 = (delta_ms * em) / (d.y_rotation_ms as u64);
            ReapStep { remove: d.timer.finished(), rot_x_mturns: rx, rot_y_mturns: ry }
        },
        None => ReapStep { remove: false, rot_x_mturns: 0, rot_y_mturns: 0 },
    }
}

/// The quadratic ease stays in `[0, 1000]`.
proof fn lemma_em_range(frem: int)
    requires
        0 <= frem <= 1000,
    ensures
        0 <= frem * frem / 1000 <= 1000,
{
    assert(0 <= frem * frem <= 1_000_000) by (nonlinear_arith)
        requires
            0 <= frem <= 1000,
    ;
    vstd::arithmetic::div_mod::lemma_div_is_ordered(frem * frem, 1_000_000, 1000);
    vstd::arithmetic::div_mod::lemma_div_multiples_vanish(1000, 1000);
    assert(1000int * 1000 == 1_000_000);
    assert(frem * frem / 1000 >= 0) by (nonlinear_arith)
        requires
            frem * frem >= 0,
    ;
}

} // verus!
