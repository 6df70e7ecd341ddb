//! Attack events: thrown bullets, their flight and fall, and hit
//! resolution against creature hit boxes.
//!
//! A click throws a bullet that flies for a fixed time; while it flies it
//! shrinks with distance and follows a parabolic arc. On the tick its
//! flight timer completes it lands: the landing point is a hit event, the
//! bullet bounces up with a random sideways kick and falls under gravity
//! until it drops below the play area. Hit resolution tests every landing
//! point of a batch against every alive creature's box; each creature whose
//! box contains a landing point dies, and the batch yields exactly one
//! aggregate hit-or-miss signal.

use vstd::prelude::*;
use crate::creature::Creature;
use crate::geom::Vec2;
use crate::movement::GameplayArea;
use crate::movement::MovementController;
use crate::num::MAX_COORD;
use crate::num::lemma_abs_mul_le;
use crate::num::lemma_tdiv_milli_scale_bound;
use crate::num::mul_milli;
use crate::num::tdiv_milli;
use crate::timer::Timer;
use crate::timer::TimerMode;

verus! {

/// Flight time of a thrown bullet, in milliseconds.
pub const BULLET_DURATION_MS: u64 = 300;

/// A transient attack event: a thrown bullet.
#[derive(Clone, Copy, Debug, PartialEq, Eq, Structural)]
pub struct Bullet {
    pub timer: Timer,
    pub pos: Vec2,
    pub controller: MovementController,
    /// Display scale while flying, milli-scaled.
    pub scale_milli: i64,
    /// A landed bullet falls until it leaves the play area.
    pub falling: bool,
}

impl Bullet {
    pub open spec fn wf(self) -> bool {
        &&& self.timer.inv()
        &&& self.pos.in_range()
        &&& self.controller.wf()
        &&& 0 <= self.scale_milli <= 1000
    }

    /// A fresh bullet thrown at `pos`: full size, flight timer running,
    /// default controller.
    pub fn new(pos: Vec2) -> (b: Bullet)
        requires
            pos.in_range(),
        ensures
            b.timer == (Timer {
                duration_ms: BULLET_DURATION_MS,
                elapsed_ms: 0,
                mode: TimerMode::Once,
                finished: false,
                just_finished: false,
            }),
            b.pos == pos,
            b.controller == (MovementController {
                intent: Vec2 { x: 0, y: 0 },
                intent_modifier: Vec2 { x: 1000, y: 1000 },
                max_speed: 400_000,
            }),
            b.scale_milli == 1000,
            !b.falling,
            b.wf(),
    {
        Bullet {
            timer: Timer::new(BULLET_DURATION_MS, TimerMode::Once),
            pos,
            controller: Default::default(),
            scale_milli: 1000,
            falling: false,
        }
    }

    /// Advance the flight timer.
    pub fn tick(&mut self, delta_ms: u64)
        requires
            old(self).wf(),
        ensures
            final(self).timer == old(self).timer.spec_tick(delta_ms),
            final(self).pos == old(self).pos,
            final(self).controller == old(self).controller,
            final(self).scale_milli == old(self).scale_milli,
            final(self).falling == old(self).falling,
            final(self).wf(),
    {
        self.timer.tick(delta_ms);
    }
}

/// Display scale of a flying bullet: shrinks linearly with the elapsed
/// flight fraction down to two fifths.
pub open spec fn spec_bullet_scale(t: Timer) -> int {
    1000 - tdiv_milli(600 * t.spec_fraction_permille())
}

/// Vertical intent of a flying bullet: the derivative of the parabolic
/// arc `1 - (2x - 1)^2`, scaled by the throw height.
pub open spec fn spec_bullet_arc_intent_y(t: Timer) -> int {
    tdiv_milli((2000 - 4 * t.spec_fraction_permille()) * 400)
}

/// While a bullet flies, shrink it with distance and bend its path along
/// the parabolic arc; a falling bullet is untouched.
pub fn update_bullet_animation(b: &mut Bullet)
    requires
        old(b).wf(),
    ensures
        old(b).falling ==> *final(b) == *old(b),
        !old(b).falling ==> {
            &&& final(b).scale_milli == spec_bullet_scale(old(b).timer)
            &&& final(b).controller.intent.y == spec_bullet_arc_intent_y(old(b).timer)
            &&& final(b).controller.intent.x == old(b).controller.intent.x
            &&& final(b).controller.intent_modifier == old(b).controller.intent_modifier
            &&& final(b).controller.max_speed == old(b).controller.max_speed
            &&& final(b).timer == old(b).timer
            &&& final(b).pos == old(b).pos
            &&& final(b).falling == old(b).falling
        },
        final(b).wf(),
{
    if !b.falling {
        proof {
            crate::timer::lemma_fraction_range(b.timer);
        }
        let frac: i64 = b.timer.fraction_permille() as i64;
        proof {
            lemma_tdiv_milli_scale_bound(600 * frac, 600);
            lemma_tdiv_milli_scale_bound((2000 - 4 * frac) * 400, 800);
        }
        b.scale_milli = 1000 - mul_milli(600, frac);
        b.controller.intent.y = mul_milli(2000 - 4 * frac, 400);
    }
}

/// One step of a falling bullet: report it for removal once it is below
/// the play area, otherwise pull its vertical intent down by gravity,
/// saturating at the edge of the stored range. A flying bullet is
/// untouched.
pub fn process_bullet_falling(b: &mut Bullet, area: &GameplayArea, delta_ms: u64) -> (remove:
    bool)
    requires
        old(b).wf(),
        area.wf(),
        delta_ms <= 1_000_000,
    ensures
        !old(b).falling ==> *final(b) == *old(b) && !remove,
        old(b).falling ==> {
            &&& remove == (old(b).pos.y < area.main_area.min.y)
            &&& remove ==> *final(b) == *old(b)
            &&& !remove ==> {
                &&& final(b).controller.intent.y == (if old(b).controller.intent.y - 20 * delta_ms
                    >= -MAX_COORD {
                    old(b).controller.intent.y - 20 * delta_ms
                } else {
                    -MAX_COORD as int
                })
                &&& final(b).controller.intent.x == old(b).controller.intent.x
                &&& final(b).controller.intent_modifier == old(b).controller.intent_modifier
                &&& final(b).controller.max_speed == old(b).controller.max_speed
                &&& final(b).timer == old(b).timer
                &&& final(b).pos == old(b).pos
                &&& final(b).scale_milli == old(b).scale_milli
                &&& final(b).falling == old(b).falling
            }
        },
        final(b).wf(),
{
    if !b.falling {
        return false;
    }
    if b.pos.y < area.main_area.min.y {
        true
    } else {
        let drop: i64 = 20 * (delta_ms as i64);
        let t: i64 = b.controller.intent.y - drop;
        b.controller.intent.y = if t >= -1_000_000_000 {
            t
        } else {
            -1_000_000_000
        };
        false
    }
}

/// Which creatures a batch of landing points kills: every alive creature
/// whose hit box contains at least one landing point, each at most once
/// per batch.
pub fn creatures_hit_by(hits: &Vec<Vec2>, creatures: &Vec<Creature>) -> (kills: Vec<bool>)
    requires
        forall|i: int| 0 <= i < creatures@.len() ==> (#[trigger] creatures@[i]).wf(),
    ensures
        kills@.len() == creatures@.len(),
        forall|i: int|
            0 <= i < creatures@.len() ==> (#[trigger] kills@[i]) == (creatures@[i].alive()
                && exists|j: int|
                0 <= j < hits@.len() && creatures@[i].spec_hit_box_contains(#[trigger] hits@[j])),
{
    let mut kills: Vec<bool> = Vec::new();
    let mut i: usize = 0;
    while i < creatures.len()
        invariant
            forall|k: int| 0 <= k < creatures@.len() ==> (#[trigger] creatures@[k]).wf(),
            i <= creatures@.len(),
            kills@.len() == i,
            forall|k: int|
                0 <= k < i ==> (#[trigger] kills@[k]) == (creatures@[k].alive() && exists|j: int|
                    0 <= j < hits@.len() && creatures@[k].spec_hit_box_contains(
                        #[trigger] hits@[j],
                    )),
        decreases creatures@.len() - i,
    {
        let c = &creatures[i];
        let mut hit: bool = false;
        if c.death.is_none() {
            let boxed = c.hit_box();
            let mut j: usize = 0;
            while j < hits.len()
                invariant
                    j <= hits@.len(),
                    forall|p: Vec2| boxed.spec_contains(p) == c.spec_hit_box_contains(p),
                    hit == exists|k: int|
                        0 <= k < j && c.spec_hit_box_contains(#[trigger] hits@[k]),
                decreases hits@.len() - j,
            {
                if boxed.contains(hits[j]) {
                    hit = true;
                }
                j += 1;
            }
        }
        kills.push(hit);
        i += 1;
    }
    kills
}

} // verus!
