//! The explicit simulation context and the per-frame update pipeline.
//!
//! A session owns every creature and bullet, the wave timer and counter,
//! the score, the level list and the play area. The shell calls [`Session::tick`]
//! once per frame; the tick runs a fixed stage order: advance all timers,
//! compute motion intents, resolve click input into a new bullet, apply
//! boundary policies and integrate positions, resolve landed bullets into
//! kills, age lifecycles and despawn, and finally evaluate the wave
//! scheduler. Hit detection uses post-integration positions: the boxes a
//! landing tests against are where the creatures stand this frame.

use vstd::prelude::*;
use crate::bullet::Bullet;
use crate::bullet::process_bullet_falling;
use crate::bullet::spec_bullet_arc_intent_y;
use crate::bullet::spec_bullet_scale;
use crate::bullet::BULLET_DURATION_MS;
use crate::creature::Creature;
use crate::creature::CreatureAnimation;
use crate::creature::DeathAnimation;
use crate::creature::DEATH_DURATION_MS;
use crate::creature::kill_creature;
use crate::creature::reaper;
use crate::creature::spec_death_scale;
use crate::geom::Vec2;
use crate::level::DevMode;
use crate::level::GameScore;
use crate::level::Levels;
use crate::level::Screen;
use crate::level::WaveCounter;
use crate::level::WaveTimer;
use crate::level::spawn_level;
use crate::level::spec_spawned_from;
use crate::movement::GameplayArea;
use crate::movement::MovementController;
use crate::movement::apply_movement;
use crate::movement::apply_screen_bounce;
use crate::movement::apply_screen_wrap;
use crate::movement::spec_bounce_half_x;
use crate::movement::spec_bounce_half_y;
use crate::movement::spec_bounce_modifier;
use crate::movement::spec_wrap_coord;
use crate::movement::WRAP_MARGIN;
use crate::movement_pattern::move_creatures;
use crate::movement_pattern::update_timer;
use crate::num::clamp_coord;
use crate::num::tdiv_milli;
use crate::timer::Timer;
use crate::timer::TimerMode;

verus! {

/// The largest frame delta one tick integrates, in milliseconds; anything
/// beyond it is treated as this much simulated time.
pub const DELTA_CAP_MS: u64 = 1_000_000;

/// The frame delta after the cap.
pub open spec fn spec_capped_delta(delta_ms: u64) -> u64 {
    if delta_ms > DELTA_CAP_MS {
        DELTA_CAP_MS
    } else {
        delta_ms
    }
}

/// What one tick reports back to the shell.
#[derive(Clone, Copy, Debug, PartialEq, Eq, Structural)]
pub struct TickOutput {
    /// `Some(true)`: at least one creature died to this tick's landings
    /// (hit sound); `Some(false)`: landings killed nothing (miss sound);
    /// `None`: nothing landed.
    pub feedback: Option<bool>,
    /// A wave spawned this tick (wave-start sound).
    pub wave_spawned: bool,
    /// The screen the session asks the shell to switch to.
    pub next_screen: Option<Screen>,
}

/// The whole simulation state of one gameplay session.
pub struct Session {
    pub creatures: Vec<Creature>,
    pub bullets: Vec<Bullet>,
    pub wave_timer: WaveTimer,
    pub wave_counter: WaveCounter,
    pub score: GameScore,
    pub levels: Levels,
    pub area: GameplayArea,
    pub dev_mode: DevMode,
}

impl Session {
    pub open spec fn wf(self) -> bool {
        &&& self.area.wf()
        &&& self.wave_timer.0.inv()
        &&& self.levels.wf()
        &&& forall|i: int| 0 <= i < self.creatures@.len() ==> (#[trigger] self.creatures@[i]).wf()
        &&& forall|i: int| 0 <= i < self.bullets@.len() ==> (#[trigger] self.bullets@[i]).wf()
    }

    /// A fresh session at the start of gameplay: nothing spawned, wave
    /// zero, full wave timer, zero score.
    pub fn new(levels: Levels, area: GameplayArea) -> (s: Session)
        requires
            levels.wf(),
            area.wf(),
        ensures
            s.creatures@.len() == 0,
            s.bullets@.len() == 0,
            s.wave_timer == WaveTimer(Timer {
                duration_ms: crate::level::WAVE_DURATION_MS,
                elapsed_ms: 0,
                mode: TimerMode::Once,
                finished: false,
                just_finished: false,
            }),
            s.wave_counter.wave == 0,
            s.score == (GameScore { score: 0, win: false }),
            s.levels == levels,
            s.area == area,
            s.dev_mode == (DevMode(false)),
            s.wf(),
    {
        Session {
            creatures: Vec::new(),
            bullets: Vec::new(),
            wave_timer: Default::default(),
            wave_counter: WaveCounter { wave: 0 },
            score: GameScore { score: 0, win: false },
            levels,
            area,
            dev_mode: DevMode(false),
        }
    }
}

/// A creature after one timer stage: its pattern timer, shrink timer and
/// death timer have each advanced once.
pub open spec fn spec_creature_timers(c: Creature, delta: u64) -> Creature {
    Creature {
        pattern: c.pattern.spec_update_timer(delta),
        animation: CreatureAnimation { timer: c.animation.timer.spec_tick(delta) },
        death: match c.death {
            Some(d) => Some(DeathAnimation { timer: d.timer.spec_tick(delta), ..d }),
            None => None,
        },
        ..c
    }
}

/// Everything of a session that the entity stages leave alone.
pub open spec fn frame_unchanged(s: Session, t: Session) -> bool {
    &&& t.wave_counter == s.wave_counter
    &&& t.score == s.score
    &&& t.levels == s.levels
    &&& t.area == s.area
    &&& t.dev_mode == s.dev_mode
}

/// Stage one: every timer of the session advanced by the tick's delta.
pub open spec fn rel_timers(s: Session, t: Session, delta: u64) -> bool {
    &&& t.wave_timer.0 == s.wave_timer.0.spec_tick(delta)
    &&& t.creatures@.len() == s.creatures@.len()
    &&& forall|i: int|
        0 <= i < s.creatures@.len() ==> #[trigger] t.creatures@[i] == spec_creature_timers(
            s.creatures@[i],
            delta,
        )
    &&& t.bullets@.len() == s.bullets@.len()
    &&& forall|i: int|
        0 <= i < s.bullets@.len() ==> #[trigger] t.bullets@[i] == (Bullet {
            timer: s.bullets@[i].timer.spec_tick(delta),
            ..s.bullets@[i]
        })
    &&& frame_unchanged(s, t)
}

/// A creature after the intent stage: its controller carries the intent
/// its pattern produces now.
pub open spec fn spec_creature_intent(c: Creature) -> Creature {
    Creature {
        controller: MovementController {
            intent: Vec2 {
                x: c.pattern.spec_intent().0 as i64,
                y: c.pattern.spec_intent().1 as i64,
            },
            ..c.controller
        },
        ..c
    }
}

/// A bullet after the intent stage: a flying bullet shrinks with distance
/// and follows the throw arc; a falling one is untouched.
pub open spec fn spec_bullet_intent(b: Bullet) -> Bullet {
    if b.falling {
        b
    } else {
        Bullet {
            scale_milli: spec_bullet_scale(b.timer) as i64,
            controller: MovementController {
                intent: Vec2 {
                    x: b.controller.intent.x,
                    y: spec_bullet_arc_intent_y(b.timer) as i64,
                },
                ..b.controller
            },
            ..b
        }
    }
}

/// Stage two: every entity's movement intent recomputed.
pub open spec fn rel_intents(s: Session, t: Session) -> bool {
    &&& t.wave_timer == s.wave_timer
    &&& t.creatures@.len() == s.creatures@.len()
    &&& forall|i: int|
        0 <= i < s.creatures@.len() ==> #[trigger] t.creatures@[i] == spec_creature_intent(
            s.creatures@[i],
        )
    &&& t.bullets@.len() == s.bullets@.len()
    &&& forall|i: int|
        0 <= i < s.bullets@.len() ==> #[trigger] t.bullets@[i] == spec_bullet_intent(
            s.bullets@[i],
        )
    &&& frame_unchanged(s, t)
}

/// The bullet a click at `p` throws.
pub open spec fn spec_new_bullet(p: Vec2) -> Bullet {
    Bullet {
        timer: Timer {
            duration_ms: BULLET_DURATION_MS,
            elapsed_ms: 0,
            mode: TimerMode::Once,
            finished: false,
            just_finished: false,
        },
        pos: p,
        controller: MovementController {
            intent: Vec2 { x: 0, y: 0 },
            intent_modifier: Vec2 { x: 1000, y: 1000 },
            max_speed: 400_000,
        },
        scale_milli: 1000,
        falling: false,
    }
}

/// Stage three: a click throws a bullet, but only while no other bullet is
/// in flight — there can be only one at a time.
pub open spec fn rel_input(s: Session, t: Session, click: Option<Vec2>) -> bool {
    let blocked = exists|i: int| 0 <= i < s.bullets@.len() && !(#[trigger] s.bullets@[i]).falling;
    &&& t.wave_timer == s.wave_timer
    &&& t.creatures == s.creatures
    &&& match click {
        Some(p) => {
            if blocked {
                t.bullets == s.bullets
            } else {
                t.bullets@ == s.bullets@.push(spec_new_bullet(p))
            }
        },
        None => t.bullets == s.bullets,
    }
    &&& frame_unchanged(s, t)
}

/// A creature after the boundary stage: its position advanced by its
/// velocity, then wrapped, or its intent modifier flipped by the bounce
/// policy at the new position.
pub open spec fn spec_creature_moved(c: Creature, area: GameplayArea, delta: u64) -> Creature {
    let px = clamp_coord(c.pos.x + tdiv_milli(c.controller.spec_velocity_x() * delta));
    let py = clamp_coord(c.pos.y + tdiv_milli(c.controller.spec_velocity_y() * delta));
    if c.wrap {
        Creature {
            pos: Vec2 {
                x: spec_wrap_coord(px, area.main_area.spec_size().0 + WRAP_MARGIN) as i64,
                y: spec_wrap_coord(py, area.main_area.spec_size().1 + WRAP_MARGIN) as i64,
            },
            ..c
        }
    } else {
        let hx = spec_bounce_half_x(area, c.image);
        let hy = spec_bounce_half_y(area, c.image);
        Creature {
            pos: Vec2 { x: px as i64, y: py as i64 },
            controller: MovementController {
                intent_modifier: Vec2 {
                    x: if !(-hx <= px <= hx) {
                        spec_bounce_modifier(c.controller.intent.x as int, px) as i64
                    } else {
                        c.controller.intent_modifier.x
                    },
                    y: if !(-hy <= py <= hy) {
                        spec_bounce_modifier(c.controller.intent.y as int, py) as i64
                    } else {
                        c.controller.intent_modifier.y
                    },
                },
                ..c.controller
            },
            ..c
        }
    }
}

/// A bullet after the boundary stage: it only integrates, no boundary
/// policy applies to it.
pub open spec fn spec_bullet_moved(b: Bullet, delta: u64) -> Bullet {
    Bullet {
        pos: Vec2 {
            x: clamp_coord(b.pos.x + tdiv_milli(b.controller.spec_velocity_x() * delta)) as i64,
            y: clamp_coord(b.pos.y + tdiv_milli(b.controller.spec_velocity_y() * delta)) as i64,
        },
        ..b
    }
}

/// Stage four: every entity moved and held to its boundary policy.
pub open spec fn rel_boundaries(s: Session, t: Session, delta: u64) -> bool {
    &&& t.wave_timer == s.wave_timer
    &&& t.creatures@.len() == s.creatures@.len()
    &&& forall|i: int|
        0 <= i < s.creatures@.len() ==> #[trigger] t.creatures@[i] == spec_creature_moved(
            s.creatures@[i],
            s.area,
            delta,
        )
    &&& t.bullets@.len() == s.bullets@.len()
    &&& forall|i: int|
        0 <= i < s.bullets@.len() ==> #[trigger] t.bullets@[i] == spec_bullet_moved(
            s.bullets@[i],
            delta,
        )
    &&& frame_unchanged(s, t)
}

impl Session {
    /// Stage one: advance the wave timer, every creature's pattern, shrink
    /// and death timers, and every bullet's flight timer.
    pub fn advance_timers(&mut self, delta_ms: u64)
        requires
            old(self).wf(),
        ensures
            rel_timers(*old(self), *final(self), delta_ms),
            final(self).wf(),
    {
        self.wave_timer.0.tick(delta_ms);
        let n: usize = self.creatures.len();
        let mut i: usize = 0;
        while i < n
            invariant
                old(self).wf(),
                n == old(self).creatures@.len(),
                i <= n,
                self.creatures@.len() == n,
                forall|k: int|
                    0 <= k < i ==> #[trigger] self.creatures@[k] == spec_creature_timers(
                        old(self).creatures@[k],
                        delta_ms,
                    ),
                forall|k: int| i <= k < n ==> self.creatures@[k] == old(self).creatures@[k],
                self.bullets == old(self).bullets,
                self.wave_timer.0 == old(self).wave_timer.0.spec_tick(delta_ms),
                frame_unchanged(*old(self), *self),
                forall|k: int| 0 <= k < i ==> (#[trigger] self.creatures@[k]).wf(),
            decreases n - i,
        {
            let mut c: Creature = self.creatures[i];
            update_timer(&mut c.pattern, delta_ms);
            c.animation.update_timer(delta_ms);
            crate::creature::tick_death_animation(&mut c, delta_ms);
            self.creatures.set(i, c);
            i += 1;
        }
        let m: usize = self.bullets.len();
        let mut j: usize = 0;
        while j < m
            invariant
                old(self).wf(),
                m == old(self).bullets@.len(),
                j <= m,
                self.bullets@.len() == m,
                forall|k: int|
                    0 <= k < j ==> #[trigger] self.bullets@[k] == (Bullet {
                        timer: old(self).bullets@[k].timer.spec_tick(delta_ms),
                        ..old(self).bullets@[k]
                    }),
                forall|k: int| j <= k < m ==> self.bullets@[k] == old(self).bullets@[k],
                self.creatures@.len() == old(self).creatures@.len(),
                forall|k: int|
                    0 <= k < self.creatures@.len() ==> #[trigger] self.creatures@[k]
                        == spec_creature_timers(old(self).creatures@[k], delta_ms),
                forall|k: int| 0 <= k < self.creatures@.len() ==> (#[trigger] self.creatures@[k]).wf(),
                self.wave_timer.0 == old(self).wave_timer.0.spec_tick(delta_ms),
                frame_unchanged(*old(self), *self),
                forall|k: int| 0 <= k < j ==> (#[trigger] self.bullets@[k]).wf(),
            decreases m - j,
        {
            let mut b: Bullet = self.bullets[j];
            b.tick(delta_ms);
            self.bullets.set(j, b);
            j += 1;
        }
    }

    /// Stage two: write every pattern's current intent into its creature's
    /// controller, and shape every flying bullet's arc.
    pub fn compute_intents(&mut self)
        requires
            old(self).wf(),
        ensures
            rel_intents(*old(self), *final(self)),
            final(self).wf(),
    {
        let n: usize = self.creatures.len();
        let mut i: usize = 0;
        while i < n
            invariant
                old(self).wf(),
                n == old(self).creatures@.len(),
                i <= n,
                self.creatures@.len() == n,
                forall|k: int|
                    0 <= k < i ==> #[trigger] self.creatures@[k] == spec_creature_intent(
                        old(self).creatures@[k],
                    ),
                forall|k: int| i <= k < n ==> self.creatures@[k] == old(self).creatures@[k],
                self.bullets == old(self).bullets,
                self.wave_timer == old(self).wave_timer,
                frame_unchanged(*old(self), *self),
                forall|k: int| 0 <= k < i ==> (#[trigger] self.creatures@[k]).wf(),
            decreases n - i,
        {
            let mut c: Creature = self.creatures[i];
            proof {
                crate::movement_pattern::lemma_intent_bounds(c.pattern);
            }
            move_creatures(&mut c.controller, &c.pattern);
            self.creatures.set(i, c);
            i += 1;
        }
        let m: usize = self.bullets.len();
        let mut j: usize = 0;
        while j < m
            invariant
                old(self).wf(),
                m == old(self).bullets@.len(),
                j <= m,
                self.bullets@.len() == m,
                forall|k: int|
                    0 <= k < j ==> #[trigger] self.bullets@[k] == spec_bullet_intent(
                        old(self).bullets@[k],
                    ),
                forall|k: int| j <= k < m ==> self.bullets@[k] == old(self).bullets@[k],
                self.creatures@.len() == old(self).creatures@.len(),
                forall|k: int|
                    0 <= k < self.creatures@.len() ==> #[trigger] self.creatures@[k]
                        == spec_creature_intent(old(self).creatures@[k]),
                forall|k: int| 0 <= k < self.creatures@.len() ==> (#[trigger] self.creatures@[k]).wf(),
                self.wave_timer == old(self).wave_timer,
                frame_unchanged(*old(self), *self),
                forall|k: int| 0 <= k < j ==> (#[trigger] self.bullets@[k]).wf(),
            decreases m - j,
        {
            let mut b: Bullet = self.bullets[j];
            proof {
                crate::timer::lemma_fraction_range(b.timer);
            }
            crate::bullet::update_bullet_animation(&mut b);
            self.bullets.set(j, b);
            j += 1;
        }
    }

    /// Stage three: resolve this tick's click. While a bullet is in
    /// flight, clicks do nothing: there can be only one bullet at a time.
    pub fn record_player_click_input(&mut self, click: Option<Vec2>)
        requires
            old(self).wf(),
            click matches Some(p) ==> p.in_range(),
        ensures
            rel_input(*old(self), *final(self), click),
            final(self).wf(),
    {
        let p = match click {
            Some(p) => p,
            None => { return ; },
        };
        let mut any_flying: bool = false;
        let m: usize = self.bullets.len();
        let mut j: usize = 0;
        while j < m
            invariant
                m == self.bullets@.len(),
                j <= m,
                any_flying == exists|k: int|
                    0 <= k < j && !(#[trigger] self.bullets@[k]).falling,
            decreases m - j,
        {
            if !self.bullets[j].falling {
                any_flying = true;
            }
            j += 1;
        }
        if !any_flying {
            self.bullets.push(crate::bullet::Bullet::new(p));
        }
    }

    /// Stage four: move every entity by its velocity and apply its
    /// boundary policy at the new position.
    pub fn apply_boundaries(&mut self, delta_ms: u64)
        requires
            old(self).wf(),
            delta_ms <= 1_000_000,
        ensures
            rel_boundaries(*old(self), *final(self), delta_ms),
            final(self).wf(),
    {
        let n: usize = self.creatures.len();
        let mut i: usize = 0;
        while i < n
            invariant
                old(self).wf(),
                delta_ms <= 1_000_000,
                n == old(self).creatures@.len(),
                i <= n,
                self.creatures@.len() == n,
                self.area == old(self).area,
                forall|k: int|
                    0 <= k < i ==> #[trigger] self.creatures@[k] == spec_creature_moved(
                        old(self).creatures@[k],
                        old(self).area,
                        delta_ms,
                    ),
                forall|k: int| i <= k < n ==> self.creatures@[k] == old(self).creatures@[k],
                self.bullets == old(self).bullets,
                self.wave_timer == old(self).wave_timer,
                frame_unchanged(*old(self), *self),
                forall|k: int| 0 <= k < i ==> (#[trigger] self.creatures@[k]).wf(),
            decreases n - i,
        {
            let mut c: Creature = self.creatures[i];
            let moved: Vec2 = apply_movement(&c.controller, c.pos, delta_ms);
            if c.wrap {
                c.pos = apply_screen_wrap(moved, &self.area);
            } else {
                c.pos = moved;
                apply_screen_bounce(&mut c.controller, moved, &c.image, &self.area);
            }
            self.creatures.set(i, c);
            i += 1;
        }
        let m: usize = self.bullets.len();
        let mut j: usize = 0;
        while j < m
            invariant
                old(self).wf(),
                delta_ms <= 1_000_000,
                m == old(self).bullets@.len(),
                j <= m,
                self.bullets@.len() == m,
                forall|k: int|
                    0 <= k < j ==> #[trigger] self.bullets@[k] == spec_bullet_moved(
                        old(self).bullets@[k],
                        delta_ms,
                    ),
                forall|k: int| j <= k < m ==> self.bullets@[k] == old(self).bullets@[k],
                self.creatures@.len() == old(self).creatures@.len(),
                forall|k: int|
                    0 <= k < self.creatures@.len() ==> #[trigger] self.creatures@[k]
                        == spec_creature_moved(old(self).creatures@[k], old(self).area, delta_ms),
                forall|k: int| 0 <= k < self.creatures@.len() ==> (#[trigger] self.creatures@[k]).wf(),
                self.wave_timer == old(self).wave_timer,
                frame_unchanged(*old(self), *self),
                forall|k: int| 0 <= k < j ==> (#[trigger] self.bullets@[k]).wf(),
            decreases m - j,
        {
            let mut b: Bullet = self.bullets[j];
            let moved: Vec2 = apply_movement(&b.controller, b.pos, delta_ms);
            b.pos = moved;
            self.bullets.set(j, b);
            j += 1;
        }
    }
}

/// Whether any bullet of the batch landed this tick and hit the creature:
/// the kill condition of the landing stage.
pub open spec fn spec_killcond(c: Creature, bullets: Seq<Bullet>) -> bool {
    c.alive() && exists|j: int|
        0 <= j < bullets.len() && (#[trigger] bullets[j]).timer.just_finished
            && c.spec_hit_box_contains(bullets[j].pos)
}

/// A bullet after the landing stage: one that landed starts falling,
/// bounces up and gets a random sideways kick; the others are untouched.
pub open spec fn spec_bullet_landed(b0: Bullet, b1: Bullet) -> bool {
    if b0.timer.just_finished {
        &&& b1.falling == true
        &&& b1.controller.intent.y == 3000
        &&& -1000 <= b1.controller.intent.x < 1000
        &&& b1.controller.intent_modifier == b0.controller.intent_modifier
        &&& b1.controller.max_speed == b0.controller.max_speed
        &&& b1.timer == b0.timer
        &&& b1.pos == b0.pos
        &&& b1.scale_milli == b0.scale_milli
    } else {
        b1 == b0
    }
}

/// A creature right after a kill: frozen, shot pose, fresh death timer,
/// random spin periods.
pub open spec fn spec_creature_killed(c0: Creature, c1: Creature) -> bool {
    &&& c1.controller.intent_modifier == (Vec2 { x: 0, y: 0 })
    &&& c1.controller.intent == c0.controller.intent
    &&& c1.controller.max_speed == c0.controller.max_speed
    &&& c1.atlas_index == 1
    &&& c1.death matches Some(d) && d.timer == (Timer {
        duration_ms: DEATH_DURATION_MS,
        elapsed_ms: 0,
        mode: TimerMode::Once,
        finished: false,
        just_finished: false,
    }) && d.wf()
    &&& c1.pos == c0.pos
    &&& c1.pattern == c0.pattern
    &&& c1.image == c0.image
    &&& c1.wrap == c0.wrap
    &&& c1.animation == c0.animation
    &&& c1.scale_milli == c0.scale_milli
}

/// Stage five: every landed bullet becomes a hit event at its position;
/// every alive creature whose box contains a landing dies, each at most
/// once per batch; and the batch yields exactly one aggregate signal —
/// `Some(true)` if anything died, `Some(false)` if landings missed,
/// `None` if nothing landed.
pub open spec fn rel_landing(s: Session, t: Session, feedback: Option<bool>) -> bool {
    &&& t.wave_timer == s.wave_timer
    &&& t.creatures@.len() == s.creatures@.len()
    &&& forall|i: int|
        0 <= i < s.creatures@.len() ==> if spec_killcond(s.creatures@[i], s.bullets@) {
            spec_creature_killed(s.creatures@[i], #[trigger] t.creatures@[i])
        } else {
            t.creatures@[i] == s.creatures@[i]
        }
    &&& t.bullets@.len() == s.bullets@.len()
    &&& forall|i: int|
        0 <= i < s.bullets@.len() ==> spec_bullet_landed(
            s.bullets@[i],
            #[trigger] t.bullets@[i],
        )
    &&& feedback == (if exists|j: int|
        0 <= j < s.bullets@.len() && (#[trigger] s.bullets@[j]).timer.just_finished {
        Some(
            exists|i: int|
                0 <= i < s.creatures@.len() && spec_killcond(
                    #[trigger] s.creatures@[i],
                    s.bullets@,
                ),
        )
    } else {
        None::<bool>
    })
    &&& frame_unchanged(s, t)
}

/// A creature after one reaper pass: a dying one's scale follows the
/// quadratic ease, an alive one is untouched.
pub open spec fn spec_creature_reaped(c: Creature) -> Creature {
    match c.death {
        Some(d) => Creature { scale_milli: spec_death_scale(c.image, d) as i64, ..c },
        None => c,
    }
}

/// Whether the reaper removes the creature: its death timer has completed.
pub open spec fn spec_creature_removed(c: Creature) -> bool {
    match c.death {
        Some(d) => d.timer.finished,
        None => false,
    }
}

/// The creature list after the lifecycle stage: each creature reaped, the
/// completed ones removed, order kept.
pub open spec fn spec_reap_seq(s: Seq<Creature>) -> Seq<Creature>
    decreases s.len(),
{
    if s.len() == 0 {
        Seq::empty()
    } else {
        let rest = spec_reap_seq(s.drop_last());
        if spec_creature_removed(s.last()) {
            rest
        } else {
            rest.push(spec_creature_reaped(s.last()))
        }
    }
}

/// A falling bullet after one gravity step.
pub open spec fn spec_bullet_fallen(b: Bullet, delta: u64) -> Bullet {
    if b.falling {
        Bullet {
            controller: MovementController {
                intent: Vec2 {
                    x: b.controller.intent.x,
                    y: (if b.controller.intent.y - 20 * delta >= -crate::num::MAX_COORD {
                        b.controller.intent.y - 20 * delta
                    } else {
                        -crate::num::MAX_COORD as int
                    }) as i64,
                },
                ..b.controller
            },
            ..b
        }
    } else {
        b
    }
}

/// Whether the lifecycle stage removes the bullet: it fell below the play
/// area.
pub open spec fn spec_bullet_removed(b: Bullet, area: GameplayArea) -> bool {
    b.falling && b.pos.y < area.main_area.min.y
}

/// The bullet list after the lifecycle stage: bullets below the play area
/// removed, the other falling ones pulled down by gravity, order kept.
pub open spec fn spec_fall_seq(s: Seq<Bullet>, area: GameplayArea, delta: u64) -> Seq<Bullet>
    decreases s.len(),
{
    if s.len() == 0 {
        Seq::empty()
    } else {
        let rest = spec_fall_seq(s.drop_last(), area, delta);
        if spec_bullet_removed(s.last(), area) {
            rest
        } else {
            rest.push(spec_bullet_fallen(s.last(), delta))
        }
    }
}

/// Stage six: age lifecycles and despawn what completed.
pub open spec fn rel_lifecycle(s: Session, t: Session, delta: u64) -> bool {
    &&& t.wave_timer == s.wave_timer
    &&& t.creatures@ == spec_reap_seq(s.creatures@)
    &&& t.bullets@ == spec_fall_seq(s.bullets@, s.area, delta)
    &&& frame_unchanged(s, t)
}

/// The wave-clear check: on the first tick, or once no creature is left
/// (corpses included), the next level spawns — or, with no level left, the
/// game is won. Spawning numbers the wave, sets the score to that number
/// and refills the wave timer.
pub open spec fn rel_wave_spawn(s: Session, t: Session, spawned: bool, won: bool) -> bool {
    let cleared = s.wave_counter.wave == 0 || s.creatures@.len() == 0;
    &&& t.bullets == s.bullets
    &&& t.levels == s.levels
    &&& t.area == s.area
    &&& t.dev_mode == s.dev_mode
    &&& if cleared {
        if s.wave_counter.wave >= s.levels.game_levels@.len() {
            &&& won == true
            &&& spawned == false
            &&& t.creatures == s.creatures
            &&& t.wave_counter == s.wave_counter
            &&& t.wave_timer == s.wave_timer
            &&& t.score == (GameScore { score: s.score.score, win: true })
        } else {
            let defs = s.levels.game_levels@[s.wave_counter.wave as int].creatures@;
            &&& won == false
            &&& spawned == true
            &&& t.creatures@.len() == s.creatures@.len() + defs.len()
            &&& forall|i: int|
                0 <= i < s.creatures@.len() ==> #[trigger] t.creatures@[i] == s.creatures@[i]
            &&& forall|k: int|
                0 <= k < defs.len() ==> spec_spawned_from(
                    #[trigger] t.creatures@[s.creatures@.len() + k],
                    defs[k],
                    s.area,
                )
            &&& t.wave_counter.wave == s.wave_counter.wave + 1
            &&& t.score == (GameScore { score: (s.wave_counter.wave + 1) as u32, win: s.score.win })
            &&& t.wave_timer.0 == (Timer {
                elapsed_ms: 0,
                finished: false,
                just_finished: false,
                ..s.wave_timer.0
            })
        }
    } else {
        &&& won == false
        &&& spawned == false
        &&& t.creatures == s.creatures
        &&& t.wave_counter == s.wave_counter
        &&& t.wave_timer == s.wave_timer
        &&& t.score == s.score
    }
}

/// The wave-timeout check: the tick on which the wave timer completes
/// while any creature is still alive loses the game; the score keeps its
/// last value. Evaluated after the clear check, so a wave cleared on the
/// expiring tick still counts as cleared.
pub open spec fn rel_wave_timer(s: Session, t: Session, lost: bool) -> bool {
    let lose = s.wave_timer.0.just_finished && exists|i: int|
        0 <= i < s.creatures@.len() && (#[trigger] s.creatures@[i]).alive();
    &&& t.creatures == s.creatures
    &&& t.bullets == s.bullets
    &&& t.wave_timer == s.wave_timer
    &&& t.wave_counter == s.wave_counter
    &&& t.levels == s.levels
    &&& t.area == s.area
    &&& t.dev_mode == s.dev_mode
    &&& lost == lose
    &&& t.score == (if lose {
        GameScore { score: s.score.score, win: false }
    } else {
        s.score
    })
}

/// Stage seven as a whole: the wave scheduler, gated off while dev mode
/// runs a hand-picked level, followed by the safety valve that ends the
/// session once more than a hundred creatures exist.
pub open spec fn rel_wave_step(s: Session, t: Session, out: TickOutput) -> bool {
    if s.dev_mode.0 {
        &&& t.creatures == s.creatures
        &&& t.bullets == s.bullets
        &&& t.wave_timer == s.wave_timer
        &&& t.wave_counter == s.wave_counter
        &&& t.score == s.score
        &&& t.levels == s.levels
        &&& t.area == s.area
        &&& t.dev_mode == s.dev_mode
        &&& out.wave_spawned == false
        &&& out.next_screen == (if s.creatures@.len() > 100 {
            Some(Screen::Score)
        } else {
            None::<Screen>
        })
    } else {
        exists|mid: Session, spawned: bool, won: bool, lost: bool|
            {
                &&& #[trigger] rel_wave_spawn(s, mid, spawned, won)
                &&& #[trigger] rel_wave_timer(mid, t, lost)
                &&& out.wave_spawned == spawned
                &&& out.next_screen == (if won || lost || t.creatures@.len() > 100 {
                    Some(Screen::Score)
                } else {
                    None::<Screen>
                })
            }
    }
}

impl Session {
    /// Stage five: resolve landed bullets into kills. See [`rel_landing`].
    pub fn process_bullets_landing(&mut self) -> (feedback: Option<bool>)
        requires
            old(self).wf(),
        ensures
            rel_landing(*old(self), *final(self), feedback),
            final(self).wf(),
    {
        let n: usize = self.creatures.len();
        let m: usize = self.bullets.len();
        let mut any_landed: bool = false;
        let mut j: usize = 0;
        while j < m
            invariant
                m == self.bullets@.len(),
                j <= m,
                any_landed == exists|k: int|
                    0 <= k < j && (#[trigger] self.bullets@[k]).timer.just_finished,
            decreases m - j,
        {
            if self.bullets[j].timer.just_finished() {
                any_landed = true;
            }
            j += 1;
        }
        // Which creatures this batch kills, decided before anything mutates.
        let mut kills: Vec<bool> = Vec::new();
        let mut i: usize = 0;
        while i < n
            invariant
                old(self).wf(),
                *self == *old(self),
                n == self.creatures@.len(),
                m == self.bullets@.len(),
                i <= n,
                kills@.len() == i,
                forall|k: int|
                    0 <= k < i ==> #[trigger] kills@[k] == spec_killcond(
                        self.creatures@[k],
                        self.bullets@,
                    ),
            decreases n - i,
        {
            let c: Creature = self.creatures[i];
            let mut hit: bool = false;
            if c.death.is_none() {
                let boxed = c.hit_box();
                let mut j2: usize = 0;
                while j2 < m
                    invariant
                        old(self).wf(),
                        *self == *old(self),
                        m == self.bullets@.len(),
                        j2 <= m,
                        c.wf(),
                        forall|p: Vec2| boxed.spec_contains(p) == c.spec_hit_box_contains(p),
                        hit == exists|k: int|
                            0 <= k < j2 && (#[trigger] self.bullets@[k]).timer.just_finished
                                && c.spec_hit_box_contains(self.bullets@[k].pos),
                    decreases m - j2,
                {
                    let b = self.bullets[j2];
                    if b.timer.just_finished() && boxed.contains(b.pos) {
                        hit = true;
                    }
                    j2 += 1;
                }
            }
            kills.push(hit);
            i += 1;
        }
        // Landed bullets start falling, bounce up and kick sideways.
        j = 0;
        while j < m
            invariant
                old(self).wf(),
                m == old(self).bullets@.len(),
                j <= m,
                self.bullets@.len() == m,
                forall|k: int|
                    0 <= k < j ==> spec_bullet_landed(
                        old(self).bullets@[k],
                        #[trigger] self.bullets@[k],
                    ),
                forall|k: int| j <= k < m ==> self.bullets@[k] == old(self).bullets@[k],
                self.creatures == old(self).creatures,
                self.wave_timer == old(self).wave_timer,
                frame_unchanged(*old(self), *self),
                forall|k: int| 0 <= k < j ==> (#[trigger] self.bullets@[k]).wf(),
            decreases m - j,
        {
            let mut b: Bullet = self.bullets[j];
            if b.timer.just_finished() {
                b.falling = true;
                b.controller.intent.y = 3000;
                b.controller.intent.x = crate::rng::sample_range(-1000, 1000);
                self.bullets.set(j, b);
            }
            j += 1;
        }
        if !any_landed {
            return None;
        }
        // Apply the kills and fold the batch into one hit-or-miss signal.
        let mut found: bool = false;
        i = 0;
        while i < n
            invariant
                old(self).wf(),
                n == old(self).creatures@.len(),
                i <= n,
                self.creatures@.len() == n,
                kills@.len() == n,
                forall|k: int|
                    0 <= k < n ==> #[trigger] kills@[k] == spec_killcond(
                        old(self).creatures@[k],
                        old(self).bullets@,
                    ),
                forall|k: int|
                    0 <= k < i ==> if spec_killcond(old(self).creatures@[k], old(self).bullets@) {
                        spec_creature_killed(old(self).creatures@[k], #[trigger] self.creatures@[k])
                    } else {
                        self.creatures@[k] == old(self).creatures@[k]
                    },
                forall|k: int| i <= k < n ==> self.creatures@[k] == old(self).creatures@[k],
                found == exists|k: int| 0 <= k < i && #[trigger] kills@[k],
                forall|k: int|
                    0 <= k < self.bullets@.len() ==> spec_bullet_landed(
                        old(self).bullets@[k],
                        #[trigger] self.bullets@[k],
                    ),
                self.bullets@.len() == old(self).bullets@.len(),
                self.wave_timer == old(self).wave_timer,
                frame_unchanged(*old(self), *self),
                forall|k: int| 0 <= k < self.bullets@.len() ==> (#[trigger] self.bullets@[k]).wf(),
                forall|k: int| 0 <= k < i ==> (#[trigger] self.creatures@[k]).wf(),
            decreases n - i,
        {
            if kills[i] {
                let mut c: Creature = self.creatures[i];
                kill_creature(&mut c);
                self.creatures.set(i, c);
                found = true;
            }
            i += 1;
        }
        proof {
            if found {
                let k0 = choose|k: int| 0 <= k < n && #[trigger] kills@[k];
                assert(spec_killcond(old(self).creatures@[k0], old(self).bullets@));
            } else {
                assert forall|k: int|
                    0 <= k < old(self).creatures@.len() implies !spec_killcond(
                    #[trigger] old(self).creatures@[k],
                    old(self).bullets@,
                ) by {
                    assert(!kills@[k]);
                }
            }
        }
        Some(found)
    }

    /// Stage six: one reaper pass over the creatures and one gravity pass
    /// over the bullets, removing what completed. See [`rel_lifecycle`].
    pub fn advance_lifecycle(&mut self, delta_ms: u64)
        requires
            old(self).wf(),
            delta_ms <= 1_000_000,
        ensures
            rel_lifecycle(*old(self), *final(self), delta_ms),
            final(self).wf(),
    {
        let n: usize = self.creatures.len();
        let mut out: Vec<Creature> = Vec::new();
        let mut i: usize = 0;
        while i < n
            invariant
                old(self).wf(),
                delta_ms <= 1_000_000,
                n == old(self).creatures@.len(),
                i <= n,
                self.creatures == old(self).creatures,
                out@ == spec_reap_seq(old(self).creatures@.take(i as int)),
                forall|k: int| 0 <= k < out@.len() ==> (#[trigger] out@[k]).wf(),
            decreases n - i,
        {
            let mut c: Creature = self.creatures[i];
            let step = reaper(&mut c, delta_ms);
            if !step.remove {
                out.push(c);
            }
            proof {
                let pre = old(self).creatures@.take(i as int);
                let post = old(self).creatures@.take(i + 1);
                assert(post.drop_last() =~= pre);
                assert(post.last() == old(self).creatures@[i as int]);
            }
            i += 1;
        }
        proof {
            assert(old(self).creatures@.take(n as int) =~= old(self).creatures@);
        }
        self.creatures = out;
        let m: usize = self.bullets.len();
        let mut outb: Vec<Bullet> = Vec::new();
        let mut j: usize = 0;
        while j < m
            invariant
                old(self).wf(),
                delta_ms <= 1_000_000,
                m == old(self).bullets@.len(),
                j <= m,
                self.bullets == old(self).bullets,
                self.area == old(self).area,
                outb@ == spec_fall_seq(
                    old(self).bullets@.take(j as int),
                    old(self).area,
                    delta_ms,
                ),
                forall|k: int| 0 <= k < outb@.len() ==> (#[trigger] outb@[k]).wf(),
            decreases m - j,
        {
            let mut b: Bullet = self.bullets[j];
            let remove: bool = process_bullet_falling(&mut b, &self.area, delta_ms);
            if !remove {
                outb.push(b);
            }
            proof {
                let pre = old(self).bullets@.take(j as int);
                let post = old(self).bullets@.take(j + 1);
                assert(post.drop_last() =~= pre);
                assert(post.last() == old(self).bullets@[j as int]);
            }
            j += 1;
        }
        proof {
            assert(old(self).bullets@.take(m as int) =~= old(self).bullets@);
        }
        self.bullets = outb;
    }

    /// The wave-clear check. See [`rel_wave_spawn`].
    pub fn check_wave_spawn(&mut self) -> (r: (bool, bool))
        requires
            old(self).wf(),
        ensures
            rel_wave_spawn(*old(self), *final(self), r.0, r.1),
            final(self).wf(),
    {
        if !(self.wave_counter.wave == 0 || self.creatures.len() == 0) {
            return (false, false);
        }
        let idx: usize = self.wave_counter.wave as usize;
        if idx >= self.levels.game_levels.len() {
            self.score.win = true;
            return (false, true);
        }
        let spawned = spawn_level(Some(&self.levels.game_levels[idx]), &self.area);
        match spawned {
            Some(mut cs) => {
                self.creatures.append(&mut cs);
            },
            None => {},
        }
        self.score.score = self.wave_counter.wave + 1;
        self.wave_counter.wave = self.wave_counter.wave + 1;
        self.wave_timer.0.reset();
        (true, false)
    }

    /// The wave-timeout check. See [`rel_wave_timer`].
    pub fn check_wave_timer(&mut self) -> (lost: bool)
        requires
            old(self).wf(),
        ensures
            rel_wave_timer(*old(self), *final(self), lost),
            final(self).wf(),
    {
        if !self.wave_timer.0.just_finished() {
            return false;
        }
        let n: usize = self.creatures.len();
        let mut any_alive: bool = false;
        let mut i: usize = 0;
        while i < n
            invariant
                n == self.creatures@.len(),
                i <= n,
                any_alive == exists|k: int|
                    0 <= k < i && (#[trigger] self.creatures@[k]).alive(),
            decreases n - i,
        {
            if self.creatures[i].death.is_none() {
                any_alive = true;
            }
            i += 1;
        }
        if any_alive {
            self.score.win = false;
            true
        } else {
            false
        }
    }

    /// The safety valve: more than a hundred creatures end the session.
    pub fn end_game_on_too_many_creatures(&self) -> (over: bool)
        ensures
            over == (self.creatures@.len() > 100),
    {
        self.creatures.len() > 100
    }

    /// One simulated frame: the seven stages in their fixed order, with
    /// the frame delta capped at the largest step the fixed-point
    /// arithmetic integrates. The ensures names the intermediate states of
    /// the pipeline; each stage relation pins what that stage does.
    #[verifier::rlimit(60)]
    pub fn tick(&mut self, delta_ms: u64, click: Option<Vec2>) -> (out: TickOutput)
        requires
            old(self).wf(),
            click matches Some(p) ==> p.in_range(),
        ensures
            final(self).wf(),
            exists|s1: Session, s2: Session, s3: Session, s4: Session, s5: Session, s6: Session|
                {
                    &&& #[trigger] rel_timers(*old(self), s1, spec_capped_delta(delta_ms))
                    &&& #[trigger] rel_intents(s1, s2)
                    &&& #[trigger] rel_input(s2, s3, click)
                    &&& #[trigger] rel_boundaries(s3, s4, spec_capped_delta(delta_ms))
                    &&& #[trigger] rel_landing(s4, s5, out.feedback)
                    &&& #[trigger] rel_lifecycle(s5, s6, spec_capped_delta(delta_ms))
                    &&& rel_wave_step(s6, *final(self), out)
                },
    {
        let d: u64 = if delta_ms > DELTA_CAP_MS {
            DELTA_CAP_MS
        } else {
            delta_ms
        };
        proof {
            assert(d == spec_capped_delta(delta_ms));
        }
        self.advance_timers(d);
        let ghost s1 = *self;
        self.compute_intents();
        let ghost s2 = *self;
        self.record_player_click_input(click);
        let ghost s3 = *self;
        self.apply_boundaries(d);
        let ghost s4 = *self;
        let feedback = self.process_bullets_landing();
        let ghost s5 = *self;
        self.advance_lifecycle(d);
        let ghost s6 = *self;
        proof {
            assert(rel_timers(*old(self), s1, spec_capped_delta(delta_ms)));
            assert(rel_boundaries(s3, s4, spec_capped_delta(delta_ms)));
            assert(rel_lifecycle(s5, s6, spec_capped_delta(delta_ms)));
        }
        let mut wave_spawned: bool = false;
        let mut next_screen: Option<Screen> = None;
        if !self.dev_mode.0 {
            let r = self.check_wave_spawn();
            wave_spawned = r.0;
            let ghost smid = *self;
            let lost = self.check_wave_timer();
            let over = self.end_game_on_too_many_creatures();
            if r.1 || lost || over {
                next_screen = Some(Screen::Score);
            }
            let out = TickOutput { feedback, wave_spawned, next_screen };
            proof {
                assert(rel_wave_spawn(s6, smid, r.0, r.1));
                assert(rel_wave_timer(smid, *self, lost));
                assert(rel_wave_step(s6, *self, out));
            }
            out
        } else {
            let over = self.end_game_on_too_many_creatures();
            if over {
                next_screen = Some(Screen::Score);
            }
            let out = TickOutput { feedback, wave_spawned, next_screen };
            out
        }
    }
}

} // verus!
