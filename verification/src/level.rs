//! Levels, waves and session outcome data.
//!
//! A level is an ordered list of creature definitions; the game runs the
//! levels in order, one wave per level. A wave timer bounds each wave, the
//! wave counter numbers them from one, and the score and win flag make up
//! the outcome the score screen shows.

use vstd::prelude::*;
use crate::creature::Creature;
use crate::creature::CreatureDefinition;
use crate::creature::SpawnCreature;
use crate::creature::spawn_creature;
use crate::geom::Vec2;
use crate::movement::GameplayArea;
use crate::rng::sample_range;
use crate::timer::Timer;
use crate::timer::TimerMode;

verus! {

/// How long one wave may run, in milliseconds.
pub const WAVE_DURATION_MS: u64 = 20_000;

/// Margin kept between the play-area edge and a random spawn point, in
/// milli-units.
pub const SPAWN_MARGIN: i64 = 256_000;

/// The one-shot timer bounding the current wave.
#[derive(Clone, Copy, Debug, PartialEq, Eq, Structural)]
pub struct WaveTimer(pub Timer);

impl Default for WaveTimer {
    /// A full, untouched wave timer.
    fn default() -> (t: WaveTimer)
        ensures
            t.0 == (Timer {
                duration_ms: WAVE_DURATION_MS,
                elapsed_ms: 0,
                mode: TimerMode::Once,
                finished: false,
                just_finished: false,
            }),
            t.0.inv(),
    {
        WaveTimer(Timer::new(WAVE_DURATION_MS, TimerMode::Once))
    }
}

/// Number of the running wave; zero before the first wave spawns.
#[derive(Clone, Copy, Debug, PartialEq, Eq, Structural, Default)]
pub struct WaveCounter {
    pub wave: u32,
}

/// Score and outcome of a session.
#[derive(Clone, Copy, Debug, PartialEq, Eq, Structural, Default)]
pub struct GameScore {
    pub score: u32,
    pub win: bool,
}

/// The game's main screens. The simulation core only ever asks for the
/// score screen; the shell owns the rest.
#[derive(Clone, Copy, Debug, PartialEq, Eq, Structural, Hash)]
pub enum Screen {
    Splash,
    Loading,
    Title,
    Credits,
    Gameplay,
    Score,
    Dev,
}

/// While set, the wave scheduler stands still so a hand-picked level can
/// run alone.
#[derive(Clone, Copy, Debug, PartialEq, Eq, Structural, Default)]
pub struct DevMode(pub bool);

/// Counts consecutive presses of the dev key during gameplay; the third
/// one in a row opens the dev screen.
#[derive(Clone, Copy, Debug, PartialEq, Eq, Structural, Default)]
pub struct DevGameplay {
    pub enter_dev_mode_counter: u32,
}

impl DevGameplay {
    /// The counter never reaches the firing threshold between calls.
    pub open spec fn wf(self) -> bool {
        self.enter_dev_mode_counter <= 2
    }

    /// Feed one frame of key input: `Some(true)` is a dev-key press,
    /// `Some(false)` any other key, `None` no key at all. Returns whether
    /// the dev screen opens — exactly on every third consecutive dev-key
    /// press — and resets the count when it does, or when another key
    /// breaks the run.
    pub fn dev_mode_portal(&mut self, key: Option<bool>) -> (enter: bool)
        requires
            old(self).wf(),
        ensures
            final(self).wf(),
            match key {
                Some(true) => {
                    &&& enter == (old(self).enter_dev_mode_counter + 1 >= 3)
                    &&& final(self).enter_dev_mode_counter == (if enter {
                        0int
                    } else {
                        old(self).enter_dev_mode_counter + 1
                    })
                },
                Some(false) => !enter && final(self).enter_dev_mode_counter == 0,
                None => !enter && *final(self) == *old(self),
            },
    {
        match key {
            Some(true) => {
                self.enter_dev_mode_counter = self.enter_dev_mode_counter + 1;
            },
            Some(false) => {
                self.enter_dev_mode_counter = 0;
            },
            None => {},
        }
        if self.enter_dev_mode_counter >= 3 {
            self.enter_dev_mode_counter = 0;
            true
        } else {
            false
        }
    }

    /// Entering gameplay forgets any half-typed dev sequence.
    pub fn reset_dev_portal(&mut self)
        ensures
            final(self).enter_dev_mode_counter == 0,
            final(self).wf(),
    {
        self.enter_dev_mode_counter = 0;
    }
}

/// A definition of a single level: the creatures of its wave.
#[derive(Clone, Debug)]
pub struct LevelDefinition {
    pub creatures: Vec<CreatureDefinition>,
}

impl LevelDefinition {
    pub open spec fn wf(self) -> bool {
        forall|i: int| 0 <= i < self.creatures@.len() ==> (#[trigger] self.creatures@[i]).wf()
    }
}

/// The levels the game runs through in order.
#[derive(Clone, Debug)]
pub struct Levels {
    pub game_levels: Vec<LevelDefinition>,
}

impl Levels {
    /// Every level well formed, and fewer levels than the wave counter can
    /// number.
    pub open spec fn wf(self) -> bool {
        &&& forall|i: int|
            0 <= i < self.game_levels@.len() ==> (#[trigger] self.game_levels@[i]).wf()
        &&& self.game_levels@.len() < 0xffff_ffff
    }
}

/// Where a random spawn point may fall: the play area shrunk by the spawn
/// margin, half-open toward the positive edge.
pub open spec fn spec_in_spawn_box(p: Vec2, area: GameplayArea) -> bool {
    let hx = (area.main_area.spec_size().0 - SPAWN_MARGIN) / 2;
    let hy = (area.main_area.spec_size().1 - SPAWN_MARGIN) / 2;
    -hx <= p.x < hx && -hy <= p.y < hy
}

/// What a creature spawned from a definition looks like: every field comes
/// from the definition, and a missing position has been resolved to some
/// point of the spawn box.
pub open spec fn spec_spawned_from(
    c: Creature,
    def: CreatureDefinition,
    area: GameplayArea,
) -> bool {
    &&& c.image == def.image
    &&& c.controller == (crate::movement::MovementController {
        intent: Vec2 { x: 0, y: 0 },
        intent_modifier: Vec2 { x: 1000, y: 1000 },
        max_speed: def.max_speed,
    })
    &&& c.pattern == def.movement.spec_build()
    &&& c.wrap == def.wrap
    &&& c.animation.timer == (Timer {
        duration_ms: def.shrink_duration_ms,
        elapsed_ms: 0,
        mode: TimerMode::Once,
        finished: false,
        just_finished: false,
    })
    &&& c.death is None
    &&& c.scale_milli == def.image.spec_default_scale()
    &&& c.atlas_index == 0
    &&& match def.pos {
        Some(p) => c.pos == p,
        None => spec_in_spawn_box(c.pos, area),
    }
    &&& c.wf()
}

/// Spawn the whole wave of a level: one creature per definition, fixed
/// positions kept, missing positions drawn uniformly from the spawn box.
/// A level the asset store has not delivered yet (`None`) is a recoverable
/// no-op and spawns nothing.
pub fn spawn_level(level: Option<&LevelDefinition>, area: &GameplayArea) -> (spawned: Option<
    Vec<Creature>,
>)
    requires
        area.wf(),
        match level {
            Some(l) => l.wf(),
            None => true,
        },
    ensures
        level is None <==> spawned is None,
        match (level, spawned) {
            (Some(l), Some(cs)) => {
                &&& cs@.len() == l.creatures@.len()
                &&& forall|i: int|
                    0 <= i < cs@.len() ==> spec_spawned_from(
                        #[trigger] cs@[i],
                        l.creatures@[i],
                        *area,
                    )
            },
            (None, None) => true,
            _ => false,
        },
{
    let l = match level {
        Some(l) => l,
        None => { return None; },
    };
    let size_x: i64 = area.main_area.max.x - area.main_area.min.x;
    let size_y: i64 = area.main_area.max.y - area.main_area.min.y;
    let hx: i64 = (((size_x - SPAWN_MARGIN) as u64) / 2) as i64;
    let hy: i64 = (((size_y - SPAWN_MARGIN) as u64) / 2) as i64;
    let mut cs: Vec<Creature> = Vec::new();
    let mut i: usize = 0;
    while i < l.creatures.len()
        invariant
            l.wf(),
            area.wf(),
            i <= l.creatures@.len(),
            cs@.len() == i,
            hx == (area.main_area.spec_size().0 - SPAWN_MARGIN) / 2,
            hy == (area.main_area.spec_size().1 - SPAWN_MARGIN) / 2,
            0 < hx <= 100_000_000,
            0 < hy <= 100_000_000,
            forall|k: int|
                0 <= k < i ==> spec_spawned_from(#[trigger] cs@[k], l.creatures@[k], *area),
        decreases l.creatures@.len() - i,
    {
        let def = &l.creatures[i];
        let pos: Vec2 = match def.pos {
            Some(p) => p,
            None => Vec2 { x: sample_range(-hx, hx), y: sample_range(-hy, hy) },
        };
        let c = spawn_creature(
            SpawnCreature {
                image: def.image,
                max_speed: def.max_speed,
                pos,
                movement: def.movement.build(),
                shrink_duration_ms: def.shrink_duration_ms,
                wrap: def.wrap,
            },
        );
        cs.push(c);
        i += 1;
    }
    Some(cs)
}

} // verus!
