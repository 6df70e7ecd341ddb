use animal_arcade::bullet::Bullet;
use animal_arcade::creature::{CreatureDefinition, DeathAnimation};
use animal_arcade::creature_image::CreatureImage;
use animal_arcade::geom::{Rect, Vec2};
use animal_arcade::level::{spawn_level, DevGameplay, LevelDefinition, Levels, Screen};
use animal_arcade::movement::GameplayArea;
use animal_arcade::movement_pattern::MovementPatternDefinition;
use animal_arcade::session::Session;
use animal_arcade::timer::{Timer, TimerMode};

fn area_2000() -> GameplayArea {
    GameplayArea {
        main_area: Rect {
            min: Vec2 { x: -1_000_000, y: -1_000_000 },
            max: Vec2 { x: 1_000_000, y: 1_000_000 },
        },
    }
}

fn still_def(pos: Option<Vec2>) -> CreatureDefinition {
    CreatureDefinition {
        image: CreatureImage::Fox,
        max_speed: 0,
        pos,
        movement: MovementPatternDefinition::Constant { speed: Vec2 { x: 0, y: 0 } },
        shrink_duration_ms: 10_000,
        wrap: false,
    }
}

fn two_level_session() -> Session {
    let levels = Levels {
        game_levels: vec![
            LevelDefinition { creatures: vec![still_def(Some(Vec2 { x: 0, y: 0 }))] },
            LevelDefinition { creatures: vec![still_def(Some(Vec2 { x: 100_000, y: 0 }))] },
        ],
    };
    Session::new(levels, area_2000())
}

/// Mark a creature as long dead so the next lifecycle pass removes it.
fn finish_off(s: &mut Session, i: usize) {
    let mut t = Timer::new(1000, TimerMode::Once);
    t.tick(1000);
    s.creatures[i].death = Some(DeathAnimation { timer: t, x_rotation_ms: 80, y_rotation_ms: 80 });
}

#[test]
fn spawn_level_keeps_fixed_positions_and_boxes_random_ones() {
    let level = LevelDefinition {
        creatures: vec![still_def(Some(Vec2 { x: 7_000, y: -9_000 })), still_def(None)],
    };
    let spawned = spawn_level(Some(&level), &area_2000()).expect("level was present");
    assert_eq!(spawned.len(), 2);
    assert_eq!(spawned[0].pos, Vec2 { x: 7_000, y: -9_000 });
    // the random position falls in the play area shrunk by the margin:
    // within 872 units of the centre; a sampler echoing a bound back
    // would land outside
    let p = spawned[1].pos;
    assert!(-872_000 <= p.x && p.x < 872_000);
    assert!(-872_000 <= p.y && p.y < 872_000);
    assert!(spawned[1].death.is_none());
}

#[test]
fn spawn_level_without_a_loaded_level_is_a_no_op() {
    assert!(spawn_level(None, &area_2000()).is_none());
}

#[test]
fn first_tick_spawns_wave_one() {
    let mut s = two_level_session();
    let out = s.tick(16, None);
    assert!(out.wave_spawned);
    assert_eq!(out.next_screen, None);
    assert_eq!(s.wave_counter.wave, 1);
    assert_eq!(s.score.score, 1);
    assert_eq!(s.creatures.len(), 1);
    // the wave timer restarted on the spawn
    assert_eq!(s.wave_timer.0.elapsed_ms, 0);
}

#[test]
fn clearing_waves_spawns_the_next_and_then_wins() {
    let mut s = two_level_session();
    s.tick(16, None);
    // kill the only creature of wave one; the next tick removes the
    // corpse and spawns wave two with index and score two
    finish_off(&mut s, 0);
    let out = s.tick(16, None);
    assert!(out.wave_spawned);
    assert_eq!(s.wave_counter.wave, 2);
    assert_eq!(s.score.score, 2);
    assert_eq!(s.creatures.len(), 1);
    assert_eq!(s.creatures[0].pos, Vec2 { x: 100_000, y: 0 });
    // clear wave two: no third level exists, so the game is won
    finish_off(&mut s, 0);
    let out = s.tick(16, None);
    assert!(!out.wave_spawned);
    assert_eq!(out.next_screen, Some(Screen::Score));
    assert!(s.score.win);
    assert_eq!(s.score.score, 2);
}

#[test]
fn wave_timeout_with_a_survivor_loses() {
    let mut s = two_level_session();
    s.tick(16, None);
    assert_eq!(s.score.score, 1);
    // let the full 20 s wave duration elapse with the creature alive
    let out = s.tick(20_000, None);
    assert_eq!(out.next_screen, Some(Screen::Score));
    assert!(!s.score.win);
    assert_eq!(s.score.score, 1);
}

#[test]
fn cleared_wave_on_the_expiring_tick_still_counts_as_cleared() {
    let mut s = two_level_session();
    s.tick(16, None);
    finish_off(&mut s, 0);
    // the wave timer expires on the same tick that removes the corpse:
    // the clear check runs first, spawns wave two and resets the timer,
    // so the game is not lost
    let out = s.tick(20_000, None);
    assert!(out.wave_spawned);
    assert_eq!(out.next_screen, None);
    assert_eq!(s.wave_counter.wave, 2);
}

#[test]
fn click_throws_a_bullet_and_a_landing_kills() {
    let mut s = two_level_session();
    s.tick(16, None);
    assert_eq!(s.creatures.len(), 1);
    // click on the creature: a bullet spawns
    let out = s.tick(16, Some(Vec2 { x: 0, y: 0 }));
    assert_eq!(out.feedback, None);
    assert_eq!(s.bullets.len(), 1);
    // a second click is ignored while the bullet flies
    s.tick(16, Some(Vec2 { x: 0, y: 0 }));
    assert_eq!(s.bullets.len(), 1);
    // after the 300 ms flight the bullet lands; the creature stood still
    // under it, dies, and the batch reports one hit
    let mut feedback = None;
    for _ in 0..40 {
        let out = s.tick(16, None);
        if out.feedback.is_some() {
            feedback = out.feedback;
            break;
        }
    }
    assert_eq!(feedback, Some(true));
    assert!(s.creatures[0].death.is_some());
    assert_eq!(s.creatures[0].atlas_index, 1);
    assert!(s.bullets[0].falling);
}

#[test]
fn one_landing_kills_every_overlapping_creature_with_one_signal() {
    let mut s = two_level_session();
    // two overlapping creatures, plus one far away
    let a = animal_arcade::creature::spawn_creature(animal_arcade::creature::SpawnCreature {
        image: CreatureImage::Fox,
        max_speed: 0,
        pos: Vec2 { x: 0, y: 0 },
        movement: animal_arcade::movement_pattern::MovementPattern::Constant {
            speed: Vec2 { x: 0, y: 0 },
        },
        shrink_duration_ms: 10_000,
        wrap: false,
    });
    let mut b = a;
    b.pos = Vec2 { x: 20_000, y: 0 };
    let mut far = a;
    far.pos = Vec2 { x: 600_000, y: 0 };
    s.creatures.push(a);
    s.creatures.push(b);
    s.creatures.push(far);
    s.wave_counter.wave = 1;
    // a bullet one millisecond from landing right between the two
    let mut bullet = Bullet::new(Vec2 { x: 10_000, y: 0 });
    bullet.timer.tick(299);
    bullet.controller.max_speed = 0;
    s.bullets.push(bullet);
    let out = s.tick(1, None);
    assert_eq!(out.feedback, Some(true));
    assert!(s.creatures[0].death.is_some());
    assert!(s.creatures[1].death.is_some());
    assert!(s.creatures[2].death.is_none());
}

#[test]
fn landing_that_misses_reports_one_miss() {
    let mut s = two_level_session();
    s.wave_counter.wave = 1;
    let mut bullet = Bullet::new(Vec2 { x: 0, y: 0 });
    bullet.timer.tick(299);
    bullet.controller.max_speed = 0;
    s.bullets.push(bullet);
    let out = s.tick(1, None);
    assert_eq!(out.feedback, Some(false));
}

#[test]
fn too_many_creatures_end_the_session() {
    let mut s = two_level_session();
    s.dev_mode = animal_arcade::level::DevMode(true);
    for i in 0..101 {
        let mut c = animal_arcade::creature::spawn_creature(animal_arcade::creature::SpawnCreature {
            image: CreatureImage::Duck,
            max_speed: 0,
            pos: Vec2 { x: 0, y: 0 },
            movement: animal_arcade::movement_pattern::MovementPattern::Constant {
                speed: Vec2 { x: 0, y: 0 },
            },
            shrink_duration_ms: 10_000,
            wrap: true,
        });
        c.pos.x = i * 1000;
        s.creatures.push(c);
    }
    let out = s.tick(16, None);
    assert_eq!(out.next_screen, Some(Screen::Score));
}

#[test]
fn three_consecutive_dev_key_presses_open_the_dev_screen() {
    let mut d = DevGameplay::default();
    assert!(!d.dev_mode_portal(Some(true)));
    // a frame without keys keeps the run
    assert!(!d.dev_mode_portal(None));
    assert!(!d.dev_mode_portal(Some(true)));
    // another key breaks the run
    assert!(!d.dev_mode_portal(Some(false)));
    assert!(!d.dev_mode_portal(Some(true)));
    assert!(!d.dev_mode_portal(Some(true)));
    assert!(d.dev_mode_portal(Some(true)));
    assert_eq!(d.enter_dev_mode_counter, 0);
    d.reset_dev_portal();
    assert_eq!(d.enter_dev_mode_counter, 0);
}

#[test]
fn dev_mode_stands_the_scheduler_still() {
    let mut s = two_level_session();
    s.dev_mode = animal_arcade::level::DevMode(true);
    let out = s.tick(16, None);
    assert!(!out.wave_spawned);
    assert_eq!(s.wave_counter.wave, 0);
    assert_eq!(s.creatures.len(), 0);
    assert_eq!(out.next_screen, None);
}
