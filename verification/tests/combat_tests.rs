use animal_arcade::bullet::{creatures_hit_by, Bullet};
use animal_arcade::creature::{
    default_shrink_duration, kill_creature, reaper, spawn_creature, Creature, DeathAnimation,
    SpawnCreature,
};
use animal_arcade::creature_image::CreatureImage;
use animal_arcade::geom::{Rect, Vec2};
use animal_arcade::movement::GameplayArea;
use animal_arcade::movement_pattern::MovementPattern;
use animal_arcade::timer::{Timer, TimerMode};

fn still_creature_at(pos: Vec2) -> Creature {
    spawn_creature(SpawnCreature {
        image: CreatureImage::Fox,
        max_speed: 400_000,
        pos,
        movement: MovementPattern::Constant { speed: Vec2 { x: 0, y: 0 } },
        shrink_duration_ms: default_shrink_duration(),
        wrap: false,
    })
}

#[test]
fn creature_images_have_their_sizes_and_atlas_layout() {
    assert!(matches!(CreatureImage::fox(), CreatureImage::Fox));
    let fox = CreatureImage::Fox;
    let duck = CreatureImage::Duck;
    assert_eq!(fox.size(), Vec2 { x: 256_000, y: 256_000 });
    assert_eq!(duck.size(), Vec2 { x: 32_000, y: 32_000 });
    // both species are displayed 128 units wide: 256 * 0.5 and 32 * 4
    assert_eq!(fox.default_scale(), 500);
    assert_eq!(duck.default_scale(), 4000);
    assert_eq!(fox.atlas_columns(), 2);
    assert_eq!(fox.atlas_rows(), 1);
    assert_eq!(duck.atlas_columns(), 6);
    assert_eq!(duck.atlas_rows(), 2);
}

#[test]
fn spawned_creature_starts_alive_at_default_scale() {
    let c = still_creature_at(Vec2 { x: 1_000, y: -2_000 });
    assert_eq!(c.pos, Vec2 { x: 1_000, y: -2_000 });
    assert!(c.death.is_none());
    assert_eq!(c.scale_milli, 500);
    assert_eq!(c.atlas_index, 0);
    assert_eq!(c.controller.max_speed, 400_000);
    assert_eq!(c.controller.intent_modifier, Vec2 { x: 1000, y: 1000 });
    assert_eq!(c.animation.timer.duration_ms, 10_000);
}

#[test]
fn kill_freezes_and_starts_death_with_random_spin_periods() {
    let mut c = still_creature_at(Vec2 { x: 0, y: 0 });
    kill_creature(&mut c);
    assert_eq!(c.controller.intent_modifier, Vec2 { x: 0, y: 0 });
    assert_eq!(c.atlas_index, 1);
    match c.death {
        Some(d) => {
            assert_eq!(d.timer.duration_ms, 1000);
            assert_eq!(d.timer.elapsed_ms, 0);
            // the spin periods come from the random sampler: they must lie
            // in [75, 400), not echo some fixed bound back
            assert!(75 <= d.x_rotation_ms && d.x_rotation_ms < 400);
            assert!(75 <= d.y_rotation_ms && d.y_rotation_ms < 400);
        }
        None => panic!("kill must start the death animation"),
    }
}

#[test]
fn hit_box_is_the_displayed_square() {
    let c = still_creature_at(Vec2 { x: 0, y: 0 });
    // 256 units at scale 0.5: the box spans 64 units from the centre
    let b = c.hit_box();
    assert_eq!(b.min, Vec2 { x: -64_000, y: -64_000 });
    assert_eq!(b.max, Vec2 { x: 64_000, y: 64_000 });
    assert!(b.contains(Vec2 { x: 64_000, y: 0 }));
    assert!(!b.contains(Vec2 { x: 64_001, y: 0 }));
}

#[test]
fn overlapping_creatures_both_die_to_one_landing() {
    let a = still_creature_at(Vec2 { x: 0, y: 0 });
    let b = still_creature_at(Vec2 { x: 30_000, y: 0 });
    let far = still_creature_at(Vec2 { x: 500_000, y: 0 });
    let mut dying = still_creature_at(Vec2 { x: 0, y: 0 });
    kill_creature(&mut dying);
    let creatures = vec![a, b, far, dying];
    let hits = vec![Vec2 { x: 10_000, y: 0 }];
    let kills = creatures_hit_by(&hits, &creatures);
    assert_eq!(kills, vec![true, true, false, false]);
}

#[test]
fn landing_point_misses_everyone() {
    let creatures = vec![still_creature_at(Vec2 { x: 0, y: 0 })];
    let hits = vec![Vec2 { x: 200_000, y: 200_000 }];
    let kills = creatures_hit_by(&hits, &creatures);
    assert_eq!(kills, vec![false]);
}

#[test]
fn reaper_eases_the_death_shrink() {
    let mut c = still_creature_at(Vec2 { x: 0, y: 0 });
    c.death = Some(DeathAnimation {
        timer: {
            let mut t = Timer::new(1000, TimerMode::Once);
            t.tick(500);
            t
        },
        x_rotation_ms: 100,
        y_rotation_ms: 250,
    });
    let step = reaper(&mut c, 100);
    assert!(!step.remove);
    // remaining fraction 0.5: ease 0.25; scale 0.5 * (0.25 + 0.25 * 0.75)
    assert_eq!(c.scale_milli, 218);
    // spin: 100 ms * 0.25 / period
    assert_eq!(step.rot_x_mturns, 250);
    assert_eq!(step.rot_y_mturns, 100);
}

#[test]
fn reaper_removes_when_the_death_timer_completes() {
    let mut c = still_creature_at(Vec2 { x: 0, y: 0 });
    let mut t = Timer::new(1000, TimerMode::Once);
    t.tick(1000);
    c.death = Some(DeathAnimation { timer: t, x_rotation_ms: 80, y_rotation_ms: 80 });
    let step = reaper(&mut c, 16);
    assert!(step.remove);
}

#[test]
fn reaper_leaves_alive_creatures_alone() {
    let mut c = still_creature_at(Vec2 { x: 0, y: 0 });
    let step = reaper(&mut c, 16);
    assert!(!step.remove);
    assert_eq!(step.rot_x_mturns, 0);
    assert_eq!(c.scale_milli, 500);
}

#[test]
fn flying_bullet_shrinks_and_follows_the_arc() {
    let mut b = Bullet::new(Vec2 { x: 0, y: 0 });
    assert_eq!(b.scale_milli, 1000);
    assert!(!b.falling);
    // fresh flight: upward intent of the parabola's start, 2 * 0.4
    animal_arcade::bullet::update_bullet_animation(&mut b);
    assert_eq!(b.controller.intent.y, 800);
    assert_eq!(b.scale_milli, 1000);
    // half way: level flight, three fifths of the size left
    b.tick(150);
    animal_arcade::bullet::update_bullet_animation(&mut b);
    assert_eq!(b.controller.intent.y, 0);
    assert_eq!(b.scale_milli, 700);
}

#[test]
fn falling_bullet_drops_and_despawns_below_the_area() {
    let area = GameplayArea {
        main_area: Rect {
            min: Vec2 { x: -1_000_000, y: -1_000_000 },
            max: Vec2 { x: 1_000_000, y: 1_000_000 },
        },
    };
    let mut b = Bullet::new(Vec2 { x: 0, y: 0 });
    b.falling = true;
    b.controller.intent.y = 3000;
    let remove = animal_arcade::bullet::process_bullet_falling(&mut b, &area, 100);
    assert!(!remove);
    // gravity: 0.02 per millisecond
    assert_eq!(b.controller.intent.y, 1000);
    b.pos.y = -1_000_001;
    let remove = animal_arcade::bullet::process_bullet_falling(&mut b, &area, 100);
    assert!(remove);
}
