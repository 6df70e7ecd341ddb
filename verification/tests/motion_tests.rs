use animal_arcade::geom::{Rect, Vec2};
use animal_arcade::movement::{
    apply_movement, apply_screen_bounce, apply_screen_wrap, GameplayArea, MovementController,
};
use animal_arcade::movement_pattern::{
    move_creatures, update_timer, MovementPattern, MovementPatternDefinition,
};
use animal_arcade::creature_image::CreatureImage;

fn area_2000() -> GameplayArea {
    GameplayArea {
        main_area: Rect {
            min: Vec2 { x: -1_000_000, y: -1_000_000 },
            max: Vec2 { x: 1_000_000, y: 1_000_000 },
        },
    }
}

#[test]
fn constant_pattern_keeps_intent_and_timer() {
    let def = MovementPatternDefinition::Constant { speed: Vec2 { x: 700, y: -300 } };
    let mut p = def.build();
    let before = p;
    update_timer(&mut p, 1234);
    assert_eq!(p, before);
    let mut ctrl: MovementController = Default::default();
    move_creatures(&mut ctrl, &p);
    assert_eq!(ctrl.intent, Vec2 { x: 700, y: -300 });
}

#[test]
fn periodic_pattern_peaks_at_half_fraction() {
    // max speed (3, 0): at fraction one half the intent is exactly (3, 0)
    let def = MovementPatternDefinition::Periodic {
        duration_ms: 1000,
        max_speed: Vec2 { x: 3000, y: 0 },
    };
    let mut p = def.build();
    let mut ctrl: MovementController = Default::default();

    // fraction 0: intent 0
    move_creatures(&mut ctrl, &p);
    assert_eq!(ctrl.intent, Vec2 { x: 0, y: 0 });

    update_timer(&mut p, 500);
    move_creatures(&mut ctrl, &p);
    assert_eq!(ctrl.intent, Vec2 { x: 3000, y: 0 });

    // a full period later the repeating timer has wrapped: intent 0 again
    update_timer(&mut p, 500);
    move_creatures(&mut ctrl, &p);
    assert_eq!(ctrl.intent, Vec2 { x: 0, y: 0 });
}

#[test]
fn circle_pattern_quarter_turn_points_left() {
    // radius 10: the orbit starts heading (0, 10); a quarter turn in, the
    // intent is exactly (-10, 0)
    let def = MovementPatternDefinition::Circle { duration_ms: 1000, radius: 10_000 };
    let mut p = def.build();
    let mut ctrl: MovementController = Default::default();

    move_creatures(&mut ctrl, &p);
    assert_eq!(ctrl.intent, Vec2 { x: 0, y: 10_000 });

    update_timer(&mut p, 250);
    move_creatures(&mut ctrl, &p);
    assert_eq!(ctrl.intent, Vec2 { x: -10_000, y: 0 });

    update_timer(&mut p, 250);
    move_creatures(&mut ctrl, &p);
    assert_eq!(ctrl.intent, Vec2 { x: 0, y: -10_000 });
}

#[test]
fn movement_integrates_speed_intent_and_modifier() {
    let ctrl = MovementController {
        intent: Vec2 { x: 1000, y: 0 },
        intent_modifier: Vec2 { x: -1000, y: 1000 },
        max_speed: 400_000,
    };
    // velocity x: 1 * -1 * 400 units/s; over 500 ms that is -200 units
    let moved = apply_movement(&ctrl, Vec2 { x: 0, y: 0 }, 500);
    assert_eq!(moved, Vec2 { x: -200_000, y: 0 });
}

#[test]
fn wrap_reenters_on_the_far_side() {
    // play area 2000 units wide; wrap size adds the 256-unit margin:
    // half extent is 1128 units
    let area = area_2000();
    let eps = 5_000;
    let pos = Vec2 { x: 1_128_000 + eps, y: 0 };
    let wrapped = apply_screen_wrap(pos, &area);
    assert_eq!(wrapped, Vec2 { x: -1_128_000 + eps, y: 0 });
}

#[test]
fn wrap_leaves_inner_positions_alone() {
    let area = area_2000();
    let pos = Vec2 { x: 900_000, y: -1_000_000 };
    assert_eq!(apply_screen_wrap(pos, &area), pos);
}

#[test]
fn bounce_reverses_outward_intent_at_the_edge() {
    // inner half extent: (2000 - 128) / 2 = 936 units
    let area = area_2000();
    let image = CreatureImage::Fox;
    let mut ctrl = MovementController {
        intent: Vec2 { x: 1000, y: 0 },
        intent_modifier: Vec2 { x: 1000, y: 1000 },
        max_speed: 400_000,
    };
    let pos = Vec2 { x: 940_000, y: 0 };
    apply_screen_bounce(&mut ctrl, pos, &image, &area);
    assert_eq!(ctrl.intent_modifier, Vec2 { x: -1000, y: 1000 });
    // the effective velocity now points back toward the centre
    let moved = apply_movement(&ctrl, pos, 100);
    assert!(moved.x < pos.x);
}

#[test]
fn bounce_leaves_inner_positions_alone() {
    let area = area_2000();
    let image = CreatureImage::Duck;
    let mut ctrl = MovementController {
        intent: Vec2 { x: 1000, y: 1000 },
        intent_modifier: Vec2 { x: 1000, y: 1000 },
        max_speed: 400_000,
    };
    let before = ctrl;
    apply_screen_bounce(&mut ctrl, Vec2 { x: 0, y: 0 }, &image, &area);
    assert_eq!(ctrl, before);
}

#[test]
fn bounce_points_inward_even_when_intent_is_inward_already() {
    // the modifier is sign-of-intent times opposite-sign-of-position: a
    // creature past the positive edge already heading back keeps heading
    // back (modifier +1), the documented compromise of the heuristic
    let area = area_2000();
    let image = CreatureImage::Fox;
    let mut ctrl = MovementController {
        intent: Vec2 { x: -1000, y: 0 },
        intent_modifier: Vec2 { x: -1000, y: 1000 },
        max_speed: 400_000,
    };
    apply_screen_bounce(&mut ctrl, Vec2 { x: 940_000, y: 0 }, &image, &area);
    assert_eq!(ctrl.intent_modifier.x, 1000);
}

#[test]
fn pattern_build_creates_repeating_timers() {
    let def = MovementPatternDefinition::Periodic {
        duration_ms: 2500,
        max_speed: Vec2 { x: 1000, y: 1000 },
    };
    match def.build() {
        MovementPattern::Periodic { timer, max_speed } => {
            assert_eq!(timer.duration_ms, 2500);
            assert_eq!(timer.elapsed_ms, 0);
            assert_eq!(max_speed, Vec2 { x: 1000, y: 1000 });
        }
        _ => panic!("built the wrong variant"),
    }
}
