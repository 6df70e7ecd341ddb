//! Movement control and boundary policies.
//!
//! A controller carries the direction an entity wants to move in (its
//! intent), a persistent per-axis intent modifier used by the bounce policy,
//! and a maximum speed. Velocity is the product of the three, and positions
//! advance by velocity times the elapsed seconds.
//!
//! Two mutually exclusive boundary policies keep an entity in the play area:
//! wrap moves the position back by whole play-area lengths (with a margin so
//! a sprite fully exits before reappearing), and bounce flips the intent
//! modifier of an axis whose position lies outside the inner play area. The
//! flip is a persistent multiplier, not a reflection: an intent that already
//! points back toward the centre is left pointing inward. That heuristic is
//! a deliberate design compromise, not true physics; wave designs may lean
//! on it, so it is kept as observable behaviour.

use vstd::prelude::*;
use crate::creature_image::CreatureImage;
use crate::creature_image::DISPLAYED_SIZE;
use crate::geom::Rect;
use crate::geom::Vec2;
use crate::num::MAX_COORD;
use crate::num::clamp_coord;
use crate::num::euclid_mod;
use crate::num::integrate_coord;
use crate::num::lemma_abs_mul_le;
use crate::num::lemma_tdiv_milli_scale_bound;
use crate::num::mul_milli;
use crate::num::signum_milli;
use crate::num::spec_signum_milli;
use crate::num::tdiv_milli;

verus! {

/// Extra width around the play area used by the wrap policy, in milli-units:
/// a sprite wraps only once it has fully left the visible area.
pub const WRAP_MARGIN: i64 = 256_000;

/// The rectangular play area the boundary policies work against.
#[derive(Clone, Copy, Debug, PartialEq, Eq, Structural)]
pub struct GameplayArea {
    pub main_area: Rect,
}

impl GameplayArea {
    /// A usable play area: well formed, larger than the wrap margin on both
    /// axes, and comfortably inside the stored coordinate range.
    pub open spec fn wf(self) -> bool {
        &&& self.main_area.wf()
        &&& -100_000_000 <= self.main_area.min.x
        &&& self.main_area.max.x <= 100_000_000
        &&& -100_000_000 <= self.main_area.min.y
        &&& self.main_area.max.y <= 100_000_000
        &&& self.main_area.spec_size().0 >= 257_000
        &&& self.main_area.spec_size().1 >= 257_000
    }
}

/// A milli-scaled factor produced by the bounce policy or by freezing a
/// killed creature: plus one, minus one or zero.
pub open spec fn is_unit_factor(v: int) -> bool {
    v == -1000 || v == 0 || v == 1000
}

#[derive(Clone, Copy, Debug, PartialEq, Eq, Structural)]
pub struct MovementController {
    /// The direction the entity wants to move in, milli-scaled.
    pub intent: Vec2,
    /// Persistent per-axis multiplier applied to the intent.
    pub intent_modifier: Vec2,
    /// Maximum speed in milli-units per second.
    pub max_speed: i64,
}

impl MovementController {
    pub open spec fn wf(self) -> bool {
        &&& self.intent.in_range()
        &&& is_unit_factor(self.intent_modifier.x as int)
        &&& is_unit_factor(self.intent_modifier.y as int)
        &&& -MAX_COORD <= self.max_speed <= MAX_COORD
    }

    /// Horizontal velocity in milli-units per second.
    pub open spec fn spec_velocity_x(self) -> int {
        tdiv_milli(tdiv_milli(self.intent.x * self.intent_modifier.x) * self.max_speed)
    }

    /// Vertical velocity in milli-units per second.
    pub open spec fn spec_velocity_y(self) -> int {
        tdiv_milli(tdiv_milli(self.intent.y * self.intent_modifier.y) * self.max_speed)
    }
}

impl Default for MovementController {
    /// No intent yet, an untouched modifier, and a default speed of 400
    /// units per second.
    fn default() -> (d: MovementController)
        ensures
            d == (MovementController {
                intent: Vec2 { x: 0, y: 0 },
                intent_modifier: Vec2 { x: 1000, y: 1000 },
                max_speed: 400_000,
            }),
            d.wf(),
    {
        MovementController {
            intent: Vec2 { x: 0, y: 0 },
            intent_modifier: Vec2 { x: 1000, y: 1000 },
            max_speed: 400_000,
        }
    }
}

/// Velocity is bounded by the product of the intent and speed bounds.
pub proof fn lemma_velocity_bounds(c: MovementController)
    requires
        c.wf(),
    ensures
        -1_000_000_000_000_000 <= c.spec_velocity_x() <= 1_000_000_000_000_000,
        -1_000_000_000_000_000 <= c.spec_velocity_y() <= 1_000_000_000_000_000,
{
    lemma_abs_mul_le(c.intent.x as int, c.intent_modifier.x as int, MAX_COORD as int, 1000);
    lemma_tdiv_milli_scale_bound(c.intent.x * c.intent_modifier.x, MAX_COORD as int);
    lemma_abs_mul_le(
        tdiv_milli(c.intent.x * c.intent_modifier.x),
        c.max_speed as int,
        MAX_COORD as int,
        MAX_COORD as int,
    );
    lemma_tdiv_milli_scale_bound(
        tdiv_milli(c.intent.x * c.intent_modifier.x) * c.max_speed,
        1_000_000_000_000_000,
    );
    lemma_abs_mul_le(c.intent.y as int, c.intent_modifier.y as int, MAX_COORD as int, 1000);
    lemma_tdiv_milli_scale_bound(c.intent.y * c.intent_modifier.y, MAX_COORD as int);
    lemma_abs_mul_le(
        tdiv_milli(c.intent.y * c.intent_modifier.y),
        c.max_speed as int,
        MAX_COORD as int,
        MAX_COORD as int,
    );
    lemma_tdiv_milli_scale_bound(
        tdiv_milli(c.intent.y * c.intent_modifier.y) * c.max_speed,
        1_000_000_000_000_000,
    );
}

/// Advance a position by the controller's velocity over `delta_ms`
/// milliseconds, saturating at the edge of the stored coordinate range.
pub fn apply_movement(controller: &MovementController, pos: Vec2, delta_ms: u64) -> (r: Vec2)
    requires
        controller.wf(),
        pos.in_range(),
        delta_ms <= 1_000_000,
    ensures
        r.x == clamp_coord(pos.x + tdiv_milli(controller.spec_velocity_x() * delta_ms)),
        r.y == clamp_coord(pos.y + tdiv_milli(controller.spec_velocity_y() * delta_ms)),
        r.in_range(),
{
    proof {
        lemma_velocity_bounds(*controller);
        lemma_abs_mul_le(c_product_x(*controller), controller.max_speed as int, MAX_COORD as int, MAX_COORD as int);
        lemma_abs_mul_le(c_product_y(*controller), controller.max_speed as int, MAX_COORD as int, MAX_COORD as int);
        lemma_abs_mul_le(controller.intent.x as int, controller.intent_modifier.x as int, MAX_COORD as int, 1000);
        lemma_tdiv_milli_scale_bound(controller.intent.x * controller.intent_modifier.x, MAX_COORD as int);
        lemma_abs_mul_le(controller.intent.y as int, controller.intent_modifier.y as int, MAX_COORD as int, 1000);
        lemma_tdiv_milli_scale_bound(controller.intent.y * controller.intent_modifier.y, MAX_COORD as int);
    }
    let v1x: i64 = mul_milli(controller.intent.x, controller.intent_modifier.x);
    let vx: i64 = mul_milli(v1x, controller.max_speed);
    let v1y: i64 = mul_milli(controller.intent.y, controller.intent_modifier.y);
    let vy: i64 = mul_milli(v1y, controller.max_speed);
    Vec2 {
        x: integrate_coord(pos.x, vx, delta_ms),
        y: integrate_coord(pos.y, vy, delta_ms),
    }
}

/// The intent scaled by the modifier, before the speed factor.
pub open spec fn c_product_x(c: MovementController) -> int {
    tdiv_milli(c.intent.x * c.intent_modifier.x)
}

/// The intent scaled by the modifier, before the speed factor.
pub open spec fn c_product_y(c: MovementController) -> int {
    tdiv_milli(c.intent.y * c.intent_modifier.y)
}

/// One coordinate wrapped into `[-size/2, size - size/2)` by whole multiples
/// of `size`.
pub open spec fn spec_wrap_coord(p: int, size: int) -> int {
    (p + size / 2) % size - size / 2
}

/// Wrap a position into the play area extended by the wrap margin.
pub fn apply_screen_wrap(pos: Vec2, area: &GameplayArea) -> (r: Vec2)
    requires
        area.wf(),
        pos.in_range(),
    ensures
        r.x == spec_wrap_coord(pos.x as int, area.main_area.spec_size().0 + WRAP_MARGIN),
        r.y == spec_wrap_coord(pos.y as int, area.main_area.spec_size().1 + WRAP_MARGIN),
        r.in_range(),
{
    let size_x: i64 = (area.main_area.max.x - area.main_area.min.x) + WRAP_MARGIN;
    let size_y: i64 = (area.main_area.max.y - area.main_area.min.y) + WRAP_MARGIN;
    let half_x: i64 = ((size_x as u64) / 2) as i64;
    let half_y: i64 = ((size_y as u64) / 2) as i64;
    let ex: i64 = euclid_mod(pos.x + half_x, size_x);
    let ey: i64 = euclid_mod(pos.y + half_y, size_y);
    Vec2 { x: ex - half_x, y: ey - half_y }
}

/// Wrap law: a point just past the positive edge re-enters at the negative
/// edge, shifted by the same overshoot, for every positive half extent.
pub proof fn lemma_wrap_reenters(half: int, eps: int)
    requires
        0 < half,
        0 < eps < 2 * half,
    ensures
        spec_wrap_coord(half + eps, 2 * half) == -half + eps,
{
    let m = 2 * half;
    vstd::arithmetic::div_mod::lemma_div_multiples_vanish(half, 2);
    assert(m / 2 == half);
    vstd::arithmetic::div_mod::lemma_mod_multiples_vanish(1, eps, m);
    vstd::arithmetic::div_mod::lemma_small_mod(eps as nat, m as nat);
    assert((half + eps + m / 2) % m == eps);
}

/// Half extent of the inner play area on the horizontal axis: the play area
/// shrunk by the entity's scaled sprite size.
pub open spec fn spec_bounce_half_x(area: GameplayArea, image: CreatureImage) -> int {
    (area.main_area.spec_size().0 - tdiv_milli(
        image.spec_size().0 * image.spec_default_scale(),
    )) / 2
}

/// Half extent of the inner play area on the vertical axis.
pub open spec fn spec_bounce_half_y(area: GameplayArea, image: CreatureImage) -> int {
    (area.main_area.spec_size().1 - tdiv_milli(
        image.spec_size().1 * image.spec_default_scale(),
    )) / 2
}

/// The modifier an out-of-bounds axis is flipped to: the sign of the intent
/// times the opposite of the sign of the position.
pub open spec fn spec_bounce_modifier(intent: int, pos: int) -> int {
    tdiv_milli(spec_signum_milli(intent) * -spec_signum_milli(pos))
}

/// Bounce law: an entity past the positive edge whose intent still points
/// outward has its modifier flipped to minus one, reversing the effective
/// direction on that axis.
pub proof fn lemma_bounce_turns_back(intent: int, pos: int, half: int)
    requires
        pos > half >= 0,
        intent > 0,
    ensures
        spec_bounce_modifier(intent, pos) == -1000,
{
    assert(spec_signum_milli(intent) == 1000);
    assert(spec_signum_milli(pos) == 1000);
}

/// The flipped modifier of an out-of-bounds axis is again a unit factor.
pub proof fn lemma_bounce_modifier_unit(intent: int, pos: int)
    ensures
        is_unit_factor(spec_bounce_modifier(intent, pos)),
{
    vstd::arithmetic::div_mod::lemma_div_multiples_vanish(1000, 1000);
    assert(1000int * 1000 == 1_000_000);
    let s = spec_signum_milli(intent);
    let t = spec_signum_milli(pos);
    assert(s == -1000 || s == 1000);
    assert(t == -1000 || t == 1000);
    if s == t {
        assert(s * -t == -1_000_000);
        assert(tdiv_milli(-1_000_000) == -1000);
    } else {
        assert(s * -t == 1_000_000);
        assert(tdiv_milli(1_000_000) == 1000);
    }
}

/// Apply the bounce policy: flip the intent modifier of each axis whose
/// position lies outside the inner play area so that the effective motion
/// points back toward the centre; leave the other axis untouched.
pub fn apply_screen_bounce(
    controller: &mut MovementController,
    pos: Vec2,
    image: &CreatureImage,
    area: &GameplayArea,
)
    requires
        old(controller).wf(),
        pos.in_range(),
        area.wf(),
    ensures
        final(controller).intent == old(controller).intent,
        final(controller).max_speed == old(controller).max_speed,
        final(controller).intent_modifier.x == (if !(-spec_bounce_half_x(*area, *image)
            <= pos.x <= spec_bounce_half_x(*area, *image)) {
            spec_bounce_modifier(old(controller).intent.x as int, pos.x as int)
        } else {
            old(controller).intent_modifier.x as int
        }),
        final(controller).intent_modifier.y == (if !(-spec_bounce_half_y(*area, *image)
            <= pos.y <= spec_bounce_half_y(*area, *image)) {
            spec_bounce_modifier(old(controller).intent.y as int, pos.y as int)
        } else {
            old(controller).intent_modifier.y as int
        }),
        final(controller).wf(),
{
    let img_size: Vec2 = image.size();
    let img_scale: i64 = image.default_scale();
    proof {
        crate::creature_image::lemma_scaled_dim_is_displayed(*image);
        lemma_abs_mul_le(img_size.x as int, img_scale as int, 256_000, 4000);
        lemma_abs_mul_le(img_size.y as int, img_scale as int, 256_000, 4000);
    }
    let scaled_x: i64 = mul_milli(img_size.x, img_scale);
    let scaled_y: i64 = mul_milli(img_size.y, img_scale);
    let size_x: i64 = (area.main_area.max.x - area.main_area.min.x) - scaled_x;
    let size_y: i64 = (area.main_area.max.y - area.main_area.min.y) - scaled_y;
    let half_x: i64 = ((size_x as u64) / 2) as i64;
    let half_y: i64 = ((size_y as u64) / 2) as i64;
    if pos.x > half_x || pos.x < -half_x {
        let s: i64 = signum_milli(controller.intent.x);
        let t: i64 = signum_milli(pos.x);
        proof {
            lemma_abs_mul_le(s as int, -t as int, 1000, 1000);
            lemma_bounce_modifier_unit(controller.intent.x as int, pos.x as int);
        }
        controller.intent_modifier.x = mul_milli(s, -t);
    }
    if pos.y > half_y || pos.y < -half_y {
        let s: i64 = signum_milli(controller.intent.y);
        let t: i64 = signum_milli(pos.y);
        proof {
            lemma_abs_mul_le(s as int, -t as int, 1000, 1000);
            lemma_bounce_modifier_unit(controller.intent.y as int, pos.y as int);
        }
        controller.intent_modifier.y = mul_milli(s, -t);
    }
}

} // verus!
