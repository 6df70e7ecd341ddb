//! Core simulation for a small 2D arcade game: creatures move across a
//! rectangular play area under configurable motion patterns, spawn in timed
//! waves from data-defined levels, are hit by short-lived attack events, and
//! award score until a win or loss condition ends the session.
//!
//! All quantities are fixed-point integers: durations in milliseconds,
//! coordinates and speeds in thousandths of a world unit. The host shell is
//! responsible for rendering, audio and input; it drives [`session::Session`]
//! once per frame and reads the outcome back.

use vstd::prelude::*;

pub mod bullet;
pub mod creature;
pub mod creature_image;
pub mod geom;
pub mod level;
pub mod movement;
pub mod movement_pattern;
pub mod num;
mod rng;
pub mod session;
pub mod timer;
pub mod trig;

verus! {

} // verus!
