//! Species identity of a creature: source image size, display scale and
//! texture-atlas layout. Sizes are in milli-units; every species is displayed
//! at the same 128-unit square, so its hit box does not depend on the size of
//! the source image.

use vstd::prelude::*;
use crate::geom::Vec2;
use crate::num::tdiv_milli;

verus! {

/// The size every species is displayed at, in milli-units.
pub const DISPLAYED_SIZE: i64 = 128_000;

#[derive(Clone, Copy, Debug, PartialEq, Eq, Structural)]
pub enum CreatureImage {
    Fox,
    Snake,
    Mouse,
    Duck,
}

impl CreatureImage {
    /// The default species.
    pub fn fox() -> (r: CreatureImage)
        ensures
            r == CreatureImage::Fox,
    {
        CreatureImage::Fox
    }

    /// Width and height of the source image, in milli-units.
    pub open spec fn spec_size(self) -> (int, int) {
        match self {
            CreatureImage::Fox => (256_000, 256_000),
            CreatureImage::Snake => (256_000, 256_000),
            CreatureImage::Mouse => (256_000, 256_000),
            CreatureImage::Duck => (32_000, 32_000),
        }
    }

    /// See [`CreatureImage::spec_size`].
    pub fn size(&self) -> (s: Vec2)
        ensures
            (s.x as int, s.y as int) == self.spec_size(),
            0 < s.x <= 256_000,
            0 < s.y <= 256_000,
    {
        match self {
            CreatureImage::Fox => Vec2 { x: 256_000, y: 256_000 },
            CreatureImage::Snake => Vec2 { x: 256_000, y: 256_000 },
            CreatureImage::Mouse => Vec2 { x: 256_000, y: 256_000 },
            CreatureImage::Duck => Vec2 { x: 32_000, y: 32_000 },
        }
    }

    /// Milli-scaled factor that brings the larger source dimension to the
    /// displayed size.
    pub open spec fn spec_default_scale(self) -> int {
        128_000_000int / (if self.spec_size().0 >= self.spec_size().1 {
            self.spec_size().0
        } else {
            self.spec_size().1
        })
    }

    /// See [`CreatureImage::spec_default_scale`].
    pub fn default_scale(&self) -> (r: i64)
        ensures
            r == self.spec_default_scale(),
            0 < r <= 4000,
    {
        proof {
            vstd::arithmetic::div_mod::lemma_div_multiples_vanish(500, 256_000);
            vstd::arithmetic::div_mod::lemma_div_multiples_vanish(4000, 32_000);
            assert(256_000int * 500 == 128_000_000);
            assert(32_000int * 4000 == 128_000_000);
        }
        match self {
            CreatureImage::Fox => 500,
            CreatureImage::Snake => 500,
            CreatureImage::Mouse => 500,
            CreatureImage::Duck => 4000,
        }
    }

    /// Columns of the sprite atlas; the second column holds the shot pose.
    pub fn atlas_columns(&self) -> (r: u32)
        ensures
            r == (match *self {
                CreatureImage::Duck => 6u32,
                _ => 2u32,
            }),
    {
        match self {
            CreatureImage::Fox => 2,
            CreatureImage::Snake => 2,
            CreatureImage::Mouse => 2,
            CreatureImage::Duck => 6,
        }
    }

    /// Rows of the sprite atlas.
    pub fn atlas_rows(&self) -> (r: u32)
        ensures
            r == (match *self {
                CreatureImage::Duck => 2u32,
                _ => 1u32,
            }),
    {
        match self {
            CreatureImage::Fox => 1,
            CreatureImage::Snake => 1,
            CreatureImage::Mouse => 1,
            CreatureImage::Duck => 2,
        }
    }
}

/// At the default scale every species is displayed as the same square, so
/// its scaled sprite dimension is the displayed size on both axes.
pub proof fn lemma_scaled_dim_is_displayed(image: CreatureImage)
    ensures
        tdiv_milli(image.spec_size().0 * image.spec_default_scale()) == DISPLAYED_SIZE,
        tdiv_milli(image.spec_size().1 * image.spec_default_scale()) == DISPLAYED_SIZE,
{
    vstd::arithmetic::div_mod::lemma_div_multiples_vanish(500, 256_000);
    vstd::arithmetic::div_mod::lemma_div_multiples_vanish(4000, 32_000);
    vstd::arithmetic::div_mod::lemma_div_multiples_vanish(128_000, 1000);
    assert(256_000int * 500 == 128_000_000);
    assert(32_000int * 4000 == 128_000_000);
    assert(1000int * 128_000 == 128_000_000);
    match image {
        CreatureImage::Fox => {
            assert(image.spec_default_scale() == 500);
        },
        CreatureImage::Snake => {
            assert(image.spec_default_scale() == 500);
        },
        CreatureImage::Mouse => {
            assert(image.spec_default_scale() == 500);
        },
        CreatureImage::Duck => {
            assert(image.spec_default_scale() == 4000);
        },
    }
}

} // verus!
