//! The colors of a creature, all derived from a single hue.

use vstd::prelude::*;

use crate::random::random_in_range;
use crate::util::hsv_to_rgb;
use crate::util::spec_hsv_to_rgb;

verus! {

/// The largest hue random generation draws.
pub const COLOR_HUE_MAX: i64 = 350;

/// How far mutation may move the hue in either direction, in degrees.
pub const MUTATE_COLOR_HUE_DELTA: i64 = 10;

/// An RGB color with 8-bit channels.
#[derive(Debug, Clone, Copy, PartialEq, Eq, Structural)]
pub struct Rgb {
    pub r: u8,
    pub g: u8,
    pub b: u8,
}

/// The hue a mutation delta moves `h` to: shifted by `d` and wrapped
/// onto the color wheel.
pub open spec fn spec_wrap_hue(h: int, d: int) -> int {
    (h + d + 360) % 360
}

/// The color an HSV triple converts to.
pub open spec fn spec_rgb_from_hsv(h: int, s: int, v: int) -> Rgb {
    let c = spec_hsv_to_rgb(h, s, v);
    Rgb { r: c.0 as u8, g: c.1 as u8, b: c.2 as u8 }
}

/// Converts an HSV triple into an [Rgb] color.
fn rgb_from_hsv(h: u16, s: u8, v: u8) -> (c: Rgb)
    requires
        s <= 100,
        v <= 100,
    ensures
        c == spec_rgb_from_hsv(h as int, s as int, v as int),
{
    let (r, g, b) = hsv_to_rgb(h, s, v);
    Rgb { r, g, b }
}

/// Represents the colors of a creature: a hue plus the four colors derived
/// from it. The colors are never set independently of the hue.
#[derive(Debug, Clone, Copy, PartialEq, Eq, Structural)]
pub struct CreatureColors {
    hue: u16,
    node: Rgb,
    muscle_extended: Rgb,
    muscle_contracted: Rgb,
    score_text: Rgb,
}

impl CreatureColors {
    /// The hue the colors were generated off of.
    pub closed spec fn spec_hue(self) -> u16 {
        self.hue
    }

    /// The node color.
    pub closed spec fn spec_node(self) -> Rgb {
        self.node
    }

    /// The color of a fully extended muscle.
    pub closed spec fn spec_muscle_extended(self) -> Rgb {
        self.muscle_extended
    }

    /// The color of a fully contracted muscle.
    pub closed spec fn spec_muscle_contracted(self) -> Rgb {
        self.muscle_contracted
    }

    /// The score label color.
    pub closed spec fn spec_score_text(self) -> Rgb {
        self.score_text
    }

    /// The hue is a whole angle on the color wheel, and every color is
    /// exactly the one its role derives from that hue.
    pub open spec fn wf(self) -> bool {
        &&& self.spec_hue() < 360
        &&& self.spec_node() == spec_rgb_from_hsv(self.spec_hue() as int, 75, 100)
        &&& self.spec_muscle_extended() == spec_rgb_from_hsv(self.spec_hue() as int, 75, 75)
        &&& self.spec_muscle_contracted() == spec_rgb_from_hsv(self.spec_hue() as int, 75, 50)
        &&& self.spec_score_text() == spec_rgb_from_hsv(self.spec_hue() as int, 75, 95)
    }

    /// Creates a new random set of creature colors.
    pub fn new() -> (c: CreatureColors)
        ensures
            c.wf(),
            c.spec_hue() <= COLOR_HUE_MAX,
    {
        let hue = random_in_range(0, COLOR_HUE_MAX);
        Self::from_hue(hue as u16)
    }

    /// Creates a set of creature colors from a specific hue below 360.
    pub fn from_hue(hue: u16) -> (c: CreatureColors)
        requires
            hue < 360,
        ensures
            c.wf(),
            c.spec_hue() == hue,
    {
        CreatureColors {
            hue,
            node: rgb_from_hsv(hue, 75, 100),
            muscle_extended: rgb_from_hsv(hue, 75, 75),
            muscle_contracted: rgb_from_hsv(hue, 75, 50),
            score_text: rgb_from_hsv(hue, 75, 95),
        }
    }

    /// Creates a new [CreatureColors] that is a mutation of the one passed
    /// in: the hue moves by a small delta, wrapping modulo 360, and all
    /// four colors are derived anew.
    pub fn mutate(colors: &CreatureColors) -> (c: CreatureColors)
        requires
            colors.wf(),
        ensures
            c.wf(),
            exists|d: int|
                -MUTATE_COLOR_HUE_DELTA <= d <= MUTATE_COLOR_HUE_DELTA && c.spec_hue() as int
                    == #[trigger] spec_wrap_hue(colors.spec_hue() as int, d),
    {
        let d = random_in_range(-MUTATE_COLOR_HUE_DELTA, MUTATE_COLOR_HUE_DELTA);
        let shifted: i64 = colors.hue() as i64 + d + 360;
        let new_hue: u16 = (shifted % 360) as u16;
        let c = Self::from_hue(new_hue);
        proof {
            assert(-MUTATE_COLOR_HUE_DELTA <= d as int <= MUTATE_COLOR_HUE_DELTA
                && c.spec_hue() as int == spec_wrap_hue(colors.spec_hue() as int, d as int));
        }
        c
    }

    /// The hue the colors were generated off of.
    pub fn hue(&self) -> (h: u16)
        ensures
            h == self.spec_hue(),
    {
        self.hue
    }

    /// The color to be used for the creature's nodes.
    pub fn node(&self) -> (c: Rgb)
        ensures
            c == self.spec_node(),
    {
        self.node
    }

    /// The color to be used for the creature's muscles when extended.
    pub fn muscle_extended(&self) -> (c: Rgb)
        ensures
            c == self.spec_muscle_extended(),
    {
        self.muscle_extended
    }

    /// The color to be used for the creature's muscles when contracted.
    pub fn muscle_contracted(&self) -> (c: Rgb)
        ensures
            c == self.spec_muscle_contracted(),
    {
        self.muscle_contracted
    }

    /// The color to be used for the creature's score text.
    pub fn score_text(&self) -> (c: Rgb)
        ensures
            c == self.spec_score_text(),
    {
        self.score_text
    }
}

} // verus!
