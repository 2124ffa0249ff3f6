//! Organism species tags and their visual metadata.
//!
//! A species tag is a fixed three-valued enum; everything else here is a
//! pure lookup keyed by it. Colour channels and sizes are fixed-point
//! thousandths, like every scalar in the crate: the channel value `1000`
//! stands for a fully saturated channel, the size `8000` for a radius of
//! eight world units.

use crate::vectors::Vec2Fx;
use crate::vectors::Vec3Fx;
use vstd::prelude::*;

verus! {

/// Species of organism in the ecosystem.
#[derive(Debug, Clone, Copy, PartialEq, Eq, Hash)]
pub enum OrganismType {
    /// Blue organisms (prey).
    Blue,
    /// Red organisms (predators).
    Red,
    /// Plant organisms (stationary food sources).
    Plant,
}

/// Visual properties for rendering an organism.
#[derive(Debug, Clone, Copy, PartialEq)]
pub struct SpriteStats {
    /// RGB colour channels, each in `[0, SCALE]` thousandths.
    pub color: (i64, i64, i64),
    /// Sprite size (radius for circular organisms), in thousandths.
    pub size: i64,
    /// Shape used when rendering.
    pub shape: SpriteShape,
    /// Optional texture path (for future sprite assets).
    pub texture_path: Option<&'static str>,
}

/// Shape used when rendering an organism.
#[derive(Debug, Clone, Copy, PartialEq, Eq)]
pub enum SpriteShape {
    Circle,
    Square,
    Triangle,
}

impl OrganismType {
    /// RGB colour of the species, in thousandths per channel.
    pub open spec fn spec_color(self) -> (i64, i64, i64) {
        match self {
            OrganismType::Blue => (200, 600, 1000),
            OrganismType::Red => (1000, 200, 200),
            OrganismType::Plant => (200, 800, 300),
        }
    }

    /// Sprite size of the species, in thousandths.
    pub open spec fn spec_size(self) -> i64 {
        match self {
            OrganismType::Blue => 8000,
            OrganismType::Red => 12000,
            OrganismType::Plant => 6000,
        }
    }

    /// Sprite shape of the species.
    pub open spec fn spec_shape(self) -> SpriteShape {
        match self {
            OrganismType::Blue => SpriteShape::Circle,
            OrganismType::Red => SpriteShape::Triangle,
            OrganismType::Plant => SpriteShape::Square,
        }
    }

    /// Long display name of the species.
    pub open spec fn spec_display_name(self) -> Seq<char> {
        match self {
            OrganismType::Blue => "Blue Organism"@,
            OrganismType::Red => "Red Organism"@,
            OrganismType::Plant => "Plant"@,
        }
    }

    /// Short name of the species.
    pub open spec fn spec_short_name(self) -> Seq<char> {
        match self {
            OrganismType::Blue => "Blue"@,
            OrganismType::Red => "Red"@,
            OrganismType::Plant => "Plant"@,
        }
    }

    /// All species, in the stable documented order: Blue, Red, Plant.
    pub fn all() -> (r: &'static [OrganismType])
        ensures
            r@ == seq![OrganismType::Blue, OrganismType::Red, OrganismType::Plant],
    {
        &[OrganismType::Blue, OrganismType::Red, OrganismType::Plant]
    }

    /// Display name for this species.
    pub fn display_name(&self) -> (r: &'static str)
        ensures
            r@ == self.spec_display_name(),
    {
        match self {
            OrganismType::Blue => "Blue Organism",
            OrganismType::Red => "Red Organism",
            OrganismType::Plant => "Plant",
        }
    }

    /// Short name for this species.
    pub fn short_name(&self) -> (r: &'static str)
        ensures
            r@ == self.spec_short_name(),
    {
        match self {
            OrganismType::Blue => "Blue",
            OrganismType::Red => "Red",
            OrganismType::Plant => "Plant",
        }
    }

    /// Visual properties for this species.
    pub fn sprite_stats(&self) -> (r: SpriteStats)
        ensures
            r.color == self.spec_color(),
            r.size == self.spec_size(),
            r.shape == self.spec_shape(),
            r.texture_path is None,
    {
        match self {
            OrganismType::Blue => SpriteStats {
                color: (200, 600, 1000),
                size: 8000,
                shape: SpriteShape::Circle,
                texture_path: None,
            },
            OrganismType::Red => SpriteStats {
                color: (1000, 200, 200),
                size: 12000,
                shape: SpriteShape::Triangle,
                texture_path: None,
            },
            OrganismType::Plant => SpriteStats {
                color: (200, 800, 300),
                size: 6000,
                shape: SpriteShape::Square,
                texture_path: None,
            },
        }
    }

    /// Just the colour for this species.
    pub fn color(&self) -> (r: (i64, i64, i64))
        ensures
            r == self.spec_color(),
    {
        self.sprite_stats().color
    }

    /// Just the size for this species.
    pub fn size(&self) -> (r: i64)
        ensures
            r == self.spec_size(),
    {
        self.sprite_stats().size
    }

    /// Just the shape for this species.
    pub fn shape(&self) -> (r: SpriteShape)
        ensures
            r == self.spec_shape(),
    {
        self.sprite_stats().shape
    }
}

impl SpriteStats {
    /// The colour channels as a 3-vector.
    pub fn color_vec3(&self) -> (r: Vec3Fx)
        ensures
            r.x == self.color.0,
            r.y == self.color.1,
            r.z == self.color.2,
    {
        Vec3Fx::new(self.color.0, self.color.1, self.color.2)
    }

    /// The size in both axes, for rectangular sprites.
    pub fn size_vec2(&self) -> (r: Vec2Fx)
        ensures
            r.x == self.size,
            r.y == self.size,
    {
        Vec2Fx::new(self.size, self.size)
    }

    /// Whether this sprite uses a texture.
    pub fn has_texture(&self) -> (r: bool)
        ensures
            r == (self.texture_path is Some),
    {
        self.texture_path.is_some()
    }
}

impl Default for OrganismType {
    /// The default species is Blue.
    fn default() -> (r: Self)
        ensures
            r == OrganismType::Blue,
    {
        OrganismType::Blue
    }
}

impl Default for SpriteShape {
    /// The default shape is a circle.
    fn default() -> (r: Self)
        ensures
            r == SpriteShape::Circle,
    {
        SpriteShape::Circle
    }
}

} // verus!
