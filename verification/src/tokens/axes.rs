//! Aesthetic axes — discrete-enum dimensions a site picks a point in
//! to compose a coherent system. Each axis is an enum, not a free value.

use vstd::prelude::*;

verus! {

/// Density of the visual rhythm — how much whitespace separates content blocks + how compact form fields stack.
#[derive(Debug, Clone, Copy, PartialEq, Eq, Hash, Structural)]
pub enum Density {
    /// Compact spacing, lower line-heights, tighter forms.
    Tight,
    /// Default — moderate whitespace, comfortable line-height.
    Airy,
    /// Generous whitespace, oversized padding, editorial rhythm.
    Spacious,
}

impl Default for Density {
    /// `Airy` — the centrist option of the reference style.
    fn default() -> (r: Self)
        ensures
            r == Density::Airy,
    {
        Density::Airy
    }
}

impl Density {
    /// Number of variants on this axis.
    pub open spec fn cardinality() -> nat {
        3
    }

    /// Position of a variant in declaration order.
    pub open spec fn index(self) -> nat {
        match self {
            Density::Tight => 0,
            Density::Airy => 1,
            Density::Spacious => 2,
        }
    }
}

/// Formality of the design voice — visual + typographic + motion register.
#[derive(Debug, Clone, Copy, PartialEq, Eq, Hash, Structural)]
pub enum Formality {
    /// Editorial — serif headlines, generous leading, magazine rhythm.
    Editorial,
    /// Technical — monospace accents, dense tables, precise data.
    Technical,
    /// Playful — rounded forms, bright accents, decorative motion.
    Playful,
    /// Brutalist — raw HTML aesthetic, system fonts, harsh contrasts.
    Brutalist,
}

impl Default for Formality {
    /// `Editorial` — the centrist option of the reference style.
    fn default() -> (r: Self)
        ensures
            r == Formality::Editorial,
    {
        Formality::Editorial
    }
}

impl Formality {
    /// Number of variants on this axis.
    pub open spec fn cardinality() -> nat {
        4
    }

    /// Position of a variant in declaration order.
    pub open spec fn index(self) -> nat {
        match self {
            Formality::Editorial => 0,
            Formality::Technical => 1,
            Formality::Playful => 2,
            Formality::Brutalist => 3,
        }
    }
}

/// Motion intensity — how much animation + transition the site uses.
#[derive(Debug, Clone, Copy, PartialEq, Eq, Hash, Structural)]
pub enum MotionIntensity {
    /// No motion — instant transitions, no scroll-linked effects.
    Still,
    /// Default — subtle fades / hover transitions / focus ring animations.
    Subtle,
    /// Expressive — scroll-linked reveals, magnetic hover.
    Expressive,
    /// Kinetic — auto-playing animations, parallax stacks, spring physics.
    Kinetic,
}

impl Default for MotionIntensity {
    /// `Subtle` — the centrist option of the reference style.
    fn default() -> (r: Self)
        ensures
            r == MotionIntensity::Subtle,
    {
        MotionIntensity::Subtle
    }
}

impl MotionIntensity {
    /// Number of variants on this axis.
    pub open spec fn cardinality() -> nat {
        4
    }

    /// Position of a variant in declaration order.
    pub open spec fn index(self) -> nat {
        match self {
            MotionIntensity::Still => 0,
            MotionIntensity::Subtle => 1,
            MotionIntensity::Expressive => 2,
            MotionIntensity::Kinetic => 3,
        }
    }
}

/// Texture of surfaces — flat vs layered visual depth.
#[derive(Debug, Clone, Copy, PartialEq, Eq, Hash, Structural)]
pub enum Texture {
    /// Flat — no shadows, no gradients, no grain.
    Flat,
    /// Layered — soft shadows + subtle z-axis.
    Layered,
    /// Grainy — film-grain overlays, halftone textures, paper noise.
    Grainy,
    /// Glassmorphic — frosted-glass blurs, translucent panels.
    Glassmorphic,
}

impl Default for Texture {
    /// `Flat` — the centrist option of the reference style.
    fn default() -> (r: Self)
        ensures
            r == Texture::Flat,
    {
        Texture::Flat
    }
}

impl Texture {
    /// Number of variants on this axis.
    pub open spec fn cardinality() -> nat {
        4
    }

    /// Position of a variant in declaration order.
    pub open spec fn index(self) -> nat {
        match self {
            Texture::Flat => 0,
            Texture::Layered => 1,
            Texture::Grainy => 2,
            Texture::Glassmorphic => 3,
        }
    }
}

/// Type personality — which family of typefaces the site reaches for.
#[derive(Debug, Clone, Copy, PartialEq, Eq, Hash, Structural)]
pub enum TypePersonality {
    /// Humanist — Inter, Source Sans, IBM Plex Sans.
    Humanist,
    /// Geometric — Futura, Avenir, Eurostile.
    Geometric,
    /// Mono — JetBrains Mono, IBM Plex Mono, Berkeley Mono.
    Mono,
    /// Display-serif — GT Sectra, Tiempos Headline.
    DisplaySerif,
    /// Condensed — Oswald, Bebas Neue, condensed cuts.
    Condensed,
}

impl Default for TypePersonality {
    /// `Humanist` — the centrist option of the reference style.
    fn default() -> (r: Self)
        ensures
            r == TypePersonality::Humanist,
    {
        TypePersonality::Humanist
    }
}

impl TypePersonality {
    /// Number of variants on this axis.
    pub open spec fn cardinality() -> nat {
        5
    }

    /// Position of a variant in declaration order.
    pub open spec fn index(self) -> nat {
        match self {
            TypePersonality::Humanist => 0,
            TypePersonality::Geometric => 1,
            TypePersonality::Mono => 2,
            TypePersonality::DisplaySerif => 3,
            TypePersonality::Condensed => 4,
        }
    }
}

/// Grid character — how strictly the layout adheres to a regular grid.
#[derive(Debug, Clone, Copy, PartialEq, Eq, Hash, Structural)]
pub enum GridCharacter {
    /// Regular — strict columns, predictable rhythm.
    Regular,
    /// Asymmetric — deliberate offsets, varied column counts.
    Asymmetric,
    /// Broken — intentional grid violations.
    Broken,
    /// Organic — flowing layouts, no underlying grid.
    Organic,
}

impl Default for GridCharacter {
    /// `Regular` — the centrist option of the reference style.
    fn default() -> (r: Self)
        ensures
            r == GridCharacter::Regular,
    {
        GridCharacter::Regular
    }
}

impl GridCharacter {
    /// Number of variants on this axis.
    pub open spec fn cardinality() -> nat {
        4
    }

    /// Position of a variant in declaration order.
    pub open spec fn index(self) -> nat {
        match self {
            GridCharacter::Regular => 0,
            GridCharacter::Asymmetric => 1,
            GridCharacter::Broken => 2,
            GridCharacter::Organic => 3,
        }
    }
}

/// Color mood — the palette-theory family the accent colors are drawn from.
#[derive(Debug, Clone, Copy, PartialEq, Eq, Hash, Structural)]
pub enum ColorMood {
    /// Monochromatic — tints/shades of one base.
    Monochromatic,
    /// Analogous — adjacent hues on the color wheel.
    Analogous,
    /// Complementary — base + opposite.
    Complementary,
    /// Triadic — three hues evenly spaced.
    Triadic,
    /// Split-complementary — base + two adjacent opposites.
    SplitComplementary,
    /// Duotone — two hues only.
    Duotone,
    /// Polychrome — full chromatic range.
    Polychrome,
}

impl Default for ColorMood {
    /// `Analogous` — the centrist option of the reference style.
    fn default() -> (r: Self)
        ensures
            r == ColorMood::Analogous,
    {
        ColorMood::Analogous
    }
}

impl ColorMood {
    /// Number of variants on this axis.
    pub open spec fn cardinality() -> nat {
        7
    }

    /// Position of a variant in declaration order.
    pub open spec fn index(self) -> nat {
        match self {
            ColorMood::Monochromatic => 0,
            ColorMood::Analogous => 1,
            ColorMood::Complementary => 2,
            ColorMood::Triadic => 3,
            ColorMood::SplitComplementary => 4,
            ColorMood::Duotone => 5,
            ColorMood::Polychrome => 6,
        }
    }
}

/// Color energy — how saturated + vibrant the palette is.
#[derive(Debug, Clone, Copy, PartialEq, Eq, Hash, Structural)]
pub enum ColorEnergy {
    /// Muted — desaturated, ink-like, editorial.
    Muted,
    /// Saturated — full chroma, vibrant.
    Saturated,
    /// Neon — glow effects.
    Neon,
    /// Pastel — high lightness + low chroma.
    Pastel,
}

impl Default for ColorEnergy {
    /// `Muted` — the centrist option of the reference style.
    fn default() -> (r: Self)
        ensures
            r == ColorEnergy::Muted,
    {
        ColorEnergy::Muted
    }
}

impl ColorEnergy {
    /// Number of variants on this axis.
    pub open spec fn cardinality() -> nat {
        4
    }

    /// Position of a variant in declaration order.
    pub open spec fn index(self) -> nat {
        match self {
            ColorEnergy::Muted => 0,
            ColorEnergy::Saturated => 1,
            ColorEnergy::Neon => 2,
            ColorEnergy::Pastel => 3,
        }
    }
}

/// The full aesthetic tuple — a coordinate in the 8-dimensional
/// design-axis space. Sites either pick this directly or pick a named
/// style pack which sets it.
#[derive(Debug, Clone, Copy, PartialEq, Eq, Hash, Structural)]
pub struct AestheticTuple {
    /// Whitespace + rhythm density.
    pub density: Density,
    /// Voice register.
    pub formality: Formality,
    /// How much motion the default reader sees.
    pub motion_intensity: MotionIntensity,
    /// Surface texture.
    pub texture: Texture,
    /// Typeface family register.
    pub type_personality: TypePersonality,
    /// Strictness of layout adherence to a regular grid.
    pub grid_character: GridCharacter,
    /// Color-theory family the palette is generated from.
    pub color_mood: ColorMood,
    /// Saturation + vibrance level of the palette.
    pub color_energy: ColorEnergy,
}

impl AestheticTuple {
    /// The platform's reference centrist tuple: Editorial / Airy / Subtle /
    /// Flat / Humanist / Regular / Analogous / Muted.
    pub open spec fn reference_spec() -> AestheticTuple {
        AestheticTuple {
            density: Density::Airy,
            formality: Formality::Editorial,
            motion_intensity: MotionIntensity::Subtle,
            texture: Texture::Flat,
            type_personality: TypePersonality::Humanist,
            grid_character: GridCharacter::Regular,
            color_mood: ColorMood::Analogous,
            color_energy: ColorEnergy::Muted,
        }
    }

    /// The reference tuple — what new sites get if they declare nothing.
    pub fn reference() -> (r: Self)
        ensures
            r == Self::reference_spec(),
    {
        AestheticTuple {
            density: Density::Airy,
            formality: Formality::Editorial,
            motion_intensity: MotionIntensity::Subtle,
            texture: Texture::Flat,
            type_personality: TypePersonality::Humanist,
            grid_character: GridCharacter::Regular,
            color_mood: ColorMood::Analogous,
            color_energy: ColorEnergy::Muted,
        }
    }

    /// Number of distinct tuples: the product of the axis cardinalities.
    pub open spec fn cardinality() -> nat {
        Density::cardinality() * Formality::cardinality() * MotionIntensity::cardinality() * Texture::cardinality() * TypePersonality::cardinality() * GridCharacter::cardinality() * ColorMood::cardinality() * ColorEnergy::cardinality()
    }
}

impl Default for AestheticTuple {
    /// Every axis at its own default.
    fn default() -> (r: Self)
        ensures
            r == AestheticTuple::reference_spec(),
    {
        AestheticTuple {
            density: Density::default(),
            formality: Formality::default(),
            motion_intensity: MotionIntensity::default(),
            texture: Texture::default(),
            type_personality: TypePersonality::default(),
            grid_character: GridCharacter::default(),
            color_mood: ColorMood::default(),
            color_energy: ColorEnergy::default(),
        }
    }
}

/// The tuple space holds 3 × 4 × 4 × 4 × 5 × 4 × 7 × 4 = 107,520 points.
pub proof fn tuple_cardinality()
    ensures
        AestheticTuple::cardinality() == 107_520,
{
}

} // verus!
