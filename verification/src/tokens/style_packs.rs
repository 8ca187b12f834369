//! Style packs — named bundles of `AestheticTuple` values. Sites declare
//! one pack instead of declaring eight individual axes.

use vstd::prelude::*;
use super::axes::{
    AestheticTuple, ColorEnergy, ColorMood, Density, Formality, GridCharacter, MotionIntensity,
    Texture, TypePersonality,
};

verus! {

/// A named, curated bundle of aesthetic-axis values.
#[derive(Debug, Clone, Copy, PartialEq, Eq, Hash, Structural)]
pub enum StylePack {
    /// Swiss editorial — Müller-Brockmann / Vignelli /
    /// magazine-grid tradition. Asymmetric within a strict
    /// baseline grid; two type sizes; flat surfaces; generous
    /// whitespace; no shadows.
    SwissEditorial,
    /// 90s zine — Riot Grrrl / post-punk editorial. Broken
    /// grids, mixed scripts, polychrome saturation, deliberate
    /// kinetic energy.
    NinetiesZine,
    /// Y2K chrome — iMac-G3 / Matrix-poster aesthetic.
    /// Glassmorphic surfaces, neon saturation, geometric type,
    /// technical voice.
    Y2kChrome,
    /// Bauhaus poster — foundational modernism. Geometric type,
    /// primary triadic palette, strict regular grid, layered
    /// surfaces.
    BauhausPoster,
    /// Brutalist — system fonts, harsh contrast, broken grids,
    /// raw HTML aesthetic. Post-digital editorial, designer
    /// portfolios.
    Brutalist,
    /// Memphis revival — 80s-Memphis-Group continuation.
    /// Playful formality, triadic mood, pastel energy,
    /// asymmetric-organic grid.
    MemphisRevival,
    /// Japanese minimal — wabi-sabi register. Display-serif
    /// type, monochromatic palette, spacious density, regular
    /// grid.
    JapaneseMinimal,
    /// Dieter Rams — Braun-industrial-design tradition. Flat
    /// surfaces, muted color, humanist type, technical
    /// formality, airy density.
    DieterRams,
    /// Newspaper editorial — broadsheet / The New Yorker
    /// register. Display-serif type, columnar dense layout,
    /// monochromatic palette, regular grid, still motion.
    NewspaperEditorial,
    /// Cyberpunk neon — dark base + neon accents + glitch
    /// register. Mono type, polychrome, kinetic motion,
    /// glassmorphic texture, asymmetric grid.
    CyberpunkNeon,
    /// Pastel soft — Notion / Linear register. Rounded
    /// surfaces, pastel triadic palette, humanist type,
    /// subtle motion, airy density.
    PastelSoft,
    /// Technical documentation — operations / engineering
    /// register. Mono headings, technical formality, tight
    /// regular grids, monochromatic muted palette, still
    /// motion.
    TechnicalDocumentation,
}

impl StylePack {
    /// All shipped packs in declaration order.
    pub const ALL: [StylePack; 12] = [
        StylePack::SwissEditorial,
        StylePack::NinetiesZine,
        StylePack::Y2kChrome,
        StylePack::BauhausPoster,
        StylePack::Brutalist,
        StylePack::MemphisRevival,
        StylePack::JapaneseMinimal,
        StylePack::DieterRams,
        StylePack::NewspaperEditorial,
        StylePack::CyberpunkNeon,
        StylePack::PastelSoft,
        StylePack::TechnicalDocumentation,
    ];

    /// Every pack, in declaration order.
    pub open spec fn all_spec() -> Seq<StylePack> {
        seq![
            StylePack::SwissEditorial,
            StylePack::NinetiesZine,
            StylePack::Y2kChrome,
            StylePack::BauhausPoster,
            StylePack::Brutalist,
            StylePack::MemphisRevival,
            StylePack::JapaneseMinimal,
            StylePack::DieterRams,
            StylePack::NewspaperEditorial,
            StylePack::CyberpunkNeon,
            StylePack::PastelSoft,
            StylePack::TechnicalDocumentation,
        ]
    }

    /// Kebab-case identifier of a pack.
    pub open spec fn slug_spec(self) -> Seq<char> {
        match self {
            StylePack::SwissEditorial => "swiss-editorial"@,
            StylePack::NinetiesZine => "nineties-zine"@,
            StylePack::Y2kChrome => "y2k-chrome"@,
            StylePack::BauhausPoster => "bauhaus-poster"@,
            StylePack::Brutalist => "brutalist"@,
            StylePack::MemphisRevival => "memphis-revival"@,
            StylePack::JapaneseMinimal => "japanese-minimal"@,
            StylePack::DieterRams => "dieter-rams"@,
            StylePack::NewspaperEditorial => "newspaper-editorial"@,
            StylePack::CyberpunkNeon => "cyberpunk-neon"@,
            StylePack::PastelSoft => "pastel-soft"@,
            StylePack::TechnicalDocumentation => "technical-documentation"@,
        }
    }

    /// Human-readable label of a pack.
    pub open spec fn label_spec(self) -> Seq<char> {
        match self {
            StylePack::SwissEditorial => "Swiss editorial"@,
            StylePack::NinetiesZine => "90s zine"@,
            StylePack::Y2kChrome => "Y2K chrome"@,
            StylePack::BauhausPoster => "Bauhaus poster"@,
            StylePack::Brutalist => "Brutalist"@,
            StylePack::MemphisRevival => "Memphis revival"@,
            StylePack::JapaneseMinimal => "Japanese minimal"@,
            StylePack::DieterRams => "Dieter Rams"@,
            StylePack::NewspaperEditorial => "Newspaper editorial"@,
            StylePack::CyberpunkNeon => "Cyberpunk neon"@,
            StylePack::PastelSoft => "Pastel soft"@,
            StylePack::TechnicalDocumentation => "Technical documentation"@,
        }
    }

    /// The 8-axis aesthetic tuple a pack sets.
    pub open spec fn aesthetic_spec(self) -> AestheticTuple {
        match self {
            StylePack::SwissEditorial => AestheticTuple {
                density: Density::Spacious,
                formality: Formality::Editorial,
                motion_intensity: MotionIntensity::Subtle,
                texture: Texture::Flat,
                type_personality: TypePersonality::Humanist,
                grid_character: GridCharacter::Asymmetric,
                color_mood: ColorMood::Monochromatic,
                color_energy: ColorEnergy::Muted,
            },
            StylePack::NinetiesZine => AestheticTuple {
                density: Density::Tight,
                formality: Formality::Brutalist,
                motion_intensity: MotionIntensity::Kinetic,
                texture: Texture::Grainy,
                type_personality: TypePersonality::Condensed,
                grid_character: GridCharacter::Broken,
                color_mood: ColorMood::Polychrome,
                color_energy: ColorEnergy::Saturated,
            },
            StylePack::Y2kChrome => AestheticTuple {
                density: Density::Airy,
                formality: Formality::Technical,
                motion_intensity: MotionIntensity::Expressive,
                texture: Texture::Glassmorphic,
                type_personality: TypePersonality::Geometric,
                grid_character: GridCharacter::Regular,
                color_mood: ColorMood::Complementary,
                color_energy: ColorEnergy::Neon,
            },
            StylePack::BauhausPoster => AestheticTuple {
                density: Density::Spacious,
                formality: Formality::Editorial,
                motion_intensity: MotionIntensity::Still,
                texture: Texture::Layered,
                type_personality: TypePersonality::Geometric,
                grid_character: GridCharacter::Regular,
                color_mood: ColorMood::Triadic,
                color_energy: ColorEnergy::Saturated,
            },
            StylePack::Brutalist => AestheticTuple {
                density: Density::Tight,
                formality: Formality::Brutalist,
                motion_intensity: MotionIntensity::Still,
                texture: Texture::Flat,
                type_personality: TypePersonality::Mono,
                grid_character: GridCharacter::Broken,
                color_mood: ColorMood::Duotone,
                color_energy: ColorEnergy::Muted,
            },
            StylePack::MemphisRevival => AestheticTuple {
                density: Density::Airy,
                formality: Formality::Playful,
                motion_intensity: MotionIntensity::Expressive,
                texture: Texture::Layered,
                type_personality: TypePersonality::Geometric,
                grid_character: GridCharacter::Asymmetric,
                color_mood: ColorMood::Triadic,
                color_energy: ColorEnergy::Pastel,
            },
            StylePack::JapaneseMinimal => AestheticTuple {
                density: Density::Spacious,
                formality: Formality::Editorial,
                motion_intensity: MotionIntensity::Subtle,
                texture: Texture::Flat,
                type_personality: TypePersonality::DisplaySerif,
                grid_character: GridCharacter::Regular,
                color_mood: ColorMood::Monochromatic,
                color_energy: ColorEnergy::Muted,
            },
            StylePack::DieterRams => AestheticTuple {
                density: Density::Airy,
                formality: Formality::Technical,
                motion_intensity: MotionIntensity::Subtle,
                texture: Texture::Flat,
                type_personality: TypePersonality::Humanist,
                grid_character: GridCharacter::Regular,
                color_mood: ColorMood::Monochromatic,
                color_energy: ColorEnergy::Muted,
            },
            StylePack::NewspaperEditorial => AestheticTuple {
                density: Density::Tight,
                formality: Formality::Editorial,
                motion_intensity: MotionIntensity::Still,
                texture: Texture::Flat,
                type_personality: TypePersonality::DisplaySerif,
                grid_character: GridCharacter::Regular,
                color_mood: ColorMood::Monochromatic,
                color_energy: ColorEnergy::Muted,
            },
            StylePack::CyberpunkNeon => AestheticTuple {
                density: Density::Tight,
                formality: Formality::Technical,
                motion_intensity: MotionIntensity::Kinetic,
                texture: Texture::Glassmorphic,
                type_personality: TypePersonality::Mono,
                grid_character: GridCharacter::Asymmetric,
                color_mood: ColorMood::Polychrome,
                color_energy: ColorEnergy::Neon,
            },
            StylePack::PastelSoft => AestheticTuple {
                density: Density::Airy,
                formality: Formality::Playful,
                motion_intensity: MotionIntensity::Subtle,
                texture: Texture::Layered,
                type_personality: TypePersonality::Humanist,
                grid_character: GridCharacter::Regular,
                color_mood: ColorMood::Triadic,
                color_energy: ColorEnergy::Pastel,
            },
            StylePack::TechnicalDocumentation => AestheticTuple {
                density: Density::Tight,
                formality: Formality::Technical,
                motion_intensity: MotionIntensity::Still,
                texture: Texture::Flat,
                type_personality: TypePersonality::Mono,
                grid_character: GridCharacter::Regular,
                color_mood: ColorMood::Monochromatic,
                color_energy: ColorEnergy::Muted,
            },
        }
    }

    /// All shipped packs in declaration order.
    pub fn all() -> (r: Vec<StylePack>)
        ensures
            r@ == Self::all_spec(),
    {
        vec![
            StylePack::SwissEditorial,
            StylePack::NinetiesZine,
            StylePack::Y2kChrome,
            StylePack::BauhausPoster,
            StylePack::Brutalist,
            StylePack::MemphisRevival,
            StylePack::JapaneseMinimal,
            StylePack::DieterRams,
            StylePack::NewspaperEditorial,
            StylePack::CyberpunkNeon,
            StylePack::PastelSoft,
            StylePack::TechnicalDocumentation,
        ]
    }

    /// Kebab-case identifier (the wire representation).
    pub fn slug(self) -> (r: &'static str)
        ensures
            r@ == self.slug_spec(),
    {
        match self {
            StylePack::SwissEditorial => "swiss-editorial",
            StylePack::NinetiesZine => "nineties-zine",
            StylePack::Y2kChrome => "y2k-chrome",
            StylePack::BauhausPoster => "bauhaus-poster",
            StylePack::Brutalist => "brutalist",
            StylePack::MemphisRevival => "memphis-revival",
            StylePack::JapaneseMinimal => "japanese-minimal",
            StylePack::DieterRams => "dieter-rams",
            StylePack::NewspaperEditorial => "newspaper-editorial",
            StylePack::CyberpunkNeon => "cyberpunk-neon",
            StylePack::PastelSoft => "pastel-soft",
            StylePack::TechnicalDocumentation => "technical-documentation",
        }
    }

    /// The 8-axis aesthetic tuple this pack sets.
    pub fn aesthetic(self) -> (r: AestheticTuple)
        ensures
            r == self.aesthetic_spec(),
    {
        match self {
            StylePack::SwissEditorial => AestheticTuple {
                density: Density::Spacious,
                formality: Formality::Editorial,
                motion_intensity: MotionIntensity::Subtle,
                texture: Texture::Flat,
                type_personality: TypePersonality::Humanist,
                grid_character: GridCharacter::Asymmetric,
                color_mood: ColorMood::Monochromatic,
                color_energy: ColorEnergy::Muted,
            },
            StylePack::NinetiesZine => AestheticTuple {
                density: Density::Tight,
                formality: Formality::Brutalist,
                motion_intensity: MotionIntensity::Kinetic,
                texture: Texture::Grainy,
                type_personality: TypePersonality::Condensed,
                grid_character: GridCharacter::Broken,
                color_mood: ColorMood::Polychrome,
                color_energy: ColorEnergy::Saturated,
            },
            StylePack::Y2kChrome => AestheticTuple {
                density: Density::Airy,
                formality: Formality::Technical,
                motion_intensity: MotionIntensity::Expressive,
                texture: Texture::Glassmorphic,
                type_personality: TypePersonality::Geometric,
                grid_character: GridCharacter::Regular,
                color_mood: ColorMood::Complementary,
                color_energy: ColorEnergy::Neon,
            },
            StylePack::BauhausPoster => AestheticTuple {
                density: Density::Spacious,
                formality: Formality::Editorial,
                motion_intensity: MotionIntensity::Still,
                texture: Texture::Layered,
                type_personality: TypePersonality::Geometric,
                grid_character: GridCharacter::Regular,
                color_mood: ColorMood::Triadic,
                color_energy: ColorEnergy::Saturated,
            },
            StylePack::Brutalist => AestheticTuple {
                density: Density::Tight,
                formality: Formality::Brutalist,
                motion_intensity: MotionIntensity::Still,
                texture: Texture::Flat,
                type_personality: TypePersonality::Mono,
                grid_character: GridCharacter::Broken,
                color_mood: ColorMood::Duotone,
                color_energy: ColorEnergy::Muted,
            },
            StylePack::MemphisRevival => AestheticTuple {
                density: Density::Airy,
                formality: Formality::Playful,
                motion_intensity: MotionIntensity::Expressive,
                texture: Texture::Layered,
                type_personality: TypePersonality::Geometric,
                grid_character: GridCharacter::Asymmetric,
                color_mood: ColorMood::Triadic,
                color_energy: ColorEnergy::Pastel,
            },
            StylePack::JapaneseMinimal => AestheticTuple {
                density: Density::Spacious,
                formality: Formality::Editorial,
                motion_intensity: MotionIntensity::Subtle,
                texture: Texture::Flat,
                type_personality: TypePersonality::DisplaySerif,
                grid_character: GridCharacter::Regular,
                color_mood: ColorMood::Monochromatic,
                color_energy: ColorEnergy::Muted,
            },
            StylePack::DieterRams => AestheticTuple {
                density: Density::Airy,
                formality: Formality::Technical,
                motion_intensity: MotionIntensity::Subtle,
                texture: Texture::Flat,
                type_personality: TypePersonality::Humanist,
                grid_character: GridCharacter::Regular,
                color_mood: ColorMood::Monochromatic,
                color_energy: ColorEnergy::Muted,
            },
            StylePack::NewspaperEditorial => AestheticTuple {
                density: Density::Tight,
                formality: Formality::Editorial,
                motion_intensity: MotionIntensity::Still,
                texture: Texture::Flat,
                type_personality: TypePersonality::DisplaySerif,
                grid_character: GridCharacter::Regular,
                color_mood: ColorMood::Monochromatic,
                color_energy: ColorEnergy::Muted,
            },
            StylePack::CyberpunkNeon => AestheticTuple {
                density: Density::Tight,
                formality: Formality::Technical,
                motion_intensity: MotionIntensity::Kinetic,
                texture: Texture::Glassmorphic,
                type_personality: TypePersonality::Mono,
                grid_character: GridCharacter::Asymmetric,
                color_mood: ColorMood::Polychrome,
                color_energy: ColorEnergy::Neon,
            },
            StylePack::PastelSoft => AestheticTuple {
                density: Density::Airy,
                formality: Formality::Playful,
                motion_intensity: MotionIntensity::Subtle,
                texture: Texture::Layered,
                type_personality: TypePersonality::Humanist,
                grid_character: GridCharacter::Regular,
                color_mood: ColorMood::Triadic,
                color_energy: ColorEnergy::Pastel,
            },
            StylePack::TechnicalDocumentation => AestheticTuple {
                density: Density::Tight,
                formality: Formality::Technical,
                motion_intensity: MotionIntensity::Still,
                texture: Texture::Flat,
                type_personality: TypePersonality::Mono,
                grid_character: GridCharacter::Regular,
                color_mood: ColorMood::Monochromatic,
                color_energy: ColorEnergy::Muted,
            },
        }
    }

    /// Human-readable label for UIs.
    pub fn label(self) -> (r: &'static str)
        ensures
            r@ == self.label_spec(),
    {
        match self {
            StylePack::SwissEditorial => "Swiss editorial",
            StylePack::NinetiesZine => "90s zine",
            StylePack::Y2kChrome => "Y2K chrome",
            StylePack::BauhausPoster => "Bauhaus poster",
            StylePack::Brutalist => "Brutalist",
            StylePack::MemphisRevival => "Memphis revival",
            StylePack::JapaneseMinimal => "Japanese minimal",
            StylePack::DieterRams => "Dieter Rams",
            StylePack::NewspaperEditorial => "Newspaper editorial",
            StylePack::CyberpunkNeon => "Cyberpunk neon",
            StylePack::PastelSoft => "Pastel soft",
            StylePack::TechnicalDocumentation => "Technical documentation",
        }
    }
}

/// Every pack encodes a distinct aesthetic: no two packs share a tuple.
pub proof fn aesthetics_are_distinct(p: StylePack, q: StylePack)
    requires
        p != q,
    ensures
        p.aesthetic_spec() != q.aesthetic_spec(),
{
}

/// The pack list holds every pack exactly once.
pub proof fn all_packs_listed_once(p: StylePack)
    ensures
        StylePack::all_spec().contains(p),
        StylePack::all_spec().no_duplicates(),
        StylePack::all_spec().len() == 12,
{
    match p {
        StylePack::SwissEditorial => assert(StylePack::all_spec()[0] == p),
        StylePack::NinetiesZine => assert(StylePack::all_spec()[1] == p),
        StylePack::Y2kChrome => assert(StylePack::all_spec()[2] == p),
        StylePack::BauhausPoster => assert(StylePack::all_spec()[3] == p),
        StylePack::Brutalist => assert(StylePack::all_spec()[4] == p),
        StylePack::MemphisRevival => assert(StylePack::all_spec()[5] == p),
        StylePack::JapaneseMinimal => assert(StylePack::all_spec()[6] == p),
        StylePack::DieterRams => assert(StylePack::all_spec()[7] == p),
        StylePack::NewspaperEditorial => assert(StylePack::all_spec()[8] == p),
        StylePack::CyberpunkNeon => assert(StylePack::all_spec()[9] == p),
        StylePack::PastelSoft => assert(StylePack::all_spec()[10] == p),
        StylePack::TechnicalDocumentation => assert(StylePack::all_spec()[11] == p),
    }
}

} // verus!
