//! `density` — canonical density-tier vocabulary.
//!
//! Four tiers ordered by visual + information density; each carries a
//! rough char-per-1000sqpx band, and a measurement classifies to the tier
//! whose band holds it (boundary values map to the lower tier).

use vstd::prelude::*;
use crate::text::push_str;

verus! {

/// Canonical density-tier vocabulary, sparse first.
#[derive(Debug, Clone, Copy, PartialEq, Eq, PartialOrd, Ord, Structural)]
pub enum DensityTier {
    /// Substantial whitespace, 1-2 ideas per viewport.
    Sparse,
    /// Balanced whitespace, 3-5 ideas per viewport. Substrate default.
    Comfortable,
    /// Editorial / dashboard density, 8-15 ideas per viewport.
    Dense,
    /// Extreme info-density, every-pixel-earns-its-place.
    Extreme,
}

impl Default for DensityTier {
    /// `Comfortable` — the substrate default.
    fn default() -> (r: Self)
        ensures
            r == DensityTier::Comfortable,
    {
        DensityTier::Comfortable
    }
}

impl DensityTier {
    /// Position of a tier in density order (sparse = 0).
    pub open spec fn rank(self) -> int {
        match self {
            DensityTier::Sparse => 0,
            DensityTier::Comfortable => 1,
            DensityTier::Dense => 2,
            DensityTier::Extreme => 3,
        }
    }

    /// Wire slug of a tier.
    pub open spec fn slug_spec(self) -> Seq<char> {
        match self {
            DensityTier::Sparse => "sparse"@,
            DensityTier::Comfortable => "comfortable"@,
            DensityTier::Dense => "dense"@,
            DensityTier::Extreme => "extreme"@,
        }
    }

    /// Char-per-1000sqpx band `(low, high)` of a tier.
    pub open spec fn band(self) -> (u32, u32) {
        match self {
            DensityTier::Sparse => (30, 80),
            DensityTier::Comfortable => (80, 180),
            DensityTier::Dense => (180, 400),
            DensityTier::Extreme => (400, u32::MAX),
        }
    }

    /// The tier a measurement classifies to: the lowest tier whose band
    /// ceiling is at or above it.
    pub open spec fn classify_spec(chars: u32) -> DensityTier {
        if chars <= 80 {
            DensityTier::Sparse
        } else if chars <= 180 {
            DensityTier::Comfortable
        } else if chars <= 400 {
            DensityTier::Dense
        } else {
            DensityTier::Extreme
        }
    }

    /// Stable kebab-case wire string.
    pub fn slug(self) -> (r: &'static str)
        ensures
            r@ == self.slug_spec(),
    {
        match self {
            DensityTier::Sparse => "sparse",
            DensityTier::Comfortable => "comfortable",
            DensityTier::Dense => "dense",
            DensityTier::Extreme => "extreme",
        }
    }

    /// CSS class name for the data-driven tier hook: `loom-density-<slug>`.
    pub fn css_class(self) -> (r: String)
        ensures
            r@ == "loom-density-"@ + self.slug_spec(),
    {
        let mut s = String::new();
        push_str(&mut s, "loom-density-");
        push_str(&mut s, self.slug());
        s
    }

    /// Approximate char-per-1000sqpx band as `(low, high)`.
    pub fn char_per_1000sqpx(self) -> (r: (u32, u32))
        ensures
            r == self.band(),
    {
        match self {
            DensityTier::Sparse => (30, 80),
            DensityTier::Comfortable => (80, 180),
            DensityTier::Dense => (180, 400),
            DensityTier::Extreme => (400, u32::MAX),
        }
    }

    /// All tiers ordered by density (sparse first).
    pub fn all() -> (r: [DensityTier; 4])
        ensures
            r@ == seq![
                DensityTier::Sparse,
                DensityTier::Comfortable,
                DensityTier::Dense,
                DensityTier::Extreme,
            ],
    {
        [DensityTier::Sparse, DensityTier::Comfortable, DensityTier::Dense, DensityTier::Extreme]
    }

    /// Classify an empirical char-per-1000sqpx measurement. Boundary
    /// values map to the lower tier; the Extreme band is open-ended.
    pub fn classify(chars_per_1000sqpx: u32) -> (r: DensityTier)
        ensures
            r == Self::classify_spec(chars_per_1000sqpx),
    {
        if chars_per_1000sqpx <= 80 {
            DensityTier::Sparse
        } else if chars_per_1000sqpx <= 180 {
            DensityTier::Comfortable
        } else if chars_per_1000sqpx <= 400 {
            DensityTier::Dense
        } else {
            DensityTier::Extreme
        }
    }
}

/// A measurement lies at or below the ceiling of its tier's band, and above
/// the band's floor for every tier but the lowest.
pub proof fn classify_lands_in_band(n: u32)
    ensures
        n <= DensityTier::classify_spec(n).band().1,
        DensityTier::classify_spec(n) != DensityTier::Sparse ==> DensityTier::classify_spec(
            n,
        ).band().0 < n,
{
}

/// Classification is monotone: more characters never give a sparser tier.
pub proof fn classify_is_monotone(a: u32, b: u32)
    requires
        a <= b,
    ensures
        DensityTier::classify_spec(a).rank() <= DensityTier::classify_spec(b).rank(),
{
}

/// Bands tile the axis: each tier's band starts where the previous ends.
pub proof fn bands_are_contiguous(t: DensityTier, u: DensityTier)
    requires
        u.rank() == t.rank() + 1,
    ensures
        u.band().0 == t.band().1,
        t.band().0 < t.band().1,
{
}

} // verus!
