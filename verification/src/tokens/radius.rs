//! Border-radius scale.

use vstd::prelude::*;

verus! {

/// Border radius step. Tailwind-aligned.
#[derive(Debug, Clone, Copy, PartialEq, Eq, Structural)]
pub enum Radius {
    /// `0` — sharp corners.
    Zero,
    /// `0.25rem` — buttons, inputs.
    Sm,
    /// `0.5rem` — most cards.
    Md,
    /// `0.75rem` — feature cards, hero CTA.
    Lg,
    /// `1rem` — tall hero panels.
    Xl,
    /// `9999px` — pills, badges.
    Full,
}

impl Radius {
    /// Tailwind suffix of a step (`rounded-<suffix>`).
    pub open spec fn tailwind_spec(self) -> Seq<char> {
        match self {
            Radius::Zero => "none"@,
            Radius::Sm => "sm"@,
            Radius::Md => "md"@,
            Radius::Lg => "lg"@,
            Radius::Xl => "xl"@,
            Radius::Full => "full"@,
        }
    }

    /// CSS length of a step.
    pub open spec fn css_size_spec(self) -> Seq<char> {
        match self {
            Radius::Zero => "0"@,
            Radius::Sm => "0.25rem"@,
            Radius::Md => "0.5rem"@,
            Radius::Lg => "0.75rem"@,
            Radius::Xl => "1rem"@,
            Radius::Full => "9999px"@,
        }
    }

    /// Every step, in declaration order.
    pub open spec fn all_spec() -> Seq<Radius> {
        seq![Radius::Zero, Radius::Sm, Radius::Md, Radius::Lg, Radius::Xl, Radius::Full]
    }

    /// Tailwind suffix; `Sm` → `rounded-sm`, etc.
    pub fn tailwind(self) -> (r: &'static str)
        ensures
            r@ == self.tailwind_spec(),
    {
        match self {
            Radius::Zero => "none",
            Radius::Sm => "sm",
            Radius::Md => "md",
            Radius::Lg => "lg",
            Radius::Xl => "xl",
            Radius::Full => "full",
        }
    }

    /// CSS length used by the cross-platform token emitters.
    pub fn css_size(self) -> (r: &'static str)
        ensures
            r@ == self.css_size_spec(),
    {
        match self {
            Radius::Zero => "0",
            Radius::Sm => "0.25rem",
            Radius::Md => "0.5rem",
            Radius::Lg => "0.75rem",
            Radius::Xl => "1rem",
            Radius::Full => "9999px",
        }
    }

    /// Every defined step.
    pub fn all() -> (r: Vec<Radius>)
        ensures
            r@ == Self::all_spec(),
    {
        vec![Radius::Zero, Radius::Sm, Radius::Md, Radius::Lg, Radius::Xl, Radius::Full]
    }
}

/// Every variant occurs in [`Radius::all`], exactly once.
pub proof fn radius_all_is_complete(r: Radius)
    ensures
        Radius::all_spec().contains(r),
        Radius::all_spec().no_duplicates(),
{
    match r {
        Radius::Zero => assert(Radius::all_spec()[0] == r),
        Radius::Sm => assert(Radius::all_spec()[1] == r),
        Radius::Md => assert(Radius::all_spec()[2] == r),
        Radius::Lg => assert(Radius::all_spec()[3] == r),
        Radius::Xl => assert(Radius::all_spec()[4] == r),
        Radius::Full => assert(Radius::all_spec()[5] == r),
    }
}

} // verus!
