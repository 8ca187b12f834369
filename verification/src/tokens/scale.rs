//! Numeric scales: spacing, breakpoints, font sizes.

use vstd::prelude::*;
use crate::text::decimal;

verus! {

/// Spacing scale step. Maps to Tailwind `{prefix}-{step}` utilities,
/// e.g. `Spacing::S4` → `"4"` → `px-4`, `py-4`, `gap-4`.
#[derive(Debug, Clone, Copy, PartialEq, Eq, Structural)]
pub enum Spacing {
    /// 0
    S0,
    /// 0.25rem
    S1,
    /// 0.5rem
    S2,
    /// 0.75rem
    S3,
    /// 1rem
    S4,
    /// 1.5rem
    S6,
    /// 2rem
    S8,
    /// 3rem
    S12,
    /// 4rem
    S16,
    /// 6rem
    S24,
}

impl Spacing {
    /// The Tailwind step number of a spacing step.
    pub open spec fn step(self) -> nat {
        match self {
            Spacing::S0 => 0,
            Spacing::S1 => 1,
            Spacing::S2 => 2,
            Spacing::S3 => 3,
            Spacing::S4 => 4,
            Spacing::S6 => 6,
            Spacing::S8 => 8,
            Spacing::S12 => 12,
            Spacing::S16 => 16,
            Spacing::S24 => 24,
        }
    }

    /// Text of the step's rem value (`0.25rem * step`) as Rust prints it.
    pub open spec fn rem_text_spec(self) -> Seq<char> {
        match self {
            Spacing::S0 => "0"@,
            Spacing::S1 => "0.25"@,
            Spacing::S2 => "0.5"@,
            Spacing::S3 => "0.75"@,
            Spacing::S4 => "1"@,
            Spacing::S6 => "1.5"@,
            Spacing::S8 => "2"@,
            Spacing::S12 => "3"@,
            Spacing::S16 => "4"@,
            Spacing::S24 => "6"@,
        }
    }

    /// Every step, in ascending order.
    pub open spec fn all_spec() -> Seq<Spacing> {
        seq![
            Spacing::S0,
            Spacing::S1,
            Spacing::S2,
            Spacing::S3,
            Spacing::S4,
            Spacing::S6,
            Spacing::S8,
            Spacing::S12,
            Spacing::S16,
            Spacing::S24,
        ]
    }

    /// Tailwind step number as a string slice: the decimal rendering of
    /// the step number.
    pub fn tailwind(self) -> (r: &'static str)
        ensures
            r@ == decimal(self.step()),
    {
        proof {
            reveal_strlit("0");
            reveal_strlit("1");
            reveal_strlit("2");
            reveal_strlit("3");
            reveal_strlit("4");
            reveal_strlit("6");
            reveal_strlit("8");
            reveal_strlit("12");
            reveal_strlit("16");
            reveal_strlit("24");
            assert(decimal(12) == seq!['1', '2']) by { assert(decimal(1) == seq!['1']); }
            assert(decimal(16) == seq!['1', '6']) by { assert(decimal(1) == seq!['1']); }
            assert(decimal(24) == seq!['2', '4']) by { assert(decimal(2) == seq!['2']); }
        }
        match self {
            Spacing::S0 => "0",
            Spacing::S1 => "1",
            Spacing::S2 => "2",
            Spacing::S3 => "3",
            Spacing::S4 => "4",
            Spacing::S6 => "6",
            Spacing::S8 => "8",
            Spacing::S12 => "12",
            Spacing::S16 => "16",
            Spacing::S24 => "24",
        }
    }

    /// The rem value of this step as text (`0.25rem * step`); the text the
    /// token emitters print for the step's rem value.
    pub fn rem_text(self) -> (r: &'static str)
        ensures
            r@ == self.rem_text_spec(),
    {
        match self {
            Spacing::S0 => "0",
            Spacing::S1 => "0.25",
            Spacing::S2 => "0.5",
            Spacing::S3 => "0.75",
            Spacing::S4 => "1",
            Spacing::S6 => "1.5",
            Spacing::S8 => "2",
            Spacing::S12 => "3",
            Spacing::S16 => "4",
            Spacing::S24 => "6",
        }
    }

    /// Logical pixel value at the design root font size (16 px):
    /// `0.25rem * step * 16px`.
    pub fn px(self) -> (r: u32)
        ensures
            r == 4 * self.step(),
    {
        match self {
            Spacing::S0 => 0,
            Spacing::S1 => 4,
            Spacing::S2 => 8,
            Spacing::S3 => 12,
            Spacing::S4 => 16,
            Spacing::S6 => 24,
            Spacing::S8 => 32,
            Spacing::S12 => 48,
            Spacing::S16 => 64,
            Spacing::S24 => 96,
        }
    }

    /// Every defined step.
    pub fn all() -> (r: Vec<Spacing>)
        ensures
            r@ == Self::all_spec(),
    {
        vec![
            Spacing::S0,
            Spacing::S1,
            Spacing::S2,
            Spacing::S3,
            Spacing::S4,
            Spacing::S6,
            Spacing::S8,
            Spacing::S12,
            Spacing::S16,
            Spacing::S24,
        ]
    }
}

/// The spacing scale is listed in strictly ascending step order.
pub proof fn spacing_all_ascending(i: int, j: int)
    requires
        0 <= i < j < Spacing::all_spec().len(),
    ensures
        Spacing::all_spec()[i].step() < Spacing::all_spec()[j].step(),
{
}

/// Responsive breakpoints. Tailwind-aligned.
#[derive(Debug, Clone, Copy, PartialEq, Eq, Structural)]
pub enum Breakpoint {
    /// `640px` — `sm:`
    Sm,
    /// `768px` — `md:`
    Md,
    /// `1024px` — `lg:`
    Lg,
    /// `1280px` — `xl:`
    Xl,
}

impl Breakpoint {
    /// Tailwind prefix of a breakpoint.
    pub open spec fn tailwind_spec(self) -> Seq<char> {
        match self {
            Breakpoint::Sm => "sm"@,
            Breakpoint::Md => "md"@,
            Breakpoint::Lg => "lg"@,
            Breakpoint::Xl => "xl"@,
        }
    }

    /// Pixel width of a breakpoint.
    pub open spec fn px_spec(self) -> u32 {
        match self {
            Breakpoint::Sm => 640,
            Breakpoint::Md => 768,
            Breakpoint::Lg => 1024,
            Breakpoint::Xl => 1280,
        }
    }

    /// Every breakpoint, narrowest first.
    pub open spec fn all_spec() -> Seq<Breakpoint> {
        seq![Breakpoint::Sm, Breakpoint::Md, Breakpoint::Lg, Breakpoint::Xl]
    }

    /// Tailwind prefix without the trailing colon.
    pub fn tailwind(self) -> (r: &'static str)
        ensures
            r@ == self.tailwind_spec(),
    {
        match self {
            Breakpoint::Sm => "sm",
            Breakpoint::Md => "md",
            Breakpoint::Lg => "lg",
            Breakpoint::Xl => "xl",
        }
    }

    /// Pixel width at which the breakpoint activates.
    pub fn px(self) -> (r: u32)
        ensures
            r == self.px_spec(),
    {
        match self {
            Breakpoint::Sm => 640,
            Breakpoint::Md => 768,
            Breakpoint::Lg => 1024,
            Breakpoint::Xl => 1280,
        }
    }

    /// Every defined breakpoint.
    pub fn all() -> (r: Vec<Breakpoint>)
        ensures
            r@ == Self::all_spec(),
    {
        vec![Breakpoint::Sm, Breakpoint::Md, Breakpoint::Lg, Breakpoint::Xl]
    }
}

/// Breakpoints are listed in strictly ascending pixel order.
pub proof fn breakpoints_ascending(i: int, j: int)
    requires
        0 <= i < j < Breakpoint::all_spec().len(),
    ensures
        Breakpoint::all_spec()[i].px_spec() < Breakpoint::all_spec()[j].px_spec(),
{
}

/// Font size step. Tailwind-aligned, with semantic aliases at the top.
#[derive(Debug, Clone, Copy, PartialEq, Eq, Structural)]
pub enum FontSize {
    /// `0.75rem` (12px)
    Xs,
    /// `0.875rem` (14px)
    Sm,
    /// `1rem` (16px) — default body.
    Base,
    /// `1.125rem` (18px)
    Lg,
    /// `1.25rem` (20px)
    Xl,
    /// `1.5rem` (24px)
    H3,
    /// `1.875rem` (30px)
    H2,
    /// `2.25rem` (36px) — page heading desktop.
    H1,
    /// `3rem` (48px) — hero headline.
    Hero,
}

impl FontSize {
    /// Tailwind class suffix of a size.
    pub open spec fn tailwind_spec(self) -> Seq<char> {
        match self {
            FontSize::Xs => "xs"@,
            FontSize::Sm => "sm"@,
            FontSize::Base => "base"@,
            FontSize::Lg => "lg"@,
            FontSize::Xl => "xl"@,
            FontSize::H3 => "2xl"@,
            FontSize::H2 => "3xl"@,
            FontSize::H1 => "4xl"@,
            FontSize::Hero => "6xl"@,
        }
    }

    /// CSS length of a size.
    pub open spec fn css_size_spec(self) -> Seq<char> {
        match self {
            FontSize::Xs => "0.75rem"@,
            FontSize::Sm => "0.875rem"@,
            FontSize::Base => "1rem"@,
            FontSize::Lg => "1.125rem"@,
            FontSize::Xl => "1.25rem"@,
            FontSize::H3 => "1.5rem"@,
            FontSize::H2 => "1.875rem"@,
            FontSize::H1 => "2.25rem"@,
            FontSize::Hero => "3rem"@,
        }
    }

    /// Every size, smallest first.
    pub open spec fn all_spec() -> Seq<FontSize> {
        seq![
            FontSize::Xs,
            FontSize::Sm,
            FontSize::Base,
            FontSize::Lg,
            FontSize::Xl,
            FontSize::H3,
            FontSize::H2,
            FontSize::H1,
            FontSize::Hero,
        ]
    }

    /// Tailwind class suffix, e.g. `"sm"` → `text-sm`.
    pub fn tailwind(self) -> (r: &'static str)
        ensures
            r@ == self.tailwind_spec(),
    {
        match self {
            FontSize::Xs => "xs",
            FontSize::Sm => "sm",
            FontSize::Base => "base",
            FontSize::Lg => "lg",
            FontSize::Xl => "xl",
            FontSize::H3 => "2xl",
            FontSize::H2 => "3xl",
            FontSize::H1 => "4xl",
            FontSize::Hero => "6xl",
        }
    }

    /// CSS-shaped value used by the cross-platform token emitters.
    pub fn css_size(self) -> (r: &'static str)
        ensures
            r@ == self.css_size_spec(),
    {
        match self {
            FontSize::Xs => "0.75rem",
            FontSize::Sm => "0.875rem",
            FontSize::Base => "1rem",
            FontSize::Lg => "1.125rem",
            FontSize::Xl => "1.25rem",
            FontSize::H3 => "1.5rem",
            FontSize::H2 => "1.875rem",
            FontSize::H1 => "2.25rem",
            FontSize::Hero => "3rem",
        }
    }

    /// Every defined size.
    pub fn all() -> (r: Vec<FontSize>)
        ensures
            r@ == Self::all_spec(),
    {
        vec![
            FontSize::Xs,
            FontSize::Sm,
            FontSize::Base,
            FontSize::Lg,
            FontSize::Xl,
            FontSize::H3,
            FontSize::H2,
            FontSize::H1,
            FontSize::Hero,
        ]
    }
}

} // verus!
