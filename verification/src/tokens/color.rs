//! Palette tokens — semantic roles + a stable HSL or hex value per role.
//!
//! Roles are meaning-named (`primary`, `surface`, `muted-text`), never
//! appearance-named. The dark palette mirrors the light one role for role.

use vstd::prelude::*;
use crate::text::{chars_of, is_whitespace, is_ws, str_eq, string_from_range, trim, trim_bounds};

verus! {

/// A single named color value.
#[derive(Debug, Clone, Copy, PartialEq, Eq)]
pub struct Color {
    /// Display name, e.g. `"primary"` or `"slate-900"`.
    pub name: &'static str,
    /// Tailwind utility prefix (no color-step suffix).
    pub tailwind: &'static str,
    /// CSS color string in HSL or hex.
    pub css: &'static str,
}

/// One semantic role + the [`Color`] it resolves to.
#[derive(Debug, Clone, Copy, PartialEq, Eq)]
pub struct ColorRole {
    /// Role identifier — never appearance-named.
    pub role: &'static str,
    /// Resolved color.
    pub color: Color,
}

/// The light palette, in its stable order (new roles append at the end).
pub open spec fn light_palette() -> Seq<ColorRole> {
    seq![
        ColorRole { role: "primary", color: Color { name: "primary", tailwind: "primary", css: "hsl(220 90% 28%)" } },
        ColorRole { role: "primary-fg", color: Color { name: "primary-fg", tailwind: "primary-foreground", css: "#ffffff" } },
        ColorRole { role: "surface", color: Color { name: "surface", tailwind: "white", css: "#ffffff" } },
        ColorRole { role: "surface-muted", color: Color { name: "surface-muted", tailwind: "slate-100", css: "hsl(214 32% 95%)" } },
        ColorRole { role: "ink", color: Color { name: "ink", tailwind: "slate-900", css: "hsl(222 47% 11%)" } },
        ColorRole { role: "ink-muted", color: Color { name: "ink-muted", tailwind: "slate-700", css: "hsl(215 25% 38%)" } },
        ColorRole { role: "border", color: Color { name: "border", tailwind: "slate-300", css: "hsl(214 32% 80%)" } },
        ColorRole { role: "danger", color: Color { name: "danger", tailwind: "red-600", css: "hsl(0 72% 51%)" } },
        ColorRole { role: "success", color: Color { name: "success", tailwind: "emerald-600", css: "hsl(160 84% 30%)" } },
        ColorRole { role: "warn", color: Color { name: "warn", tailwind: "amber-600", css: "hsl(28 80% 50%)" } },
        ColorRole { role: "warn-bg", color: Color { name: "warn-bg", tailwind: "amber-50", css: "hsl(40 90% 93%)" } },
        ColorRole { role: "tier-medium", color: Color { name: "tier-medium", tailwind: "yellow-500", css: "hsl(50 80% 56%)" } },
        ColorRole { role: "border-strong", color: Color { name: "border-strong", tailwind: "slate-300", css: "hsl(212 16% 82%)" } },
        ColorRole { role: "accent-soft", color: Color { name: "accent-soft", tailwind: "blue-200", css: "hsl(220 75% 80%)" } },
        ColorRole { role: "accent-glow", color: Color { name: "accent-glow", tailwind: "blue-100", css: "hsl(220 75% 90%)" } },
        ColorRole { role: "gradient-a", color: Color { name: "gradient-a", tailwind: "blue-500", css: "hsl(218 78% 56%)" } },
        ColorRole { role: "gradient-b", color: Color { name: "gradient-b", tailwind: "purple-500", css: "hsl(269 65% 57%)" } },
        ColorRole { role: "bg-canvas", color: Color { name: "bg-canvas", tailwind: "slate-100", css: "hsl(225 33% 99%)" } },
        ColorRole { role: "bg-overlay", color: Color { name: "bg-overlay", tailwind: "slate-200", css: "hsl(220 28% 95%)" } },
        ColorRole { role: "bg", color: Color { name: "bg", tailwind: "white", css: "#ffffff" } },
        ColorRole { role: "text", color: Color { name: "text", tailwind: "slate-900", css: "hsl(222 47% 11%)" } },
        ColorRole { role: "muted", color: Color { name: "muted", tailwind: "slate-500", css: "hsl(215 16% 47%)" } },
        ColorRole { role: "accent-2", color: Color { name: "accent-2", tailwind: "indigo-500", css: "hsl(239 84% 67%)" } },
        ColorRole { role: "focus", color: Color { name: "focus", tailwind: "blue-500", css: "hsl(217 91% 60%)" } },
        ColorRole { role: "on-primary", color: Color { name: "on-primary", tailwind: "white", css: "#ffffff" } },
        ColorRole { role: "on-dark", color: Color { name: "on-dark", tailwind: "white", css: "#ffffff" } },
        ColorRole { role: "primary-hover", color: Color { name: "primary-hover", tailwind: "primary-700", css: "hsl(220 90% 22%)" } },
        ColorRole { role: "hero-bg", color: Color { name: "hero-bg", tailwind: "transparent", css: "transparent" } },
        ColorRole { role: "quote-bg", color: Color { name: "quote-bg", tailwind: "transparent", css: "transparent" } },
        ColorRole { role: "quote-text", color: Color { name: "quote-text", tailwind: "slate-700", css: "hsl(215 25% 27%)" } },
        ColorRole { role: "code-bg", color: Color { name: "code-bg", tailwind: "slate-100", css: "hsl(214 32% 95%)" } },
        ColorRole { role: "code-text", color: Color { name: "code-text", tailwind: "slate-900", css: "hsl(222 47% 11%)" } },
        ColorRole { role: "table-stripe", color: Color { name: "table-stripe", tailwind: "slate-50", css: "hsl(210 40% 98%)" } },
        ColorRole { role: "progress-track", color: Color { name: "progress-track", tailwind: "slate-200", css: "hsl(214 32% 91%)" } },
        ColorRole { role: "avatar-bg", color: Color { name: "avatar-bg", tailwind: "slate-200", css: "hsl(214 32% 91%)" } },
        ColorRole { role: "avatar-text", color: Color { name: "avatar-text", tailwind: "slate-700", css: "hsl(215 25% 27%)" } },
        ColorRole { role: "kbd-bg", color: Color { name: "kbd-bg", tailwind: "slate-100", css: "hsl(214 32% 95%)" } },
        ColorRole { role: "kbd-text", color: Color { name: "kbd-text", tailwind: "slate-700", css: "hsl(215 25% 27%)" } },
        ColorRole { role: "kbd-border", color: Color { name: "kbd-border", tailwind: "slate-300", css: "hsl(213 27% 84%)" } },
        ColorRole { role: "trend-up", color: Color { name: "trend-up", tailwind: "emerald-600", css: "hsl(158 64% 39%)" } },
        ColorRole { role: "trend-down", color: Color { name: "trend-down", tailwind: "rose-600", css: "hsl(347 77% 49%)" } },
        ColorRole { role: "stepper-done", color: Color { name: "stepper-done", tailwind: "emerald-600", css: "hsl(158 64% 39%)" } },
        ColorRole { role: "stepper-done-bg", color: Color { name: "stepper-done-bg", tailwind: "emerald-50", css: "hsl(152 81% 96%)" } },
        ColorRole { role: "stepper-current", color: Color { name: "stepper-current", tailwind: "blue-600", css: "hsl(221 83% 53%)" } },
        ColorRole { role: "stepper-current-bg", color: Color { name: "stepper-current-bg", tailwind: "blue-50", css: "hsl(214 100% 97%)" } },
        ColorRole { role: "badge-neutral-bg", color: Color { name: "badge-neutral-bg", tailwind: "slate-100", css: "hsl(214 32% 95%)" } },
        ColorRole { role: "badge-neutral-text", color: Color { name: "badge-neutral-text", tailwind: "slate-700", css: "hsl(215 25% 27%)" } },
        ColorRole { role: "badge-neutral-border", color: Color { name: "badge-neutral-border", tailwind: "slate-300", css: "hsl(213 27% 84%)" } },
        ColorRole { role: "badge-info-bg", color: Color { name: "badge-info-bg", tailwind: "sky-100", css: "hsl(204 94% 94%)" } },
        ColorRole { role: "badge-info-text", color: Color { name: "badge-info-text", tailwind: "sky-700", css: "hsl(201 90% 35%)" } },
        ColorRole { role: "badge-info-border", color: Color { name: "badge-info-border", tailwind: "sky-300", css: "hsl(199 95% 74%)" } },
        ColorRole { role: "badge-success-bg", color: Color { name: "badge-success-bg", tailwind: "emerald-100", css: "hsl(149 80% 90%)" } },
        ColorRole { role: "badge-success-text", color: Color { name: "badge-success-text", tailwind: "emerald-700", css: "hsl(158 64% 30%)" } },
        ColorRole { role: "badge-success-border", color: Color { name: "badge-success-border", tailwind: "emerald-300", css: "hsl(156 72% 67%)" } },
        ColorRole { role: "badge-warning-bg", color: Color { name: "badge-warning-bg", tailwind: "amber-100", css: "hsl(48 96% 89%)" } },
        ColorRole { role: "badge-warning-text", color: Color { name: "badge-warning-text", tailwind: "amber-800", css: "hsl(23 83% 31%)" } },
        ColorRole { role: "badge-warning-border", color: Color { name: "badge-warning-border", tailwind: "amber-300", css: "hsl(46 97% 65%)" } },
        ColorRole { role: "badge-danger-bg", color: Color { name: "badge-danger-bg", tailwind: "rose-100", css: "hsl(356 100% 94%)" } },
        ColorRole { role: "badge-danger-text", color: Color { name: "badge-danger-text", tailwind: "rose-700", css: "hsl(345 83% 41%)" } },
        ColorRole { role: "badge-danger-border", color: Color { name: "badge-danger-border", tailwind: "rose-300", css: "hsl(352 96% 79%)" } },
        ColorRole { role: "badge-accent-bg", color: Color { name: "badge-accent-bg", tailwind: "indigo-100", css: "hsl(226 100% 94%)" } },
        ColorRole { role: "badge-accent-text", color: Color { name: "badge-accent-text", tailwind: "indigo-700", css: "hsl(229 76% 40%)" } },
        ColorRole { role: "badge-accent-border", color: Color { name: "badge-accent-border", tailwind: "indigo-300", css: "hsl(230 94% 77%)" } },
    ]
}

/// The dark palette: the same roles in the same order, dark resolutions.
pub open spec fn dark_palette() -> Seq<ColorRole> {
    seq![
        ColorRole { role: "primary", color: Color { name: "primary", tailwind: "primary", css: "hsl(220 90% 65%)" } },
        ColorRole { role: "primary-fg", color: Color { name: "primary-fg", tailwind: "slate-950", css: "hsl(222 47% 6%)" } },
        ColorRole { role: "surface", color: Color { name: "surface", tailwind: "slate-950", css: "hsl(222 47% 6%)" } },
        ColorRole { role: "surface-muted", color: Color { name: "surface-muted", tailwind: "slate-900", css: "hsl(222 47% 11%)" } },
        ColorRole { role: "ink", color: Color { name: "ink", tailwind: "slate-50", css: "hsl(210 40% 98%)" } },
        ColorRole { role: "ink-muted", color: Color { name: "ink-muted", tailwind: "slate-300", css: "hsl(215 20% 78%)" } },
        ColorRole { role: "border", color: Color { name: "border", tailwind: "slate-800", css: "hsl(217 33% 18%)" } },
        ColorRole { role: "danger", color: Color { name: "danger", tailwind: "red-400", css: "hsl(0 72% 65%)" } },
        ColorRole { role: "success", color: Color { name: "success", tailwind: "emerald-400", css: "hsl(160 84% 55%)" } },
        ColorRole { role: "warn", color: Color { name: "warn", tailwind: "amber-400", css: "hsl(33 100% 66%)" } },
        ColorRole { role: "warn-bg", color: Color { name: "warn-bg", tailwind: "amber-950", css: "hsl(33 50% 16%)" } },
        ColorRole { role: "tier-medium", color: Color { name: "tier-medium", tailwind: "yellow-400", css: "hsl(50 75% 65%)" } },
        ColorRole { role: "border-strong", color: Color { name: "border-strong", tailwind: "slate-700", css: "hsl(218 22% 30%)" } },
        ColorRole { role: "accent-soft", color: Color { name: "accent-soft", tailwind: "blue-700", css: "hsl(222 41% 47%)" } },
        ColorRole { role: "accent-glow", color: Color { name: "accent-glow", tailwind: "blue-200", css: "hsl(220 100% 85%)" } },
        ColorRole { role: "gradient-a", color: Color { name: "gradient-a", tailwind: "blue-400", css: "hsl(218 83% 65%)" } },
        ColorRole { role: "gradient-b", color: Color { name: "gradient-b", tailwind: "purple-400", css: "hsl(272 84% 65%)" } },
        ColorRole { role: "bg-canvas", color: Color { name: "bg-canvas", tailwind: "slate-950", css: "hsl(220 33% 6%)" } },
        ColorRole { role: "bg-overlay", color: Color { name: "bg-overlay", tailwind: "slate-800", css: "hsl(220 24% 20%)" } },
        ColorRole { role: "bg", color: Color { name: "bg", tailwind: "slate-950", css: "hsl(220 33% 6%)" } },
        ColorRole { role: "text", color: Color { name: "text", tailwind: "slate-100", css: "hsl(210 40% 96%)" } },
        ColorRole { role: "muted", color: Color { name: "muted", tailwind: "slate-400", css: "hsl(213 27% 64%)" } },
        ColorRole { role: "accent-2", color: Color { name: "accent-2", tailwind: "indigo-400", css: "hsl(234 89% 74%)" } },
        ColorRole { role: "focus", color: Color { name: "focus", tailwind: "blue-400", css: "hsl(213 94% 68%)" } },
        ColorRole { role: "on-primary", color: Color { name: "on-primary", tailwind: "slate-950", css: "hsl(220 33% 6%)" } },
        ColorRole { role: "on-dark", color: Color { name: "on-dark", tailwind: "slate-100", css: "hsl(210 40% 96%)" } },
        ColorRole { role: "primary-hover", color: Color { name: "primary-hover", tailwind: "primary-300", css: "hsl(220 90% 70%)" } },
        ColorRole { role: "hero-bg", color: Color { name: "hero-bg", tailwind: "transparent", css: "transparent" } },
        ColorRole { role: "quote-bg", color: Color { name: "quote-bg", tailwind: "transparent", css: "transparent" } },
        ColorRole { role: "quote-text", color: Color { name: "quote-text", tailwind: "slate-300", css: "hsl(213 27% 84%)" } },
        ColorRole { role: "code-bg", color: Color { name: "code-bg", tailwind: "slate-800", css: "hsl(220 24% 20%)" } },
        ColorRole { role: "code-text", color: Color { name: "code-text", tailwind: "slate-100", css: "hsl(210 40% 96%)" } },
        ColorRole { role: "table-stripe", color: Color { name: "table-stripe", tailwind: "slate-900", css: "hsl(222 47% 11%)" } },
        ColorRole { role: "progress-track", color: Color { name: "progress-track", tailwind: "slate-800", css: "hsl(220 24% 20%)" } },
        ColorRole { role: "avatar-bg", color: Color { name: "avatar-bg", tailwind: "slate-700", css: "hsl(215 25% 27%)" } },
        ColorRole { role: "avatar-text", color: Color { name: "avatar-text", tailwind: "slate-200", css: "hsl(214 32% 91%)" } },
        ColorRole { role: "kbd-bg", color: Color { name: "kbd-bg", tailwind: "slate-800", css: "hsl(220 24% 20%)" } },
        ColorRole { role: "kbd-text", color: Color { name: "kbd-text", tailwind: "slate-200", css: "hsl(214 32% 91%)" } },
        ColorRole { role: "kbd-border", color: Color { name: "kbd-border", tailwind: "slate-700", css: "hsl(215 25% 27%)" } },
        ColorRole { role: "trend-up", color: Color { name: "trend-up", tailwind: "emerald-400", css: "hsl(158 64% 52%)" } },
        ColorRole { role: "trend-down", color: Color { name: "trend-down", tailwind: "rose-400", css: "hsl(351 95% 71%)" } },
        ColorRole { role: "stepper-done", color: Color { name: "stepper-done", tailwind: "emerald-400", css: "hsl(158 64% 52%)" } },
        ColorRole { role: "stepper-done-bg", color: Color { name: "stepper-done-bg", tailwind: "emerald-950", css: "hsl(166 88% 8%)" } },
        ColorRole { role: "stepper-current", color: Color { name: "stepper-current", tailwind: "blue-400", css: "hsl(213 94% 68%)" } },
        ColorRole { role: "stepper-current-bg", color: Color { name: "stepper-current-bg", tailwind: "blue-950", css: "hsl(229 84% 13%)" } },
        ColorRole { role: "badge-neutral-bg", color: Color { name: "badge-neutral-bg", tailwind: "slate-800", css: "hsl(220 24% 20%)" } },
        ColorRole { role: "badge-neutral-text", color: Color { name: "badge-neutral-text", tailwind: "slate-200", css: "hsl(214 32% 91%)" } },
        ColorRole { role: "badge-neutral-border", color: Color { name: "badge-neutral-border", tailwind: "slate-700", css: "hsl(215 25% 27%)" } },
        ColorRole { role: "badge-info-bg", color: Color { name: "badge-info-bg", tailwind: "sky-950", css: "hsl(204 80% 16%)" } },
        ColorRole { role: "badge-info-text", color: Color { name: "badge-info-text", tailwind: "sky-300", css: "hsl(199 95% 74%)" } },
        ColorRole { role: "badge-info-border", color: Color { name: "badge-info-border", tailwind: "sky-800", css: "hsl(201 90% 27%)" } },
        ColorRole { role: "badge-success-bg", color: Color { name: "badge-success-bg", tailwind: "emerald-950", css: "hsl(166 88% 8%)" } },
        ColorRole { role: "badge-success-text", color: Color { name: "badge-success-text", tailwind: "emerald-300", css: "hsl(156 72% 67%)" } },
        ColorRole { role: "badge-success-border", color: Color { name: "badge-success-border", tailwind: "emerald-800", css: "hsl(163 88% 20%)" } },
        ColorRole { role: "badge-warning-bg", color: Color { name: "badge-warning-bg", tailwind: "amber-950", css: "hsl(20 91% 14%)" } },
        ColorRole { role: "badge-warning-text", color: Color { name: "badge-warning-text", tailwind: "amber-300", css: "hsl(46 97% 65%)" } },
        ColorRole { role: "badge-warning-border", color: Color { name: "badge-warning-border", tailwind: "amber-800", css: "hsl(23 83% 31%)" } },
        ColorRole { role: "badge-danger-bg", color: Color { name: "badge-danger-bg", tailwind: "rose-950", css: "hsl(343 88% 12%)" } },
        ColorRole { role: "badge-danger-text", color: Color { name: "badge-danger-text", tailwind: "rose-300", css: "hsl(352 96% 79%)" } },
        ColorRole { role: "badge-danger-border", color: Color { name: "badge-danger-border", tailwind: "rose-800", css: "hsl(343 80% 27%)" } },
        ColorRole { role: "badge-accent-bg", color: Color { name: "badge-accent-bg", tailwind: "indigo-950", css: "hsl(232 62% 16%)" } },
        ColorRole { role: "badge-accent-text", color: Color { name: "badge-accent-text", tailwind: "indigo-300", css: "hsl(230 94% 77%)" } },
        ColorRole { role: "badge-accent-border", color: Color { name: "badge-accent-border", tailwind: "indigo-800", css: "hsl(232 70% 30%)" } },
    ]
}

/// Position of the first entry of `table` whose role is `role`;
/// `table.len()` when no entry carries it.
pub open spec fn position(table: Seq<ColorRole>, role: Seq<char>) -> nat
    decreases table.len(),
{
    if table.len() == 0 {
        0
    } else if table[0].role@ == role {
        0
    } else {
        1 + position(table.skip(1), role)
    }
}

/// The entry of `table` for `role`: the first one that carries it.
pub open spec fn lookup(table: Seq<ColorRole>, role: Seq<char>) -> Option<ColorRole> {
    if position(table, role) < table.len() {
        Some(table[position(table, role) as int])
    } else {
        None
    }
}

/// `position` lands on the first entry carrying the role, or past the end
/// when none does.
pub proof fn position_is_first(table: Seq<ColorRole>, role: Seq<char>)
    ensures
        position(table, role) <= table.len(),
        position(table, role) < table.len() ==> table[position(table, role) as int].role@ == role,
        forall|j: int| 0 <= j < position(table, role) ==> table[j].role@ != role,
    decreases table.len(),
{
    if table.len() > 0 && table[0].role@ != role {
        position_is_first(table.skip(1), role);
        assert forall|j: int| 0 <= j < position(table, role) implies table[j].role@ != role by {
            if j > 0 {
                assert(table[j] == table.skip(1)[j - 1]);
            }
        }
    }
}

fn find_role(table: &Vec<ColorRole>, role: &str) -> (r: Option<ColorRole>)
    ensures
        r == lookup(table@, role@),
{
    proof {
        position_is_first(table@, role@);
    }
    let mut i: usize = 0;
    while i < table.len()
        invariant
            i <= table.len(),
            forall|j: int| 0 <= j < i ==> table@[j].role@ != role@,
            position(table@, role@) <= table@.len(),
            position(table@, role@) < table@.len() ==> table@[position(table@, role@) as int].role@ == role@,
            forall|j: int| 0 <= j < position(table@, role@) ==> table@[j].role@ != role@,
        decreases table.len() - i,
    {
        if str_eq(table[i].role, role) {
            assert(position(table@, role@) == i);
            return Some(table[i]);
        }
        i = i + 1;
    }
    assert(position(table@, role@) == table@.len());
    None
}

/// Two tables that carry the same roles in the same order place every role
/// at the same position.
pub proof fn same_roles_same_position(a: Seq<ColorRole>, b: Seq<ColorRole>, role: Seq<char>)
    requires
        a.len() == b.len(),
        forall|i: int| 0 <= i < a.len() ==> #[trigger] a[i].role == b[i].role,
    ensures
        position(a, role) == position(b, role),
    decreases a.len(),
{
    if a.len() > 0 {
        assert(a[0].role == b[0].role);
        assert forall|i: int| 0 <= i < a.skip(1).len() implies #[trigger] a.skip(1)[i].role == b.skip(1)[i].role by {
            assert(a[i + 1].role == b[i + 1].role);
        }
        same_roles_same_position(a.skip(1), b.skip(1), role);
    }
}

/// Value of a hexadecimal digit.
pub open spec fn hex_digit(c: char) -> Option<nat> {
    if '0' <= c <= '9' {
        Some((c as nat - '0' as nat) as nat)
    } else if 'a' <= c <= 'f' {
        Some((c as nat - 'a' as nat + 10) as nat)
    } else if 'A' <= c <= 'F' {
        Some((c as nat - 'A' as nat + 10) as nat)
    } else {
        None
    }
}

/// Value of a two-digit hexadecimal byte.
pub open spec fn hex_pair(a: char, b: char) -> Option<nat> {
    match (hex_digit(a), hex_digit(b)) {
        (Some(x), Some(y)) => Some(16 * x + y),
        _ => None,
    }
}

/// The RGB triple of a hex color body: exactly 3, 6 or 8 hexadecimal
/// digits (`rgb`, `rrggbb` or `rrggbbaa`; alpha is checked and ignored).
/// `None` for any other shape.
pub open spec fn parse_hex_spec(h: Seq<char>) -> Option<(u8, u8, u8)> {
    if h.len() == 8 && (hex_digit(h[6]) is None || hex_digit(h[7]) is None) {
        None
    } else if h.len() == 3 {
        match (hex_digit(h[0]), hex_digit(h[1]), hex_digit(h[2])) {
            (Some(r), Some(g), Some(b)) => Some(((17 * r) as u8, (17 * g) as u8, (17 * b) as u8)),
            _ => None,
        }
    } else if h.len() == 6 || h.len() == 8 {
        match (hex_pair(h[0], h[1]), hex_pair(h[2], h[3]), hex_pair(h[4], h[5])) {
            (Some(r), Some(g), Some(b)) => Some((r as u8, g as u8, b as u8)),
            _ => None,
        }
    } else {
        None
    }
}

/// Shape of a CSS color string, read after trimming whitespace.
#[derive(Debug, Clone, PartialEq, Eq)]
pub enum CssColorShape {
    /// `#…` — the parsed hex body (`None` when the body is malformed).
    Hex(Option<(u8, u8, u8)>),
    /// `hsl(…)` — the text between the parentheses.
    Hsl(String),
    /// Any other shape.
    Unrecognized,
}

/// Spec view of [`CssColorShape`].
pub enum CssColorShapeView {
    /// Parsed hex body.
    Hex(Option<(u8, u8, u8)>),
    /// Inner text of `hsl(…)`.
    Hsl(Seq<char>),
    /// Any other shape.
    Unrecognized,
}

impl View for CssColorShape {
    type V = CssColorShapeView;

    open spec fn view(&self) -> CssColorShapeView {
        match self {
            CssColorShape::Hex(x) => CssColorShapeView::Hex(*x),
            CssColorShape::Hsl(s) => CssColorShapeView::Hsl(s@),
            CssColorShape::Unrecognized => CssColorShapeView::Unrecognized,
        }
    }
}

/// How a CSS color string is read: trimmed, then `#` + hex body, or
/// `hsl(` … `)`, or nothing recognised.
pub open spec fn css_color_shape_spec(s: Seq<char>) -> CssColorShapeView {
    let t = trim(s);
    if t.len() > 0 && t[0] == '#' {
        CssColorShapeView::Hex(parse_hex_spec(t.skip(1)))
    } else if t.len() >= 5 && t[0] == 'h' && t[1] == 's' && t[2] == 'l' && t[3] == '(' && t.last() == ')' {
        CssColorShapeView::Hsl(t.subrange(4, t.len() - 1))
    } else {
        CssColorShapeView::Unrecognized
    }
}

fn hex_digit_exec(c: char) -> (r: Option<u32>)
    ensures
        r matches Some(v) ==> hex_digit(c) == Some(v as nat) && v < 16,
        r is None ==> hex_digit(c) is None,
{
    if '0' <= c && c <= '9' {
        Some(c as u32 - '0' as u32)
    } else if 'a' <= c && c <= 'f' {
        Some(c as u32 - 'a' as u32 + 10)
    } else if 'A' <= c && c <= 'F' {
        Some(c as u32 - 'A' as u32 + 10)
    } else {
        None
    }
}

fn hex_pair_exec(a: char, b: char) -> (r: Option<u8>)
    ensures
        r matches Some(v) ==> hex_pair(a, b) == Some(v as nat),
        r is None ==> hex_pair(a, b) is None,
{
    match (hex_digit_exec(a), hex_digit_exec(b)) {
        (Some(x), Some(y)) => Some((16 * x + y) as u8),
        _ => None,
    }
}

/// Parse a hex color body (without the `#`): `rgb`, `rrggbb` or
/// `rrggbbaa` (alpha ignored). `None` for any other shape.
pub fn parse_hex(hex: &str) -> (r: Option<(u8, u8, u8)>)
    ensures
        r == parse_hex_spec(hex@),
{
    let h = chars_of(hex);
    if h.len() == 8 && (hex_digit_exec(h[6]).is_none() || hex_digit_exec(h[7]).is_none()) {
        return None;
    }
    if h.len() == 3 {
        match (hex_digit_exec(h[0]), hex_digit_exec(h[1]), hex_digit_exec(h[2])) {
            (Some(r), Some(g), Some(b)) => Some(((17 * r) as u8, (17 * g) as u8, (17 * b) as u8)),
            _ => None,
        }
    } else if h.len() == 6 || h.len() == 8 {
        match (hex_pair_exec(h[0], h[1]), hex_pair_exec(h[2], h[3]), hex_pair_exec(h[4], h[5])) {
            (Some(r), Some(g), Some(b)) => Some((r, g, b)),
            _ => None,
        }
    } else {
        None
    }
}

/// Read the shape of a CSS color string (see [`css_color_shape_spec`]).
#[verifier::spinoff_prover]
pub fn css_color_shape(s: &str) -> (r: CssColorShape)
    ensures
        r@ == css_color_shape_spec(s@),
{
    let v = chars_of(s);
    let (lo, hi) = trim_bounds(&v, 0, v.len());
    assert(v@.subrange(0, v@.len() as int) =~= s@);
    let ghost t = v@.subrange(lo as int, hi as int);
    if hi > lo && v[lo] == '#' {
        let body = string_from_range(&v, lo + 1, hi);
        assert(t.skip(1) =~= v@.subrange(lo + 1, hi as int));
        CssColorShape::Hex(parse_hex(body.as_str()))
    } else if hi - lo >= 5 && v[lo] == 'h' && v[lo + 1] == 's' && v[lo + 2] == 'l' && v[lo + 3] == '('
        && v[hi - 1] == ')' {
        let inner = string_from_range(&v, lo + 4, hi - 1);
        assert(t.subrange(4, t.len() - 1) =~= v@.subrange(lo + 4, hi - 1));
        CssColorShape::Hsl(inner)
    } else {
        CssColorShape::Unrecognized
    }
}


/// A separator between the fields of an `hsl(…)` body: a comma or
/// whitespace.
pub open spec fn hsl_sep(c: char) -> bool {
    c == ',' || is_ws(c)
}

/// The fields completed so far in `s`, and the field being read.
pub open spec fn hsl_fields_state(s: Seq<char>) -> (Seq<Seq<char>>, Seq<char>)
    decreases s.len(),
{
    if s.len() == 0 {
        (Seq::empty(), Seq::empty())
    } else {
        let (done, cur) = hsl_fields_state(s.drop_last());
        if hsl_sep(s.last()) {
            if cur.len() > 0 {
                (done.push(cur), Seq::empty())
            } else {
                (done, cur)
            }
        } else {
            (done, cur.push(s.last()))
        }
    }
}

/// The non-empty runs of `s` between commas and whitespace.
pub open spec fn hsl_field_list(s: Seq<char>) -> Seq<Seq<char>> {
    let (done, cur) = hsl_fields_state(s);
    if cur.len() > 0 {
        done.push(cur)
    } else {
        done
    }
}

/// `s` without its trailing `%` signs (`trim_end_matches('%')`).
pub open spec fn strip_percent(s: Seq<char>) -> Seq<char>
    decreases s.len(),
{
    if s.len() > 0 && s.last() == '%' {
        strip_percent(s.drop_last())
    } else {
        s
    }
}

/// The hue, saturation and lightness texts of an `hsl(…)` body: its
/// first three fields, the last two without trailing `%` signs; `None`
/// with fewer than three fields.
pub open spec fn hsl_fields_spec(inner: Seq<char>) -> Option<(Seq<char>, Seq<char>, Seq<char>)> {
    let f = hsl_field_list(inner);
    if f.len() < 3 {
        None
    } else {
        Some((f[0], strip_percent(f[1]), strip_percent(f[2])))
    }
}

/// The fields of `s` (see [`hsl_field_list`]).
fn split_hsl_fields(s: &str) -> (r: Vec<Vec<char>>)
    ensures
        r@.map_values(|f: Vec<char>| f@) == hsl_field_list(s@),
{
    let v = chars_of(s);
    let mut out: Vec<Vec<char>> = Vec::new();
    let mut cur: Vec<char> = Vec::new();
    let mut i: usize = 0;
    assert(v@.take(0) =~= Seq::<char>::empty());
    while i < v.len()
        invariant
            i <= v@.len(),
            v@ == s@,
            hsl_fields_state(v@.take(i as int)).0 == out@.map_values(|f: Vec<char>| f@),
            hsl_fields_state(v@.take(i as int)).1 == cur@,
        decreases v.len() - i,
    {
        assert(v@.take(i + 1).drop_last() =~= v@.take(i as int));
        let c = v[i];
        if c == ',' || is_whitespace(c) {
            if cur.len() > 0 {
                let ghost before = out@;
                let ghost cv = cur@;
                out.push(cur);
                assert(out@.map_values(|f: Vec<char>| f@) =~= before.map_values(|f: Vec<char>| f@).push(
                    cv,
                ));
                cur = Vec::new();
            }
        } else {
            cur.push(c);
        }
        i = i + 1;
    }
    assert(v@.take(i as int) =~= v@);
    if cur.len() > 0 {
        let ghost before = out@;
        let ghost cv = cur@;
        out.push(cur);
        assert(out@.map_values(|f: Vec<char>| f@) =~= before.map_values(|f: Vec<char>| f@).push(cv));
    }
    out
}

/// `v` without its trailing `%` signs, as a string.
fn strip_percent_exec(v: &Vec<char>) -> (r: String)
    ensures
        r@ == strip_percent(v@),
{
    let mut n = v.len();
    assert(v@.take(n as int) =~= v@);
    while n > 0 && v[n - 1] == '%'
        invariant
            n <= v@.len(),
            strip_percent(v@) == strip_percent(v@.take(n as int)),
        decreases n,
    {
        assert(v@.take(n as int).drop_last() =~= v@.take(n - 1));
        n = n - 1;
    }
    assert(v@.subrange(0, n as int) =~= v@.take(n as int));
    string_from_range(v, 0, n)
}

/// The hue, saturation and lightness texts of an `hsl(…)` body (see
/// [`hsl_fields_spec`]).
pub fn hsl_fields(inner: &str) -> (r: Option<(String, String, String)>)
    ensures
        match r {
            Some((h, s, l)) => hsl_fields_spec(inner@) == Some((h@, s@, l@)),
            None => hsl_fields_spec(inner@) is None,
        },
{
    let f = split_hsl_fields(inner);
    let ghost fv = f@.map_values(|x: Vec<char>| x@);
    if f.len() < 3 {
        return None;
    }
    assert(fv[0] == f@[0]@ && fv[1] == f@[1]@ && fv[2] == f@[2]@);
    let h = string_from_range(&f[0], 0, f[0].len());
    assert(f@[0]@.subrange(0, f@[0]@.len() as int) =~= f@[0]@);
    let s = strip_percent_exec(&f[1]);
    let l = strip_percent_exec(&f[2]);
    Some((h, s, l))
}

impl Color {
    /// The shape of this color's CSS string.
    pub fn css_shape(&self) -> (r: CssColorShape)
        ensures
            r@ == css_color_shape_spec(self.css@),
    {
        css_color_shape(self.css)
    }
}

impl ColorRole {
    /// Every defined light role. Order is stable; new roles append at the end.
    pub fn all() -> (r: Vec<ColorRole>)
        ensures
            r@ == light_palette(),
    {
        vec![
            ColorRole { role: "primary", color: Color { name: "primary", tailwind: "primary", css: "hsl(220 90% 28%)" } },
            ColorRole { role: "primary-fg", color: Color { name: "primary-fg", tailwind: "primary-foreground", css: "#ffffff" } },
            ColorRole { role: "surface", color: Color { name: "surface", tailwind: "white", css: "#ffffff" } },
            ColorRole { role: "surface-muted", color: Color { name: "surface-muted", tailwind: "slate-100", css: "hsl(214 32% 95%)" } },
            ColorRole { role: "ink", color: Color { name: "ink", tailwind: "slate-900", css: "hsl(222 47% 11%)" } },
            ColorRole { role: "ink-muted", color: Color { name: "ink-muted", tailwind: "slate-700", css: "hsl(215 25% 38%)" } },
            ColorRole { role: "border", color: Color { name: "border", tailwind: "slate-300", css: "hsl(214 32% 80%)" } },
            ColorRole { role: "danger", color: Color { name: "danger", tailwind: "red-600", css: "hsl(0 72% 51%)" } },
            ColorRole { role: "success", color: Color { name: "success", tailwind: "emerald-600", css: "hsl(160 84% 30%)" } },
            ColorRole { role: "warn", color: Color { name: "warn", tailwind: "amber-600", css: "hsl(28 80% 50%)" } },
            ColorRole { role: "warn-bg", color: Color { name: "warn-bg", tailwind: "amber-50", css: "hsl(40 90% 93%)" } },
            ColorRole { role: "tier-medium", color: Color { name: "tier-medium", tailwind: "yellow-500", css: "hsl(50 80% 56%)" } },
            ColorRole { role: "border-strong", color: Color { name: "border-strong", tailwind: "slate-300", css: "hsl(212 16% 82%)" } },
            ColorRole { role: "accent-soft", color: Color { name: "accent-soft", tailwind: "blue-200", css: "hsl(220 75% 80%)" } },
            ColorRole { role: "accent-glow", color: Color { name: "accent-glow", tailwind: "blue-100", css: "hsl(220 75% 90%)" } },
            ColorRole { role: "gradient-a", color: Color { name: "gradient-a", tailwind: "blue-500", css: "hsl(218 78% 56%)" } },
            ColorRole { role: "gradient-b", color: Color { name: "gradient-b", tailwind: "purple-500", css: "hsl(269 65% 57%)" } },
            ColorRole { role: "bg-canvas", color: Color { name: "bg-canvas", tailwind: "slate-100", css: "hsl(225 33% 99%)" } },
            ColorRole { role: "bg-overlay", color: Color { name: "bg-overlay", tailwind: "slate-200", css: "hsl(220 28% 95%)" } },
            ColorRole { role: "bg", color: Color { name: "bg", tailwind: "white", css: "#ffffff" } },
            ColorRole { role: "text", color: Color { name: "text", tailwind: "slate-900", css: "hsl(222 47% 11%)" } },
            ColorRole { role: "muted", color: Color { name: "muted", tailwind: "slate-500", css: "hsl(215 16% 47%)" } },
            ColorRole { role: "accent-2", color: Color { name: "accent-2", tailwind: "indigo-500", css: "hsl(239 84% 67%)" } },
            ColorRole { role: "focus", color: Color { name: "focus", tailwind: "blue-500", css: "hsl(217 91% 60%)" } },
            ColorRole { role: "on-primary", color: Color { name: "on-primary", tailwind: "white", css: "#ffffff" } },
            ColorRole { role: "on-dark", color: Color { name: "on-dark", tailwind: "white", css: "#ffffff" } },
            ColorRole { role: "primary-hover", color: Color { name: "primary-hover", tailwind: "primary-700", css: "hsl(220 90% 22%)" } },
            ColorRole { role: "hero-bg", color: Color { name: "hero-bg", tailwind: "transparent", css: "transparent" } },
            ColorRole { role: "quote-bg", color: Color { name: "quote-bg", tailwind: "transparent", css: "transparent" } },
            ColorRole { role: "quote-text", color: Color { name: "quote-text", tailwind: "slate-700", css: "hsl(215 25% 27%)" } },
            ColorRole { role: "code-bg", color: Color { name: "code-bg", tailwind: "slate-100", css: "hsl(214 32% 95%)" } },
            ColorRole { role: "code-text", color: Color { name: "code-text", tailwind: "slate-900", css: "hsl(222 47% 11%)" } },
            ColorRole { role: "table-stripe", color: Color { name: "table-stripe", tailwind: "slate-50", css: "hsl(210 40% 98%)" } },
            ColorRole { role: "progress-track", color: Color { name: "progress-track", tailwind: "slate-200", css: "hsl(214 32% 91%)" } },
            ColorRole { role: "avatar-bg", color: Color { name: "avatar-bg", tailwind: "slate-200", css: "hsl(214 32% 91%)" } },
            ColorRole { role: "avatar-text", color: Color { name: "avatar-text", tailwind: "slate-700", css: "hsl(215 25% 27%)" } },
            ColorRole { role: "kbd-bg", color: Color { name: "kbd-bg", tailwind: "slate-100", css: "hsl(214 32% 95%)" } },
            ColorRole { role: "kbd-text", color: Color { name: "kbd-text", tailwind: "slate-700", css: "hsl(215 25% 27%)" } },
            ColorRole { role: "kbd-border", color: Color { name: "kbd-border", tailwind: "slate-300", css: "hsl(213 27% 84%)" } },
            ColorRole { role: "trend-up", color: Color { name: "trend-up", tailwind: "emerald-600", css: "hsl(158 64% 39%)" } },
            ColorRole { role: "trend-down", color: Color { name: "trend-down", tailwind: "rose-600", css: "hsl(347 77% 49%)" } },
            ColorRole { role: "stepper-done", color: Color { name: "stepper-done", tailwind: "emerald-600", css: "hsl(158 64% 39%)" } },
            ColorRole { role: "stepper-done-bg", color: Color { name: "stepper-done-bg", tailwind: "emerald-50", css: "hsl(152 81% 96%)" } },
            ColorRole { role: "stepper-current", color: Color { name: "stepper-current", tailwind: "blue-600", css: "hsl(221 83% 53%)" } },
            ColorRole { role: "stepper-current-bg", color: Color { name: "stepper-current-bg", tailwind: "blue-50", css: "hsl(214 100% 97%)" } },
            ColorRole { role: "badge-neutral-bg", color: Color { name: "badge-neutral-bg", tailwind: "slate-100", css: "hsl(214 32% 95%)" } },
            ColorRole { role: "badge-neutral-text", color: Color { name: "badge-neutral-text", tailwind: "slate-700", css: "hsl(215 25% 27%)" } },
            ColorRole { role: "badge-neutral-border", color: Color { name: "badge-neutral-border", tailwind: "slate-300", css: "hsl(213 27% 84%)" } },
            ColorRole { role: "badge-info-bg", color: Color { name: "badge-info-bg", tailwind: "sky-100", css: "hsl(204 94% 94%)" } },
            ColorRole { role: "badge-info-text", color: Color { name: "badge-info-text", tailwind: "sky-700", css: "hsl(201 90% 35%)" } },
            ColorRole { role: "badge-info-border", color: Color { name: "badge-info-border", tailwind: "sky-300", css: "hsl(199 95% 74%)" } },
            ColorRole { role: "badge-success-bg", color: Color { name: "badge-success-bg", tailwind: "emerald-100", css: "hsl(149 80% 90%)" } },
            ColorRole { role: "badge-success-text", color: Color { name: "badge-success-text", tailwind: "emerald-700", css: "hsl(158 64% 30%)" } },
            ColorRole { role: "badge-success-border", color: Color { name: "badge-success-border", tailwind: "emerald-300", css: "hsl(156 72% 67%)" } },
            ColorRole { role: "badge-warning-bg", color: Color { name: "badge-warning-bg", tailwind: "amber-100", css: "hsl(48 96% 89%)" } },
            ColorRole { role: "badge-warning-text", color: Color { name: "badge-warning-text", tailwind: "amber-800", css: "hsl(23 83% 31%)" } },
            ColorRole { role: "badge-warning-border", color: Color { name: "badge-warning-border", tailwind: "amber-300", css: "hsl(46 97% 65%)" } },
            ColorRole { role: "badge-danger-bg", color: Color { name: "badge-danger-bg", tailwind: "rose-100", css: "hsl(356 100% 94%)" } },
            ColorRole { role: "badge-danger-text", color: Color { name: "badge-danger-text", tailwind: "rose-700", css: "hsl(345 83% 41%)" } },
            ColorRole { role: "badge-danger-border", color: Color { name: "badge-danger-border", tailwind: "rose-300", css: "hsl(352 96% 79%)" } },
            ColorRole { role: "badge-accent-bg", color: Color { name: "badge-accent-bg", tailwind: "indigo-100", css: "hsl(226 100% 94%)" } },
            ColorRole { role: "badge-accent-text", color: Color { name: "badge-accent-text", tailwind: "indigo-700", css: "hsl(229 76% 40%)" } },
            ColorRole { role: "badge-accent-border", color: Color { name: "badge-accent-border", tailwind: "indigo-300", css: "hsl(230 94% 77%)" } },
        ]
    }

    /// Look up a light role by name. `None` for unknown roles.
    pub fn by_name(role: &str) -> (r: Option<ColorRole>)
        ensures
            r == lookup(light_palette(), role@),
    {
        let t = Self::all();
        find_role(&t, role)
    }

    /// Dark-theme parallel of [`ColorRole::all`]: same role names, same
    /// order; the `color` field carries the dark resolution.
    pub fn dark_all() -> (r: Vec<ColorRole>)
        ensures
            r@ == dark_palette(),
    {
        vec![
            ColorRole { role: "primary", color: Color { name: "primary", tailwind: "primary", css: "hsl(220 90% 65%)" } },
            ColorRole { role: "primary-fg", color: Color { name: "primary-fg", tailwind: "slate-950", css: "hsl(222 47% 6%)" } },
            ColorRole { role: "surface", color: Color { name: "surface", tailwind: "slate-950", css: "hsl(222 47% 6%)" } },
            ColorRole { role: "surface-muted", color: Color { name: "surface-muted", tailwind: "slate-900", css: "hsl(222 47% 11%)" } },
            ColorRole { role: "ink", color: Color { name: "ink", tailwind: "slate-50", css: "hsl(210 40% 98%)" } },
            ColorRole { role: "ink-muted", color: Color { name: "ink-muted", tailwind: "slate-300", css: "hsl(215 20% 78%)" } },
            ColorRole { role: "border", color: Color { name: "border", tailwind: "slate-800", css: "hsl(217 33% 18%)" } },
            ColorRole { role: "danger", color: Color { name: "danger", tailwind: "red-400", css: "hsl(0 72% 65%)" } },
            ColorRole { role: "success", color: Color { name: "success", tailwind: "emerald-400", css: "hsl(160 84% 55%)" } },
            ColorRole { role: "warn", color: Color { name: "warn", tailwind: "amber-400", css: "hsl(33 100% 66%)" } },
            ColorRole { role: "warn-bg", color: Color { name: "warn-bg", tailwind: "amber-950", css: "hsl(33 50% 16%)" } },
            ColorRole { role: "tier-medium", color: Color { name: "tier-medium", tailwind: "yellow-400", css: "hsl(50 75% 65%)" } },
            ColorRole { role: "border-strong", color: Color { name: "border-strong", tailwind: "slate-700", css: "hsl(218 22% 30%)" } },
            ColorRole { role: "accent-soft", color: Color { name: "accent-soft", tailwind: "blue-700", css: "hsl(222 41% 47%)" } },
            ColorRole { role: "accent-glow", color: Color { name: "accent-glow", tailwind: "blue-200", css: "hsl(220 100% 85%)" } },
            ColorRole { role: "gradient-a", color: Color { name: "gradient-a", tailwind: "blue-400", css: "hsl(218 83% 65%)" } },
            ColorRole { role: "gradient-b", color: Color { name: "gradient-b", tailwind: "purple-400", css: "hsl(272 84% 65%)" } },
            ColorRole { role: "bg-canvas", color: Color { name: "bg-canvas", tailwind: "slate-950", css: "hsl(220 33% 6%)" } },
            ColorRole { role: "bg-overlay", color: Color { name: "bg-overlay", tailwind: "slate-800", css: "hsl(220 24% 20%)" } },
            ColorRole { role: "bg", color: Color { name: "bg", tailwind: "slate-950", css: "hsl(220 33% 6%)" } },
            ColorRole { role: "text", color: Color { name: "text", tailwind: "slate-100", css: "hsl(210 40% 96%)" } },
            ColorRole { role: "muted", color: Color { name: "muted", tailwind: "slate-400", css: "hsl(213 27% 64%)" } },
            ColorRole { role: "accent-2", color: Color { name: "accent-2", tailwind: "indigo-400", css: "hsl(234 89% 74%)" } },
            ColorRole { role: "focus", color: Color { name: "focus", tailwind: "blue-400", css: "hsl(213 94% 68%)" } },
            ColorRole { role: "on-primary", color: Color { name: "on-primary", tailwind: "slate-950", css: "hsl(220 33% 6%)" } },
            ColorRole { role: "on-dark", color: Color { name: "on-dark", tailwind: "slate-100", css: "hsl(210 40% 96%)" } },
            ColorRole { role: "primary-hover", color: Color { name: "primary-hover", tailwind: "primary-300", css: "hsl(220 90% 70%)" } },
            ColorRole { role: "hero-bg", color: Color { name: "hero-bg", tailwind: "transparent", css: "transparent" } },
            ColorRole { role: "quote-bg", color: Color { name: "quote-bg", tailwind: "transparent", css: "transparent" } },
            ColorRole { role: "quote-text", color: Color { name: "quote-text", tailwind: "slate-300", css: "hsl(213 27% 84%)" } },
            ColorRole { role: "code-bg", color: Color { name: "code-bg", tailwind: "slate-800", css: "hsl(220 24% 20%)" } },
            ColorRole { role: "code-text", color: Color { name: "code-text", tailwind: "slate-100", css: "hsl(210 40% 96%)" } },
            ColorRole { role: "table-stripe", color: Color { name: "table-stripe", tailwind: "slate-900", css: "hsl(222 47% 11%)" } },
            ColorRole { role: "progress-track", color: Color { name: "progress-track", tailwind: "slate-800", css: "hsl(220 24% 20%)" } },
            ColorRole { role: "avatar-bg", color: Color { name: "avatar-bg", tailwind: "slate-700", css: "hsl(215 25% 27%)" } },
            ColorRole { role: "avatar-text", color: Color { name: "avatar-text", tailwind: "slate-200", css: "hsl(214 32% 91%)" } },
            ColorRole { role: "kbd-bg", color: Color { name: "kbd-bg", tailwind: "slate-800", css: "hsl(220 24% 20%)" } },
            ColorRole { role: "kbd-text", color: Color { name: "kbd-text", tailwind: "slate-200", css: "hsl(214 32% 91%)" } },
            ColorRole { role: "kbd-border", color: Color { name: "kbd-border", tailwind: "slate-700", css: "hsl(215 25% 27%)" } },
            ColorRole { role: "trend-up", color: Color { name: "trend-up", tailwind: "emerald-400", css: "hsl(158 64% 52%)" } },
            ColorRole { role: "trend-down", color: Color { name: "trend-down", tailwind: "rose-400", css: "hsl(351 95% 71%)" } },
            ColorRole { role: "stepper-done", color: Color { name: "stepper-done", tailwind: "emerald-400", css: "hsl(158 64% 52%)" } },
            ColorRole { role: "stepper-done-bg", color: Color { name: "stepper-done-bg", tailwind: "emerald-950", css: "hsl(166 88% 8%)" } },
            ColorRole { role: "stepper-current", color: Color { name: "stepper-current", tailwind: "blue-400", css: "hsl(213 94% 68%)" } },
            ColorRole { role: "stepper-current-bg", color: Color { name: "stepper-current-bg", tailwind: "blue-950", css: "hsl(229 84% 13%)" } },
            ColorRole { role: "badge-neutral-bg", color: Color { name: "badge-neutral-bg", tailwind: "slate-800", css: "hsl(220 24% 20%)" } },
            ColorRole { role: "badge-neutral-text", color: Color { name: "badge-neutral-text", tailwind: "slate-200", css: "hsl(214 32% 91%)" } },
            ColorRole { role: "badge-neutral-border", color: Color { name: "badge-neutral-border", tailwind: "slate-700", css: "hsl(215 25% 27%)" } },
            ColorRole { role: "badge-info-bg", color: Color { name: "badge-info-bg", tailwind: "sky-950", css: "hsl(204 80% 16%)" } },
            ColorRole { role: "badge-info-text", color: Color { name: "badge-info-text", tailwind: "sky-300", css: "hsl(199 95% 74%)" } },
            ColorRole { role: "badge-info-border", color: Color { name: "badge-info-border", tailwind: "sky-800", css: "hsl(201 90% 27%)" } },
            ColorRole { role: "badge-success-bg", color: Color { name: "badge-success-bg", tailwind: "emerald-950", css: "hsl(166 88% 8%)" } },
            ColorRole { role: "badge-success-text", color: Color { name: "badge-success-text", tailwind: "emerald-300", css: "hsl(156 72% 67%)" } },
            ColorRole { role: "badge-success-border", color: Color { name: "badge-success-border", tailwind: "emerald-800", css: "hsl(163 88% 20%)" } },
            ColorRole { role: "badge-warning-bg", color: Color { name: "badge-warning-bg", tailwind: "amber-950", css: "hsl(20 91% 14%)" } },
            ColorRole { role: "badge-warning-text", color: Color { name: "badge-warning-text", tailwind: "amber-300", css: "hsl(46 97% 65%)" } },
            ColorRole { role: "badge-warning-border", color: Color { name: "badge-warning-border", tailwind: "amber-800", css: "hsl(23 83% 31%)" } },
            ColorRole { role: "badge-danger-bg", color: Color { name: "badge-danger-bg", tailwind: "rose-950", css: "hsl(343 88% 12%)" } },
            ColorRole { role: "badge-danger-text", color: Color { name: "badge-danger-text", tailwind: "rose-300", css: "hsl(352 96% 79%)" } },
            ColorRole { role: "badge-danger-border", color: Color { name: "badge-danger-border", tailwind: "rose-800", css: "hsl(343 80% 27%)" } },
            ColorRole { role: "badge-accent-bg", color: Color { name: "badge-accent-bg", tailwind: "indigo-950", css: "hsl(232 62% 16%)" } },
            ColorRole { role: "badge-accent-text", color: Color { name: "badge-accent-text", tailwind: "indigo-300", css: "hsl(230 94% 77%)" } },
            ColorRole { role: "badge-accent-border", color: Color { name: "badge-accent-border", tailwind: "indigo-800", css: "hsl(232 70% 30%)" } },
        ]
    }

    /// Look up the dark-theme mapping for a role.
    pub fn dark_by_name(role: &str) -> (r: Option<ColorRole>)
        ensures
            r == lookup(dark_palette(), role@),
    {
        let t = Self::dark_all();
        find_role(&t, role)
    }
}

/// The dark palette mirrors the light palette role for role, in order.
pub proof fn dark_palette_parity()
    ensures
        dark_palette().len() == light_palette().len(),
        forall|i: int| 0 <= i < light_palette().len() ==> #[trigger] dark_palette()[i].role == light_palette()[i].role,
{
}

/// Every role's color carries the role's own name.
pub proof fn colors_are_named_after_roles()
    ensures
        forall|i: int| 0 <= i < light_palette().len() ==> #[trigger] light_palette()[i].color.name == light_palette()[i].role,
        forall|i: int| 0 <= i < dark_palette().len() ==> #[trigger] dark_palette()[i].color.name == dark_palette()[i].role,
{
}

/// A role is found in the light palette exactly when it is found in the
/// dark palette, at the same position.
pub proof fn lookups_agree_across_themes(role: Seq<char>)
    ensures
        position(light_palette(), role) == position(dark_palette(), role),
        lookup(light_palette(), role) is Some <==> lookup(dark_palette(), role) is Some,
{
    dark_palette_parity();
    same_roles_same_position(light_palette(), dark_palette(), role);
}

} // verus!
