//! Token emitters: every token as CSS custom properties, and as a Rust
//! constant block for egui apps.

use vstd::prelude::*;
use crate::text::{decimal, push_decimal, push_str, replace_all, replace_str};
use super::color::{ColorRole, light_palette, dark_palette};
use super::scale::{Spacing, Breakpoint, FontSize};
use super::radius::Radius;

verus! {

/// `  --loom-color-<role>: <css>;` and a newline.
pub open spec fn css_color_line(r: ColorRole) -> Seq<char> {
    "  --loom-color-"@ + r.role@ + ": "@ + r.color.css@ + ";\n"@
}

/// The color lines of a palette, in order.
pub open spec fn css_color_lines(roles: Seq<ColorRole>) -> Seq<char>
    decreases roles.len(),
{
    if roles.len() == 0 {
        Seq::empty()
    } else {
        css_color_lines(roles.drop_last()) + css_color_line(roles.last())
    }
}

/// `  --loom-space-<step>: <rem>rem;` and a newline.
pub open spec fn css_space_line(s: Spacing) -> Seq<char> {
    "  --loom-space-"@ + decimal(s.step()) + ": "@ + s.rem_text_spec() + "rem;\n"@
}

/// The spacing lines, in order.
pub open spec fn css_space_lines(s: Seq<Spacing>) -> Seq<char>
    decreases s.len(),
{
    if s.len() == 0 {
        Seq::empty()
    } else {
        css_space_lines(s.drop_last()) + css_space_line(s.last())
    }
}

/// `  --loom-break-<bp>: <px>px;` and a newline.
pub open spec fn css_break_line(b: Breakpoint) -> Seq<char> {
    "  --loom-break-"@ + b.tailwind_spec() + ": "@ + decimal(b.px_spec() as nat) + "px;\n"@
}

/// The breakpoint lines, in order.
pub open spec fn css_break_lines(s: Seq<Breakpoint>) -> Seq<char>
    decreases s.len(),
{
    if s.len() == 0 {
        Seq::empty()
    } else {
        css_break_lines(s.drop_last()) + css_break_line(s.last())
    }
}

/// `  --loom-font-<size>: <css>;` and a newline.
pub open spec fn css_font_line(f: FontSize) -> Seq<char> {
    "  --loom-font-"@ + f.tailwind_spec() + ": "@ + f.css_size_spec() + ";\n"@
}

/// The font-size lines, in order.
pub open spec fn css_font_lines(s: Seq<FontSize>) -> Seq<char>
    decreases s.len(),
{
    if s.len() == 0 {
        Seq::empty()
    } else {
        css_font_lines(s.drop_last()) + css_font_line(s.last())
    }
}

/// `  --loom-radius-<step>: <css>;` and a newline.
pub open spec fn css_radius_line(r: Radius) -> Seq<char> {
    "  --loom-radius-"@ + r.tailwind_spec() + ": "@ + r.css_size_spec() + ";\n"@
}

/// The radius lines, in order.
pub open spec fn css_radius_lines(s: Seq<Radius>) -> Seq<char>
    decreases s.len(),
{
    if s.len() == 0 {
        Seq::empty()
    } else {
        css_radius_lines(s.drop_last()) + css_radius_line(s.last())
    }
}

/// The whole CSS token sheet.
pub open spec fn tokens_css_spec() -> Seq<char> {
    "/* Generated by loom-tokens — do NOT edit by hand.\n"@
        + " * Re-emit via `loom css > path/to/loom-tokens.css`.\n */\n\n"@ + ":root {\n"@
        + css_color_lines(light_palette()) + css_space_lines(Spacing::all_spec())
        + css_break_lines(Breakpoint::all_spec()) + css_font_lines(FontSize::all_spec())
        + css_radius_lines(Radius::all_spec()) + "}\n\n"@ + ":root[data-theme=\"dark\"] {\n"@
        + css_color_lines(dark_palette()) + "}\n"@
        + "\n/* Substrate utility classes (CSP-safe alternative to inline padding) */\n"@
        + ".loom-shell {\n"@ + "  padding-left: 4rem;\n"@ + "  padding-right: 4rem;\n"@ + "}\n"@
        + "@media (max-width: 768px) {\n"@ + "  .loom-shell {\n"@ + "    padding-left: 1rem;\n"@
        + "    padding-right: 1rem;\n"@ + "  }\n"@ + "}\n"@
}

fn push_color_lines(out: &mut String, roles: &Vec<ColorRole>)
    ensures
        final(out)@ == old(out)@ + css_color_lines(roles@),
{
    let ghost start = out@;
    let mut i: usize = 0;
    while i < roles.len()
        invariant
            i <= roles.len(),
            out@ == start + css_color_lines(roles@.take(i as int)),
        decreases roles.len() - i,
    {
        let r = roles[i];
        push_str(out, "  --loom-color-");
        push_str(out, r.role);
        push_str(out, ": ");
        push_str(out, r.color.css);
        push_str(out, ";\n");
        assert(roles@.take(i + 1).drop_last() =~= roles@.take(i as int));
        assert(out@ =~= start + css_color_lines(roles@.take(i + 1)));
        i = i + 1;
    }
    assert(roles@.take(roles.len() as int) =~= roles@);
}

/// Emit every token as CSS custom properties under `:root` and
/// `:root[data-theme="dark"]`, followed by the substrate utility classes.
pub fn tokens_css() -> (r: String)
    ensures
        r@ == tokens_css_spec(),
{
    let mut out = String::new();
    push_str(&mut out, "/* Generated by loom-tokens — do NOT edit by hand.\n");
    push_str(&mut out, " * Re-emit via `loom css > path/to/loom-tokens.css`.\n */\n\n");
    push_str(&mut out, ":root {\n");
    let light = ColorRole::all();
    push_color_lines(&mut out, &light);
    let sp = Spacing::all();
    let ghost s0 = out@;
    let mut i: usize = 0;
    while i < sp.len()
        invariant
            i <= sp.len(),
            sp@ == Spacing::all_spec(),
            out@ == s0 + css_space_lines(sp@.take(i as int)),
        decreases sp.len() - i,
    {
        let s = sp[i];
        push_str(&mut out, "  --loom-space-");
        push_str(&mut out, s.tailwind());
        push_str(&mut out, ": ");
        push_str(&mut out, s.rem_text());
        push_str(&mut out, "rem;\n");
        assert(sp@.take(i + 1).drop_last() =~= sp@.take(i as int));
        assert(out@ =~= s0 + css_space_lines(sp@.take(i + 1)));
        i = i + 1;
    }
    assert(sp@.take(sp.len() as int) =~= sp@);
    let bp = Breakpoint::all();
    let ghost s1 = out@;
    let mut i: usize = 0;
    while i < bp.len()
        invariant
            i <= bp.len(),
            bp@ == Breakpoint::all_spec(),
            out@ == s1 + css_break_lines(bp@.take(i as int)),
        decreases bp.len() - i,
    {
        let b = bp[i];
        push_str(&mut out, "  --loom-break-");
        push_str(&mut out, b.tailwind());
        push_str(&mut out, ": ");
        push_decimal(&mut out, b.px() as u64);
        push_str(&mut out, "px;\n");
        assert(bp@.take(i + 1).drop_last() =~= bp@.take(i as int));
        assert(out@ =~= s1 + css_break_lines(bp@.take(i + 1)));
        i = i + 1;
    }
    assert(bp@.take(bp.len() as int) =~= bp@);
    let fs = FontSize::all();
    let ghost s2 = out@;
    let mut i: usize = 0;
    while i < fs.len()
        invariant
            i <= fs.len(),
            fs@ == FontSize::all_spec(),
            out@ == s2 + css_font_lines(fs@.take(i as int)),
        decreases fs.len() - i,
    {
        let f = fs[i];
        push_str(&mut out, "  --loom-font-");
        push_str(&mut out, f.tailwind());
        push_str(&mut out, ": ");
        push_str(&mut out, f.css_size());
        push_str(&mut out, ";\n");
        assert(fs@.take(i + 1).drop_last() =~= fs@.take(i as int));
        assert(out@ =~= s2 + css_font_lines(fs@.take(i + 1)));
        i = i + 1;
    }
    assert(fs@.take(fs.len() as int) =~= fs@);
    let rs = Radius::all();
    let ghost s3 = out@;
    let mut i: usize = 0;
    while i < rs.len()
        invariant
            i <= rs.len(),
            rs@ == Radius::all_spec(),
            out@ == s3 + css_radius_lines(rs@.take(i as int)),
        decreases rs.len() - i,
    {
        let r = rs[i];
        push_str(&mut out, "  --loom-radius-");
        push_str(&mut out, r.tailwind());
        push_str(&mut out, ": ");
        push_str(&mut out, r.css_size());
        push_str(&mut out, ";\n");
        assert(rs@.take(i + 1).drop_last() =~= rs@.take(i as int));
        assert(out@ =~= s3 + css_radius_lines(rs@.take(i + 1)));
        i = i + 1;
    }
    assert(rs@.take(rs.len() as int) =~= rs@);
    push_str(&mut out, "}\n\n");
    push_str(&mut out, ":root[data-theme=\"dark\"] {\n");
    let dark = ColorRole::dark_all();
    push_color_lines(&mut out, &dark);
    push_str(&mut out, "}\n");
    push_str(&mut out, "\n/* Substrate utility classes (CSP-safe alternative to inline padding) */\n");
    push_str(&mut out, ".loom-shell {\n");
    push_str(&mut out, "  padding-left: 4rem;\n");
    push_str(&mut out, "  padding-right: 4rem;\n");
    push_str(&mut out, "}\n");
    push_str(&mut out, "@media (max-width: 768px) {\n");
    push_str(&mut out, "  .loom-shell {\n");
    push_str(&mut out, "    padding-left: 1rem;\n");
    push_str(&mut out, "    padding-right: 1rem;\n");
    push_str(&mut out, "  }\n");
    push_str(&mut out, "}\n");
    out
}

// ------------------------------------------------------------------
// egui constant block
// ------------------------------------------------------------------

/// The upper-case form of `s` as `str::to_uppercase` gives it (Unicode
/// upper-case mapping).
pub uninterp spec fn str_to_uppercase(s: Seq<char>) -> Seq<char>;

/// `str::to_uppercase`; the result is named by [`str_to_uppercase`].
#[verifier::external_body]
fn to_uppercase(s: &str) -> (r: String)
    ensures
        r@ == str_to_uppercase(s@),
{
    s.to_uppercase()
}

/// A Rust constant identifier from a token name: upper-cased, then every
/// `-` replaced by `_`.
pub open spec fn const_ident(s: Seq<char>) -> Seq<char> {
    replace_all(str_to_uppercase(s), seq!['-'], seq!['_'])
}

/// Append the upper-case form of `s`.
fn push_upper(out: &mut String, s: &str)
    ensures
        final(out)@ == old(out)@ + str_to_uppercase(s@),
{
    let u = to_uppercase(s);
    push_str(out, u.as_str());
}

/// Append the constant identifier made from `s`.
fn push_const_ident(out: &mut String, s: &str)
    ensures
        final(out)@ == old(out)@ + const_ident(s@),
{
    let u = to_uppercase(s);
    proof {
        reveal_strlit("-");
        reveal_strlit("_");
        assert("-"@ =~= seq!['-']);
        assert("_"@ =~= seq!['_']);
    }
    let r = replace_str(u.as_str(), "-", "_");
    push_str(out, r.as_str());
}

/// The RGB a constant is emitted with: the resolved colour, or magenta
/// where the colour's CSS string does not parse.
pub open spec fn rgb_or_magenta(rgb: Option<(u8, u8, u8)>) -> (u8, u8, u8) {
    match rgb {
        Some(c) => c,
        None => (255, 0, 255),
    }
}

/// The two lines emitted for one palette role with its resolved RGB.
pub open spec fn egui_color_const(role: ColorRole, rgb: Option<(u8, u8, u8)>) -> Seq<char> {
    let c = rgb_or_magenta(rgb);
    "    /// `"@ + role.role@ + "` — "@ + role.color.tailwind@ + " — `"@ + role.color.css@ + "`\n"@
        + "    pub const "@ + const_ident(role.role@) + ": Color32 = Color32::from_rgb("@
        + decimal(c.0 as nat) + ", "@ + decimal(c.1 as nat) + ", "@ + decimal(c.2 as nat)
        + ");\n"@
}

/// The constant lines of a resolved palette, in order.
pub open spec fn egui_color_consts(roles: Seq<(ColorRole, Option<(u8, u8, u8)>)>) -> Seq<char>
    decreases roles.len(),
{
    if roles.len() == 0 {
        Seq::empty()
    } else {
        egui_color_consts(roles.drop_last()) + egui_color_const(roles.last().0, roles.last().1)
    }
}

/// Emit the constant for one role whose color resolved to `rgb` (`None`
/// where its CSS string does not parse).
pub fn emit_color_const(out: &mut String, role: &ColorRole, rgb: Option<(u8, u8, u8)>)
    ensures
        final(out)@ == old(out)@ + egui_color_const(*role, rgb),
{
    push_str(out, "    /// `");
    push_str(out, role.role);
    push_str(out, "` — ");
    push_str(out, role.color.tailwind);
    push_str(out, " — `");
    push_str(out, role.color.css);
    push_str(out, "`\n");
    push_str(out, "    pub const ");
    push_const_ident(out, role.role);
    push_str(out, ": Color32 = Color32::from_rgb(");
    let (r, g, b): (u8, u8, u8) = match rgb {
        Some(c) => c,
        None => (255, 0, 255),
    };
    push_decimal(out, r as u64);
    push_str(out, ", ");
    push_decimal(out, g as u64);
    push_str(out, ", ");
    push_decimal(out, b as u64);
    push_str(out, ");\n");
}

fn push_color_consts(out: &mut String, roles: &Vec<(ColorRole, Option<(u8, u8, u8)>)>)
    ensures
        final(out)@ == old(out)@ + egui_color_consts(roles@),
{
    let ghost start = out@;
    let mut i: usize = 0;
    while i < roles.len()
        invariant
            i <= roles.len(),
            out@ == start + egui_color_consts(roles@.take(i as int)),
        decreases roles.len() - i,
    {
        let (r, rgb) = roles[i];
        emit_color_const(out, &r, rgb);
        assert(roles@.take(i + 1).drop_last() =~= roles@.take(i as int));
        assert(out@ =~= start + egui_color_consts(roles@.take(i + 1)));
        i = i + 1;
    }
    assert(roles@.take(roles.len() as int) =~= roles@);
}

/// The three lines of one spacing step.
pub open spec fn egui_space_lines_of(s: Spacing) -> Seq<char> {
    "    /// step "@ + decimal(s.step()) + " — "@ + s.rem_text_spec() + "rem ("@ + decimal(4 * s.step())
        + "px @16)\n"@ + "    pub const S"@ + decimal(s.step()) + "_REM: f32 = "@ + s.rem_text_spec()
        + "_f32;\n    pub const S"@ + decimal(s.step()) + "_PX: u32 = "@ + decimal(4 * s.step())
        + ";\n"@
}

/// The spacing block, in order.
pub open spec fn egui_space_lines(s: Seq<Spacing>) -> Seq<char>
    decreases s.len(),
{
    if s.len() == 0 {
        Seq::empty()
    } else {
        egui_space_lines(s.drop_last()) + egui_space_lines_of(s.last())
    }
}

/// One breakpoint constant line.
pub open spec fn egui_break_line(b: Breakpoint) -> Seq<char> {
    "    pub const "@ + str_to_uppercase(b.tailwind_spec()) + ": u32 = "@ + decimal(b.px_spec() as nat) + ";\n"@
}

/// The breakpoint block, in order.
pub open spec fn egui_break_lines(s: Seq<Breakpoint>) -> Seq<char>
    decreases s.len(),
{
    if s.len() == 0 {
        Seq::empty()
    } else {
        egui_break_lines(s.drop_last()) + egui_break_line(s.last())
    }
}

/// Native pixel value of a radius step at the 16 px design root.
pub open spec fn radius_px(r: Radius) -> nat {
    match r {
        Radius::Zero => 0,
        Radius::Sm => 4,
        Radius::Md => 8,
        Radius::Lg => 12,
        Radius::Xl => 16,
        Radius::Full => 9999,
    }
}

/// The two lines of one radius step.
pub open spec fn egui_radius_lines_of(r: Radius) -> Seq<char> {
    "    /// "@ + r.css_size_spec() + " ("@ + r.tailwind_spec() + ")\n    pub const "@
        + str_to_uppercase(r.tailwind_spec()) + ": f32 = "@ + decimal(radius_px(r)) + "_f32;\n"@
}

/// The radius block, in order.
pub open spec fn egui_radius_lines(s: Seq<Radius>) -> Seq<char>
    decreases s.len(),
{
    if s.len() == 0 {
        Seq::empty()
    } else {
        egui_radius_lines(s.drop_last()) + egui_radius_lines_of(s.last())
    }
}

/// The egui constant module for the given resolved light and dark palettes.
pub open spec fn tokens_egui_spec(light: Seq<(ColorRole, Option<(u8, u8, u8)>)>, dark: Seq<(ColorRole, Option<(u8, u8, u8)>)>) -> Seq<char> {
    "//! Generated by loom-tokens — do NOT edit by hand.\n"@
        + "//! Re-emit via `loom egui > src/loom_tokens.rs`.\n//!\n"@
        + "//! Cross-platform mirror of the loom-tokens CSS output.\n"@
        + "//! Requires `egui` as a dependency of the consuming crate.\n\n"@ + "#![allow(dead_code)]\n\n"@
        + "use egui::Color32;\n\n"@ + "/// Light-theme palette.\n"@ + "pub mod color {\n"@
        + "    use super::Color32;\n"@ + egui_color_consts(light) + "}\n\n"@
        + "/// Dark-theme palette mirror — same role names, dark-resolved values.\n"@
        + "pub mod color_dark {\n"@ + "    use super::Color32;\n"@ + egui_color_consts(dark)
        + "}\n\n"@ + "/// Spacing scale. `*_REM` for layout that multiplies by base font size,\n"@
        + "/// `*_PX` pre-resolved at the 16 px design root.\n"@ + "pub mod space {\n"@
        + egui_space_lines(Spacing::all_spec()) + "}\n\n"@ + "/// Breakpoints in pixel widths.\n"@
        + "pub mod breakpoint {\n"@ + egui_break_lines(Breakpoint::all_spec()) + "}\n\n"@
        + "/// Border radii. Native px values pre-resolved at the 16 px design root.\n"@
        + "pub mod radius {\n"@ + egui_radius_lines(Radius::all_spec()) + "}\n"@
}

fn radius_px_exec(r: Radius) -> (p: u64)
    ensures
        p == radius_px(r),
{
    match r {
        Radius::Zero => 0,
        Radius::Sm => 4,
        Radius::Md => 8,
        Radius::Lg => 12,
        Radius::Xl => 16,
        Radius::Full => 9999,
    }
}

fn push_space_block(out: &mut String, s: Spacing)
    ensures
        final(out)@ == old(out)@ + egui_space_lines_of(s),
{
    let tw = s.tailwind();
    let rem = s.rem_text();
    let px = s.px();
    push_str(out, "    /// step ");
    push_str(out, tw);
    push_str(out, " — ");
    push_str(out, rem);
    push_str(out, "rem (");
    push_decimal(out, px as u64);
    push_str(out, "px @16)\n");
    push_str(out, "    pub const S");
    push_str(out, tw);
    push_str(out, "_REM: f32 = ");
    push_str(out, rem);
    push_str(out, "_f32;\n    pub const S");
    push_str(out, tw);
    push_str(out, "_PX: u32 = ");
    push_decimal(out, px as u64);
    push_str(out, ";\n");
}

fn push_radius_block(out: &mut String, r: Radius)
    ensures
        final(out)@ == old(out)@ + egui_radius_lines_of(r),
{
    push_str(out, "    /// ");
    push_str(out, r.css_size());
    push_str(out, " (");
    push_str(out, r.tailwind());
    push_str(out, ")\n    pub const ");
    push_upper(out, r.tailwind());
    push_str(out, ": f32 = ");
    push_decimal(out, radius_px_exec(r));
    push_str(out, "_f32;\n");
}

/// Emit every token as a Rust `pub const` block for egui apps, given each
/// palette role paired with the RGB its color resolves to (`None` where
/// its CSS string does not parse).
pub fn tokens_egui_with(light: &Vec<(ColorRole, Option<(u8, u8, u8)>)>, dark: &Vec<(ColorRole, Option<(u8, u8, u8)>)>) -> (r: String)
    ensures
        r@ == tokens_egui_spec(light@, dark@),
{
    let mut out = String::new();
    push_str(&mut out, "//! Generated by loom-tokens — do NOT edit by hand.\n");
    push_str(&mut out, "//! Re-emit via `loom egui > src/loom_tokens.rs`.\n//!\n");
    push_str(&mut out, "//! Cross-platform mirror of the loom-tokens CSS output.\n");
    push_str(&mut out, "//! Requires `egui` as a dependency of the consuming crate.\n\n");
    push_str(&mut out, "#![allow(dead_code)]\n\n");
    push_str(&mut out, "use egui::Color32;\n\n");
    push_str(&mut out, "/// Light-theme palette.\n");
    push_str(&mut out, "pub mod color {\n");
    push_str(&mut out, "    use super::Color32;\n");
    push_color_consts(&mut out, light);
    push_str(&mut out, "}\n\n");
    push_str(&mut out, "/// Dark-theme palette mirror — same role names, dark-resolved values.\n");
    push_str(&mut out, "pub mod color_dark {\n");
    push_str(&mut out, "    use super::Color32;\n");
    push_color_consts(&mut out, dark);
    push_str(&mut out, "}\n\n");
    push_str(&mut out, "/// Spacing scale. `*_REM` for layout that multiplies by base font size,\n");
    push_str(&mut out, "/// `*_PX` pre-resolved at the 16 px design root.\n");
    push_str(&mut out, "pub mod space {\n");
    let sp = Spacing::all();
    let ghost s0 = out@;
    let mut i: usize = 0;
    while i < sp.len()
        invariant
            i <= sp.len(),
            sp@ == Spacing::all_spec(),
            out@ == s0 + egui_space_lines(sp@.take(i as int)),
        decreases sp.len() - i,
    {
        push_space_block(&mut out, sp[i]);
        assert(sp@.take(i + 1).drop_last() =~= sp@.take(i as int));
        assert(out@ =~= s0 + egui_space_lines(sp@.take(i + 1)));
        i = i + 1;
    }
    assert(sp@.take(sp.len() as int) =~= sp@);
    push_str(&mut out, "}\n\n");
    push_str(&mut out, "/// Breakpoints in pixel widths.\n");
    push_str(&mut out, "pub mod breakpoint {\n");
    let bp = Breakpoint::all();
    let ghost s1 = out@;
    let mut i: usize = 0;
    while i < bp.len()
        invariant
            i <= bp.len(),
            bp@ == Breakpoint::all_spec(),
            out@ == s1 + egui_break_lines(bp@.take(i as int)),
        decreases bp.len() - i,
    {
        let b = bp[i];
        push_str(&mut out, "    pub const ");
        push_upper(&mut out, b.tailwind());
        push_str(&mut out, ": u32 = ");
        push_decimal(&mut out, b.px() as u64);
        push_str(&mut out, ";\n");
        assert(bp@.take(i + 1).drop_last() =~= bp@.take(i as int));
        assert(out@ =~= s1 + egui_break_lines(bp@.take(i + 1)));
        i = i + 1;
    }
    assert(bp@.take(bp.len() as int) =~= bp@);
    push_str(&mut out, "}\n\n");
    push_str(&mut out, "/// Border radii. Native px values pre-resolved at the 16 px design root.\n");
    push_str(&mut out, "pub mod radius {\n");
    let rs = Radius::all();
    let ghost s2 = out@;
    let mut i: usize = 0;
    while i < rs.len()
        invariant
            i <= rs.len(),
            rs@ == Radius::all_spec(),
            out@ == s2 + egui_radius_lines(rs@.take(i as int)),
        decreases rs.len() - i,
    {
        push_radius_block(&mut out, rs[i]);
        assert(rs@.take(i + 1).drop_last() =~= rs@.take(i as int));
        assert(out@ =~= s2 + egui_radius_lines(rs@.take(i + 1)));
        i = i + 1;
    }
    assert(rs@.take(rs.len() as int) =~= rs@);
    push_str(&mut out, "}\n");
    out
}

} // verus!
