//! Typed `Section` primitive — a vertical band with a typed theme,
//! padding step and inner width.

use vstd::prelude::*;
use crate::text::{attr, push_attr, push_str, trim, trimmed};

verus! {

/// Visual theme of a band.
#[derive(Debug, Clone, Copy, PartialEq, Eq, Structural)]
pub enum SectionTheme {
    /// White background, dark text.
    Light,
    /// Slate-50 background.
    Muted,
    /// Slate-900 background, white text.
    Dark,
    /// `primary/5` background — the final CTA band.
    Tinted,
    /// Slate-100 newspaper-stock background.
    Editorial,
    /// True-black band.
    Amoled,
}

/// Inner-container max width.
#[derive(Debug, Clone, Copy, PartialEq, Eq, Structural)]
pub enum SectionWidth {
    /// No max width beyond the container.
    Default,
    /// `max-w-4xl`.
    Wide,
    /// `max-w-3xl`.
    Article,
    /// `max-w-2xl`.
    Narrow,
}

/// Vertical padding step.
#[derive(Debug, Clone, Copy, PartialEq, Eq, Structural)]
pub enum SectionPadding {
    /// `py-8`.
    Compact,
    /// `py-10`.
    Dense,
    /// `py-12`.
    Tight,
    /// `py-16`.
    Default,
    /// `py-20` — the historical default.
    Loose,
}

/// A typed page section around pre-rendered body markup.
pub struct Section<'a> {
    /// Body, already HTML (emitted unescaped).
    pub body: &'a str,
    /// Theme.
    pub theme: SectionTheme,
    /// Inner container width.
    pub width: SectionWidth,
    /// Vertical padding step.
    pub padding: SectionPadding,
}

/// Background and ink of a theme.
pub open spec fn section_theme_classes(t: SectionTheme) -> &'static str {
    match t {
        SectionTheme::Light => "bg-white text-slate-900",
        SectionTheme::Muted => "bg-slate-50 text-slate-900",
        SectionTheme::Dark => "bg-slate-900 text-white",
        SectionTheme::Tinted => "bg-primary/5 text-slate-900",
        SectionTheme::Editorial => "bg-slate-100 text-slate-900",
        SectionTheme::Amoled => "bg-black text-slate-100",
    }
}

/// Padding class of a step.
pub open spec fn section_padding_classes(p: SectionPadding) -> &'static str {
    match p {
        SectionPadding::Compact => "py-8",
        SectionPadding::Dense => "py-10",
        SectionPadding::Tight => "py-12",
        SectionPadding::Default => "py-16",
        SectionPadding::Loose => "py-20",
    }
}

/// Max-width class of a width; empty for the default.
pub open spec fn section_width_classes(w: SectionWidth) -> &'static str {
    match w {
        SectionWidth::Default => "",
        SectionWidth::Wide => "max-w-4xl",
        SectionWidth::Article => "max-w-3xl",
        SectionWidth::Narrow => "max-w-2xl",
    }
}

fn theme_classes(t: SectionTheme) -> (r: &'static str)
    ensures
        r == section_theme_classes(t),
{
    match t {
        SectionTheme::Light => "bg-white text-slate-900",
        SectionTheme::Muted => "bg-slate-50 text-slate-900",
        SectionTheme::Dark => "bg-slate-900 text-white",
        SectionTheme::Tinted => "bg-primary/5 text-slate-900",
        SectionTheme::Editorial => "bg-slate-100 text-slate-900",
        SectionTheme::Amoled => "bg-black text-slate-100",
    }
}

fn padding_classes(p: SectionPadding) -> (r: &'static str)
    ensures
        r == section_padding_classes(p),
{
    match p {
        SectionPadding::Compact => "py-8",
        SectionPadding::Dense => "py-10",
        SectionPadding::Tight => "py-12",
        SectionPadding::Default => "py-16",
        SectionPadding::Loose => "py-20",
    }
}

fn width_classes(w: SectionWidth) -> (r: &'static str)
    ensures
        r == section_width_classes(w),
{
    match w {
        SectionWidth::Default => "",
        SectionWidth::Wide => "max-w-4xl",
        SectionWidth::Article => "max-w-3xl",
        SectionWidth::Narrow => "max-w-2xl",
    }
}

impl<'a> Section<'a> {
    /// Convenience constructor — loose padding, default width.
    pub fn new(body: &'a str, theme: SectionTheme) -> (r: Self)
        ensures
            r.body == body,
            r.theme == theme,
            r.width == SectionWidth::Default,
            r.padding == SectionPadding::Loose,
    {
        Section { body, theme, width: SectionWidth::Default, padding: SectionPadding::Loose }
    }

    /// The markup of the band.
    pub open spec fn html(self) -> Seq<char> {
        "<section"@ + attr(
            "class"@,
            trim(section_padding_classes(self.padding)@ + " "@ + section_theme_classes(self.theme)@),
        ) + ">"@ + "<div"@ + attr(
            "class"@,
            trim("container mx-auto px-4 md:px-6 "@ + section_width_classes(self.width)@),
        ) + ">"@ + self.body@ + "</div>"@ + "</section>"@
    }

    /// Render as a `<section>` element.
    pub fn render(&self) -> (r: String)
        ensures
            r@ == self.html(),
    {
        let theme = theme_classes(self.theme);
        let padding = padding_classes(self.padding);
        let width = width_classes(self.width);
        let mut outer = String::new();
        push_str(&mut outer, padding);
        push_str(&mut outer, " ");
        push_str(&mut outer, theme);
        let outer = trimmed(outer.as_str());
        let mut inner = String::new();
        push_str(&mut inner, "container mx-auto px-4 md:px-6 ");
        push_str(&mut inner, width);
        let inner = trimmed(inner.as_str());
        let mut out = String::new();
        push_str(&mut out, "<section");
        push_attr(&mut out, "class", outer.as_str());
        push_str(&mut out, ">");
        push_str(&mut out, "<div");
        push_attr(&mut out, "class", inner.as_str());
        push_str(&mut out, ">");
        push_str(&mut out, self.body);
        push_str(&mut out, "</div>");
        push_str(&mut out, "</section>");
        assert(out@ =~= self.html());
        out
    }
}

} // verus!
