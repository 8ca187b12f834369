//! Typed typography primitives — [`Heading`], [`Lede`], [`BodyText`],
//! [`HelperText`], [`Eyebrow`] and [`DefinitionRow`].

use vstd::prelude::*;
use crate::text::{attr, html_escape, push_attr, push_escaped, push_str};

verus! {

/// Heading level: the HTML tag.
#[derive(Debug, Clone, Copy, PartialEq, Eq, Structural)]
pub enum HeadingLevel {
    /// `<h1>` — one per page.
    H1,
    /// `<h2>` — section level.
    H2,
    /// `<h3>` — subsection.
    H3,
}

/// Visual style, independent of the level.
#[derive(Debug, Clone, Copy, PartialEq, Eq, Structural)]
pub enum HeadingVariant {
    /// Hero-scale display.
    Display,
    /// Section heading.
    Section,
    /// Card / feature heading.
    Sub,
    /// Card sub-heading.
    Card,
}

/// Colour tone, set by the surrounding band.
#[derive(Debug, Clone, Copy, PartialEq, Eq, Structural)]
pub enum HeadingTone {
    /// Slate ink on light backgrounds.
    Ink,
    /// Light ink on dark bands.
    OnDark,
}

/// A typed heading.
pub struct Heading<'a> {
    /// Heading text.
    pub text: &'a str,
    /// Semantic level.
    pub level: HeadingLevel,
    /// Visual variant.
    pub variant: HeadingVariant,
    /// Tone.
    pub tone: HeadingTone,
}

/// Size classes of a variant.
pub open spec fn heading_variant_classes(v: HeadingVariant) -> &'static str {
    match v {
        HeadingVariant::Display => "text-4xl md:text-5xl lg:text-6xl",
        HeadingVariant::Section => "text-3xl md:text-4xl",
        HeadingVariant::Sub => "text-xl",
        HeadingVariant::Card => "text-lg",
    }
}

/// Ink of a heading tone.
pub open spec fn heading_tone_classes(t: HeadingTone) -> &'static str {
    match t {
        HeadingTone::Ink => "text-slate-900",
        HeadingTone::OnDark => "text-white",
    }
}

/// Tag name of a level.
pub open spec fn heading_tag(l: HeadingLevel) -> &'static str {
    match l {
        HeadingLevel::H1 => "h1",
        HeadingLevel::H2 => "h2",
        HeadingLevel::H3 => "h3",
    }
}

/// `<tag class="…">escaped text</tag>`.
pub open spec fn element(tag: Seq<char>, class: Seq<char>, text: Seq<char>) -> Seq<char> {
    "<"@ + tag + attr("class"@, class) + ">"@ + html_escape(text) + "</"@ + tag + ">"@
}

fn push_element(out: &mut String, tag: &str, class: &str, text: &str)
    ensures
        final(out)@ == old(out)@ + element(tag@, class@, text@),
{
    let ghost start = out@;
    push_str(out, "<");
    push_str(out, tag);
    push_attr(out, "class", class);
    push_str(out, ">");
    push_escaped(out, text);
    push_str(out, "</");
    push_str(out, tag);
    push_str(out, ">");
    assert(out@ =~= start + element(tag@, class@, text@));
}

impl<'a> Heading<'a> {
    /// The markup: the level's tag with the composed class.
    pub open spec fn html(self) -> Seq<char> {
        element(
            heading_tag(self.level)@,
            "font-display font-bold leading-tight "@ + heading_variant_classes(self.variant)@ + " "@
                + heading_tone_classes(self.tone)@,
            self.text@,
        )
    }

    /// Render as the level's heading tag.
    pub fn render(&self) -> (r: String)
        ensures
            r@ == self.html(),
    {
        let variant = match self.variant {
            HeadingVariant::Display => "text-4xl md:text-5xl lg:text-6xl",
            HeadingVariant::Section => "text-3xl md:text-4xl",
            HeadingVariant::Sub => "text-xl",
            HeadingVariant::Card => "text-lg",
        };
        let tone = match self.tone {
            HeadingTone::Ink => "text-slate-900",
            HeadingTone::OnDark => "text-white",
        };
        let tag = match self.level {
            HeadingLevel::H1 => "h1",
            HeadingLevel::H2 => "h2",
            HeadingLevel::H3 => "h3",
        };
        let mut class = String::new();
        push_str(&mut class, "font-display font-bold leading-tight ");
        push_str(&mut class, variant);
        push_str(&mut class, " ");
        push_str(&mut class, tone);
        let mut out = String::new();
        push_element(&mut out, tag, class.as_str(), self.text);
        assert(out@ =~= self.html());
        out
    }
}

/// Lede paragraph — the larger body text under a heading.
pub struct Lede<'a> {
    /// Text content.
    pub text: &'a str,
    /// Tone.
    pub tone: HeadingTone,
}

impl<'a> Lede<'a> {
    /// The markup of the lede.
    pub open spec fn html(self) -> Seq<char> {
        element(
            "p"@,
            "text-lg md:text-xl leading-relaxed "@ + (match self.tone {
                HeadingTone::Ink => "text-slate-600"@,
                HeadingTone::OnDark => "text-slate-400"@,
            }),
            self.text@,
        )
    }

    /// Render as `<p>`.
    pub fn render(&self) -> (r: String)
        ensures
            r@ == self.html(),
    {
        let tone = match self.tone {
            HeadingTone::Ink => "text-slate-600",
            HeadingTone::OnDark => "text-slate-400",
        };
        let mut class = String::new();
        push_str(&mut class, "text-lg md:text-xl leading-relaxed ");
        push_str(&mut class, tone);
        let mut out = String::new();
        push_element(&mut out, "p", class.as_str(), self.text);
        assert(out@ =~= self.html());
        out
    }
}

/// Standard body paragraph.
pub struct BodyText<'a> {
    /// Text content.
    pub text: &'a str,
    /// Tone.
    pub tone: HeadingTone,
}

impl<'a> BodyText<'a> {
    /// The markup of the paragraph.
    pub open spec fn html(self) -> Seq<char> {
        element(
            "p"@,
            "leading-relaxed "@ + (match self.tone {
                HeadingTone::Ink => "text-slate-700"@,
                HeadingTone::OnDark => "text-slate-300"@,
            }),
            self.text@,
        )
    }

    /// Render as `<p>`.
    pub fn render(&self) -> (r: String)
        ensures
            r@ == self.html(),
    {
        let tone = match self.tone {
            HeadingTone::Ink => "text-slate-700",
            HeadingTone::OnDark => "text-slate-300",
        };
        let mut class = String::new();
        push_str(&mut class, "leading-relaxed ");
        push_str(&mut class, tone);
        let mut out = String::new();
        push_element(&mut out, "p", class.as_str(), self.text);
        assert(out@ =~= self.html());
        out
    }
}

/// Size step of a [`HelperText`].
#[derive(Debug, Clone, Copy, PartialEq, Eq, Structural)]
pub enum HelperSize {
    /// `text-sm`.
    Default,
    /// `text-xs`.
    Tiny,
}

/// Smaller, lighter prose for inputs and form notes.
pub struct HelperText<'a> {
    /// Text content.
    pub text: &'a str,
    /// Size step.
    pub size: HelperSize,
    /// Tone.
    pub tone: HeadingTone,
}

impl<'a> HelperText<'a> {
    /// The markup of the helper text.
    pub open spec fn html(self) -> Seq<char> {
        element(
            "p"@,
            (match self.size {
                HelperSize::Default => "text-sm"@,
                HelperSize::Tiny => "text-xs"@,
            }) + " "@ + (match self.tone {
                HeadingTone::Ink => "text-slate-500"@,
                HeadingTone::OnDark => "text-slate-400"@,
            }),
            self.text@,
        )
    }

    /// Render as `<p>`.
    pub fn render(&self) -> (r: String)
        ensures
            r@ == self.html(),
    {
        let size = match self.size {
            HelperSize::Default => "text-sm",
            HelperSize::Tiny => "text-xs",
        };
        let tone = match self.tone {
            HeadingTone::Ink => "text-slate-500",
            HeadingTone::OnDark => "text-slate-400",
        };
        let mut class = String::new();
        push_str(&mut class, size);
        push_str(&mut class, " ");
        push_str(&mut class, tone);
        let mut out = String::new();
        push_element(&mut out, "p", class.as_str(), self.text);
        assert(out@ =~= self.html());
        out
    }
}

/// Size step of an [`Eyebrow`]; it also decides the element.
#[derive(Debug, Clone, Copy, PartialEq, Eq, Structural)]
pub enum EyebrowSize {
    /// Above a section heading: a decorative `<span>`.
    Section,
    /// Labels a block inside a section: an `<h3>`, so the block keeps its
    /// place in the document outline.
    Subhead,
}

impl Default for EyebrowSize {
    /// Section.
    fn default() -> (r: Self)
        ensures
            r == EyebrowSize::Section,
    {
        EyebrowSize::Section
    }
}

/// The small capitalised label introducing a section, in the lightest
/// grey that meets contrast requirements; there is no colour knob.
#[derive(Debug, Clone, Copy)]
pub struct Eyebrow<'a> {
    /// Label text, capitalised by CSS.
    pub text: &'a str,
    /// Size step.
    pub size: EyebrowSize,
}

impl<'a> Eyebrow<'a> {
    /// The markup: a `<span>` for `Section`, an `<h3>` for `Subhead`.
    pub open spec fn html(self) -> Seq<char> {
        match self.size {
            EyebrowSize::Section => element(
                "span"@,
                "text-[10px] uppercase tracking-[0.2em] font-semibold text-slate-500"@,
                self.text@,
            ),
            EyebrowSize::Subhead => element(
                "h3"@,
                "text-[11px] uppercase tracking-[0.18em] font-semibold text-slate-500 mb-6"@,
                self.text@,
            ),
        }
    }

    /// Render as a `<span>` (Section) or an `<h3>` (Subhead).
    pub fn render(&self) -> (r: String)
        ensures
            r@ == self.html(),
    {
        let mut out = String::new();
        match self.size {
            EyebrowSize::Section => push_element(
                &mut out,
                "span",
                "text-[10px] uppercase tracking-[0.2em] font-semibold text-slate-500",
                self.text,
            ),
            EyebrowSize::Subhead => push_element(
                &mut out,
                "h3",
                "text-[11px] uppercase tracking-[0.18em] font-semibold text-slate-500 mb-6",
                self.text,
            ),
        }
        assert(out@ =~= self.html());
        out
    }
}

/// One term-and-description row of a hairline definition table; the
/// caller supplies the `<dl>`.
#[derive(Debug, Clone, Copy)]
pub struct DefinitionRow<'a> {
    /// The term, in the first column.
    pub term: &'a str,
    /// The description, spanning the remaining columns from `md` up.
    pub description: &'a str,
}

impl<'a> DefinitionRow<'a> {
    /// The markup: a `<div>` holding a `<dt>`/`<dd>` pair.
    pub open spec fn html(self) -> Seq<char> {
        "<div class=\"grid grid-cols-1 md:grid-cols-3 gap-2 md:gap-7 py-5 border-b border-slate-200\">"@
            + "<dt class=\"font-semibold text-slate-900\">"@ + html_escape(self.term@) + "</dt>"@
            + "<dd class=\"md:col-span-2 text-slate-600 text-[15px] md:text-base leading-relaxed font-light\">"@
            + html_escape(self.description@) + "</dd>"@ + "</div>"@
    }

    /// Render one `<div>` with a `<dt>`/`<dd>` pair.
    pub fn render(&self) -> (r: String)
        ensures
            r@ == self.html(),
    {
        let mut out = String::new();
        push_str(
            &mut out,
            "<div class=\"grid grid-cols-1 md:grid-cols-3 gap-2 md:gap-7 py-5 border-b border-slate-200\">",
        );
        push_str(&mut out, "<dt class=\"font-semibold text-slate-900\">");
        push_escaped(&mut out, self.term);
        push_str(&mut out, "</dt>");
        push_str(
            &mut out,
            "<dd class=\"md:col-span-2 text-slate-600 text-[15px] md:text-base leading-relaxed font-light\">",
        );
        push_escaped(&mut out, self.description);
        push_str(&mut out, "</dd>");
        push_str(&mut out, "</div>");
        assert(out@ =~= self.html());
        out
    }
}

} // verus!
