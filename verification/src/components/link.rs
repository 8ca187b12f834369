//! Typed `TextLink` primitive — an inline anchor with a closed palette of
//! variants.

use vstd::prelude::*;
use crate::text::{attr, html_escape, push_attr, push_escaped, push_str, trim, trimmed};

verus! {

/// Visual style of a [`TextLink`].
#[derive(Debug, Clone, Copy, PartialEq, Eq, Structural)]
pub enum TextLinkVariant {
    /// `text-primary` — most inline links.
    Primary,
    /// `text-primary font-medium` — quiet emphasis.
    PrimaryMedium,
    /// `text-primary font-semibold` — CTAs.
    PrimaryBold,
    /// `text-primary underline` — table-row links.
    PrimaryUnderlined,
    /// `text-primary font-semibold underline` — underlined CTAs.
    Underlined,
    /// `text-slate-600 hover:text-primary transition-colors` — dense prose.
    Subtle,
}

/// Size step of a [`TextLink`].
#[derive(Debug, Clone, Copy, PartialEq, Eq, Structural)]
pub enum TextLinkSize {
    /// Inherit the ambient font size (no class).
    Default,
    /// `text-sm`.
    Small,
}

/// A typed inline anchor; there is no free-form class field.
pub struct TextLink<'a> {
    /// Visible text.
    pub label: &'a str,
    /// `href` attribute.
    pub href: &'a str,
    /// Visual variant.
    pub variant: TextLinkVariant,
    /// Size step.
    pub size: TextLinkSize,
}

/// Classes of a variant.
pub open spec fn link_variant_classes(v: TextLinkVariant) -> &'static str {
    match v {
        TextLinkVariant::Primary => "text-primary",
        TextLinkVariant::PrimaryMedium => "text-primary font-medium",
        TextLinkVariant::PrimaryBold => "text-primary font-semibold",
        TextLinkVariant::PrimaryUnderlined => "text-primary underline",
        TextLinkVariant::Underlined => "text-primary font-semibold underline",
        TextLinkVariant::Subtle => "text-slate-600 hover:text-primary transition-colors",
    }
}

/// Classes of a size step; empty for the default.
pub open spec fn link_size_classes(s: TextLinkSize) -> &'static str {
    match s {
        TextLinkSize::Default => "",
        TextLinkSize::Small => "text-sm",
    }
}

/// The class string: the variant, then a space and the size class for a
/// non-default size, trimmed.
pub open spec fn link_class(v: TextLinkVariant, s: TextLinkSize) -> Seq<char> {
    trim(
        link_variant_classes(v)@ + (if s == TextLinkSize::Default {
            ""@
        } else {
            " "@
        }) + link_size_classes(s)@,
    )
}

impl<'a> TextLink<'a> {
    /// Convenience constructor — `Primary` at the default size.
    pub fn new(label: &'a str, href: &'a str) -> (r: Self)
        ensures
            r.label == label,
            r.href == href,
            r.variant == TextLinkVariant::Primary,
            r.size == TextLinkSize::Default,
    {
        TextLink { label, href, variant: TextLinkVariant::Primary, size: TextLinkSize::Default }
    }

    /// The markup of the link.
    pub open spec fn html(self) -> Seq<char> {
        "<a"@ + attr("href"@, self.href@) + attr("class"@, link_class(self.variant, self.size))
            + ">"@ + html_escape(self.label@) + "</a>"@
    }

    /// Render as `<a>`.
    pub fn render(&self) -> (r: String)
        ensures
            r@ == self.html(),
    {
        let variant = match self.variant {
            TextLinkVariant::Primary => "text-primary",
            TextLinkVariant::PrimaryMedium => "text-primary font-medium",
            TextLinkVariant::PrimaryBold => "text-primary font-semibold",
            TextLinkVariant::PrimaryUnderlined => "text-primary underline",
            TextLinkVariant::Underlined => "text-primary font-semibold underline",
            TextLinkVariant::Subtle => "text-slate-600 hover:text-primary transition-colors",
        };
        let (sep, size) = match self.size {
            TextLinkSize::Default => ("", ""),
            TextLinkSize::Small => (" ", "text-sm"),
        };
        let mut class = String::new();
        push_str(&mut class, variant);
        push_str(&mut class, sep);
        push_str(&mut class, size);
        let class = trimmed(class.as_str());
        let mut out = String::new();
        push_str(&mut out, "<a");
        push_attr(&mut out, "href", self.href);
        push_attr(&mut out, "class", class.as_str());
        push_str(&mut out, ">");
        push_escaped(&mut out, self.label);
        push_str(&mut out, "</a>");
        assert(out@ =~= self.html());
        out
    }
}

} // verus!
