//! The typed page the terminal and immediate-mode renderers read: a title
//! and a sequence of sections, each holding as plain values what the
//! renderers show. Section kinds the renderers do not show in their own
//! way are `SplitHero` and `Other`.

use vstd::prelude::*;

verus! {

/// The level of a heading section.
#[derive(Debug, Clone, Copy, PartialEq, Eq, Structural)]
pub enum HeadingLevel {
    /// `h2`.
    H2,
    /// `h3`.
    H3,
    /// `h4`.
    H4,
    /// `h5`.
    H5,
    /// `h6`.
    H6,
}

/// The call to action of a hero section.
#[derive(Debug, Clone)]
pub struct HeroCta {
    /// Button label.
    pub label: String,
}

/// One section of a page.
#[derive(Debug, Clone)]
pub enum CmsSection {
    /// A paragraph of body text.
    Paragraph { text: String },
    /// A heading.
    Heading { text: String, level: HeadingLevel },
    /// A sub-heading with a numeric level.
    SubHeading { text: String, level: u8 },
    /// A lede paragraph.
    Lede { text: String },
    /// A paragraph opening with a drop cap.
    DropCap { text: String },
    /// A pull quote.
    PullQuote { body: String, attribution: Option<String> },
    /// An epigraph.
    Epigraph { body: String, attribution: Option<String> },
    /// A margin note.
    Marginalia { body: String },
    /// A block quote.
    Quote { body: String, attribution: String },
    /// A caption.
    Caption { text: String },
    /// A numbered footnote.
    Footnote { number: u32, text: String },
    /// A citation of a source.
    Citation { text: String, source: String },
    /// A divider rule.
    Divider,
    /// Vertical space.
    Spacer,
    /// A textual hero.
    Hero { eyebrow: Option<String>, title: String, lede: Option<String>, cta: Option<HeroCta> },
    /// A hero over an image; only its text is rendered.
    ImageHero {
        eyebrow: Option<String>,
        title: String,
        lede: Option<String>,
        cta: Option<HeroCta>,
    },
    /// A split hero, shown only by its kind.
    SplitHero,
    /// A banner.
    Banner { text: String },
    /// A code block.
    Code { body: String, lang: String },
    /// A picture: an asset placeholder naming its file stem in the
    /// terminal, its alt text or file stem in the immediate-mode UI.
    Picture { src_stem: String, alt: String },
    /// A figure, shown by its asset and caption.
    Figure { caption: String, credit: Option<String>, asset_slug: Option<String> },
    /// Any other section kind.
    Other,
}

/// A page: its title and sections.
#[derive(Debug, Clone)]
pub struct CmsPage {
    /// Page title.
    pub title: String,
    /// Sections, in order.
    pub sections: Vec<CmsSection>,
}

/// The number of a heading level.
pub open spec fn heading_level_value(level: HeadingLevel) -> nat {
    match level {
        HeadingLevel::H2 => 2,
        HeadingLevel::H3 => 3,
        HeadingLevel::H4 => 4,
        HeadingLevel::H5 => 5,
        HeadingLevel::H6 => 6,
    }
}

/// The number of a heading level.
pub fn heading_level_to_int(level: &HeadingLevel) -> (r: usize)
    ensures
        r == heading_level_value(*level),
{
    match level {
        HeadingLevel::H2 => 2,
        HeadingLevel::H3 => 3,
        HeadingLevel::H4 => 4,
        HeadingLevel::H5 => 5,
        HeadingLevel::H6 => 6,
    }
}

/// The name of a section's kind, as the page format spells it; `section`
/// for kinds without a name of their own here.
pub open spec fn kind_label(s: CmsSection) -> &'static str {
    match s {
        CmsSection::Paragraph { .. } => "paragraph",
        CmsSection::Heading { .. } => "heading",
        CmsSection::SubHeading { .. } => "sub_heading",
        CmsSection::Lede { .. } => "lede",
        CmsSection::DropCap { .. } => "drop_cap",
        CmsSection::PullQuote { .. } => "pull_quote",
        CmsSection::Epigraph { .. } => "epigraph",
        CmsSection::Marginalia { .. } => "marginalia",
        CmsSection::Quote { .. } => "quote",
        CmsSection::Caption { .. } => "caption",
        CmsSection::Footnote { .. } => "footnote",
        CmsSection::Citation { .. } => "citation",
        CmsSection::Divider => "divider",
        CmsSection::Spacer => "spacer",
        CmsSection::Hero { .. } => "hero",
        CmsSection::ImageHero { .. } => "image_hero",
        CmsSection::SplitHero => "split_hero",
        CmsSection::Banner { .. } => "banner",
        CmsSection::Code { .. } => "code",
        CmsSection::Picture { .. } => "picture",
        CmsSection::Figure { .. } => "figure",
        CmsSection::Other => "section",
    }
}

/// The name of a section's kind (see [`kind_label`]).
pub fn section_kind_label(s: &CmsSection) -> (r: &'static str)
    ensures
        r == kind_label(*s),
{
    match s {
        CmsSection::Paragraph { .. } => "paragraph",
        CmsSection::Heading { .. } => "heading",
        CmsSection::SubHeading { .. } => "sub_heading",
        CmsSection::Lede { .. } => "lede",
        CmsSection::DropCap { .. } => "drop_cap",
        CmsSection::PullQuote { .. } => "pull_quote",
        CmsSection::Epigraph { .. } => "epigraph",
        CmsSection::Marginalia { .. } => "marginalia",
        CmsSection::Quote { .. } => "quote",
        CmsSection::Caption { .. } => "caption",
        CmsSection::Footnote { .. } => "footnote",
        CmsSection::Citation { .. } => "citation",
        CmsSection::Divider => "divider",
        CmsSection::Spacer => "spacer",
        CmsSection::Hero { .. } => "hero",
        CmsSection::ImageHero { .. } => "image_hero",
        CmsSection::SplitHero => "split_hero",
        CmsSection::Banner { .. } => "banner",
        CmsSection::Code { .. } => "code",
        CmsSection::Picture { .. } => "picture",
        CmsSection::Figure { .. } => "figure",
        CmsSection::Other => "section",
    }
}

} // verus!
