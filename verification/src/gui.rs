//! The immediate-mode rendering of a page: the widgets to add to a UI,
//! in order. Labels carry their text and look (heading, size in points,
//! strong, italics, weak, monospace, underline); a front end adds each
//! widget to its UI every frame.

use vstd::prelude::*;
use crate::cms::{kind_label, section_kind_label, CmsPage, CmsSection, HeadingLevel, HeroCta};
use crate::text::{decimal, opt_string_view, owned, push_decimal, push_str};

verus! {

/// How a label is drawn.
#[derive(Debug, Clone, Copy, PartialEq, Eq, Structural)]
pub struct LabelLook {
    /// Heading text style.
    pub heading: bool,
    /// Font size in points, when set.
    pub size: Option<u32>,
    /// Strong.
    pub strong: bool,
    /// Italics.
    pub italics: bool,
    /// Weak (dimmed).
    pub weak: bool,
    /// Monospace.
    pub monospace: bool,
    /// Underlined.
    pub underline: bool,
}

/// A widget to add.
#[derive(Debug, Clone)]
pub enum Widget {
    /// A heading.
    Heading(String),
    /// A label.
    Label(String, LabelLook),
    /// A separator rule.
    Separator,
    /// Empty space, in points.
    Space(u32),
}

/// A widget's description.
pub enum WidgetView {
    /// A heading and its text.
    Heading(Seq<char>),
    /// A label, its text and look.
    Label(Seq<char>, LabelLook),
    /// A separator rule.
    Separator,
    /// Empty space of so many points.
    Space(nat),
}

/// The description of a widget.
pub open spec fn widget_view(w: Widget) -> WidgetView {
    match w {
        Widget::Heading(t) => WidgetView::Heading(t@),
        Widget::Label(t, look) => WidgetView::Label(t@, look),
        Widget::Separator => WidgetView::Separator,
        Widget::Space(n) => WidgetView::Space(n as nat),
    }
}

/// The descriptions of widgets.
pub open spec fn widgets_view(ws: Seq<Widget>) -> Seq<WidgetView> {
    ws.map_values(|w: Widget| widget_view(w))
}

/// The plain look.
pub open spec fn plain() -> LabelLook {
    LabelLook {
        heading: false,
        size: None,
        strong: false,
        italics: false,
        weak: false,
        monospace: false,
        underline: false,
    }
}

fn plain_look() -> (r: LabelLook)
    ensures
        r == plain(),
{
    LabelLook {
        heading: false,
        size: None,
        strong: false,
        italics: false,
        weak: false,
        monospace: false,
        underline: false,
    }
}

/// The weak look.
pub open spec fn weak() -> LabelLook {
    LabelLook { weak: true, ..plain() }
}

/// The point size of a heading level: 22, 19, 17, 15 and 14 from `H2`
/// down.
pub open spec fn heading_points(level: HeadingLevel) -> nat {
    match level {
        HeadingLevel::H2 => 22,
        HeadingLevel::H3 => 19,
        HeadingLevel::H4 => 17,
        HeadingLevel::H5 => 15,
        HeadingLevel::H6 => 14,
    }
}

/// The point size of a heading level (see [`heading_points`]).
pub fn heading_pt(level: &HeadingLevel) -> (r: u32)
    ensures
        r == heading_points(*level),
{
    match level {
        HeadingLevel::H2 => 22,
        HeadingLevel::H3 => 19,
        HeadingLevel::H4 => 17,
        HeadingLevel::H5 => 15,
        HeadingLevel::H6 => 14,
    }
}

/// The text of a hero: a weak eyebrow, the title as a strong 28-point
/// heading, the lede, and the underlined call to action in brackets,
/// each when present.
pub open spec fn hero_widgets(
    eyebrow: Option<Seq<char>>,
    title: Seq<char>,
    lede: Option<Seq<char>>,
    cta: Option<HeroCta>,
) -> Seq<WidgetView> {
    (match eyebrow {
        Some(e) => seq![WidgetView::Label(e, weak())],
        None => Seq::empty(),
    }) + seq![
        WidgetView::Label(title, LabelLook { heading: true, size: Some(28), strong: true, ..plain() }),
    ] + (match lede {
        Some(l) => seq![WidgetView::Label(l, plain())],
        None => Seq::empty(),
    }) + (match cta {
        Some(c) => seq![
            WidgetView::Label("[ "@ + c.label@ + " ]"@, LabelLook { underline: true, ..plain() }),
        ],
        None => Seq::empty(),
    })
}

/// The weak attribution label after a quote body, when there is one.
pub open spec fn attribution_widgets(a: Option<Seq<char>>) -> Seq<WidgetView> {
    match a {
        Some(x) => seq![WidgetView::Label("— "@ + x, weak())],
        None => Seq::empty(),
    }
}

/// The widgets of one section.
pub open spec fn section_widgets(s: CmsSection) -> Seq<WidgetView> {
    match s {
        CmsSection::Paragraph { text } => seq![WidgetView::Label(text@, plain())],
        CmsSection::Heading { text, level } => seq![
            WidgetView::Label(
                text@,
                LabelLook {
                    heading: true,
                    size: Some(heading_points(level) as u32),
                    strong: true,
                    ..plain()
                },
            ),
        ],
        CmsSection::SubHeading { text, .. } => seq![
            WidgetView::Label(text@, LabelLook { strong: true, size: Some(16), ..plain() }),
        ],
        CmsSection::Lede { text } => seq![
            WidgetView::Label(text@, LabelLook { italics: true, size: Some(15), ..plain() }),
        ],
        CmsSection::DropCap { text } => seq![WidgetView::Label(text@, plain())],
        CmsSection::PullQuote { body, attribution } => seq![
            WidgetView::Label(body@, LabelLook { italics: true, size: Some(15), ..plain() }),
        ] + attribution_widgets(opt_string_view(attribution)),
        CmsSection::Epigraph { body, attribution } => seq![
            WidgetView::Label(body@, LabelLook { italics: true, ..plain() }),
        ] + attribution_widgets(opt_string_view(attribution)),
        CmsSection::Marginalia { body } => seq![WidgetView::Label("⁂ "@ + body@, weak())],
        CmsSection::Quote { body, attribution } => seq![
            WidgetView::Label(body@, plain()),
            WidgetView::Label("— "@ + attribution@, weak()),
        ],
        CmsSection::Caption { text } => seq![WidgetView::Label(text@, weak())],
        CmsSection::Footnote { number, text } => seq![
            WidgetView::Label("["@ + decimal(number as nat) + "] "@ + text@, plain()),
        ],
        CmsSection::Citation { text, source } => seq![
            WidgetView::Label(text@ + " ("@ + source@ + ")"@, plain()),
        ],
        CmsSection::Divider => seq![WidgetView::Separator],
        CmsSection::Spacer => seq![WidgetView::Space(12)],
        CmsSection::Hero { eyebrow, title, lede, cta } => hero_widgets(
            opt_string_view(eyebrow),
            title@,
            opt_string_view(lede),
            cta,
        ),
        CmsSection::ImageHero { eyebrow, title, lede, cta } => hero_widgets(
            opt_string_view(eyebrow),
            title@,
            opt_string_view(lede),
            cta,
        ),
        CmsSection::Banner { text } => seq![WidgetView::Label(text@, plain())],
        CmsSection::Code { body, lang } => seq![
            WidgetView::Label("```"@ + lang@, weak()),
            WidgetView::Label(body@, LabelLook { monospace: true, ..plain() }),
            WidgetView::Label("```"@, weak()),
        ],
        CmsSection::Picture { src_stem, alt } => seq![
            WidgetView::Label(
                "[picture: "@ + (if alt@.len() == 0 {
                    src_stem@
                } else {
                    alt@
                }) + "]"@,
                weak(),
            ),
        ],
        CmsSection::Figure { caption, credit, asset_slug } => seq![
            WidgetView::Label(
                "[figure "@ + (match asset_slug {
                    Some(a) => a@,
                    None => "no-asset"@,
                }) + "]"@,
                weak(),
            ),
            WidgetView::Label(
                match credit {
                    Some(c) => caption@ + " · "@ + c@,
                    None => caption@,
                },
                weak(),
            ),
        ],
        CmsSection::SplitHero => seq![WidgetView::Label("["@ + kind_label(s)@ + "]"@, weak())],
        CmsSection::Other => seq![WidgetView::Label("["@ + kind_label(s)@ + "]"@, weak())],
    }
}

/// A fresh string `a + b`.
fn concat2(a: &str, b: &str) -> (r: String)
    ensures
        r@ == a@ + b@,
{
    let mut s = owned(a);
    push_str(&mut s, b);
    s
}

/// A fresh string `a + b + c`.
fn concat3(a: &str, b: &str, c: &str) -> (r: String)
    ensures
        r@ == a@ + b@ + c@,
{
    let mut s = owned(a);
    push_str(&mut s, b);
    push_str(&mut s, c);
    s
}

/// Append a widget.
fn push_widget(out: &mut Vec<Widget>, w: Widget)
    ensures
        widgets_view(final(out)@) == widgets_view(old(out)@).push(widget_view(w)),
{
    let ghost a = out@;
    out.push(w);
    assert(widgets_view(out@) =~= widgets_view(a).push(widget_view(w)));
}

/// Append a label.
fn label(out: &mut Vec<Widget>, text: String, look: LabelLook)
    ensures
        widgets_view(final(out)@) == widgets_view(old(out)@).push(WidgetView::Label(text@, look)),
{
    push_widget(out, Widget::Label(text, look));
}

/// Append the widgets of a hero (see [`hero_widgets`]).
fn show_hero_textual(
    out: &mut Vec<Widget>,
    eyebrow: &Option<String>,
    title: &str,
    lede: &Option<String>,
    cta: &Option<HeroCta>,
)
    ensures
        widgets_view(final(out)@) == widgets_view(old(out)@) + hero_widgets(
            opt_string_view(*eyebrow),
            title@,
            opt_string_view(*lede),
            *cta,
        ),
{
    let ghost start = widgets_view(out@);
    let p = plain_look();
    if let Some(e) = eyebrow {
        label(out, owned(e.as_str()), LabelLook { weak: true, ..p });
    }
    label(out, owned(title), LabelLook { heading: true, size: Some(28), strong: true, ..p });
    if let Some(l) = lede {
        label(out, owned(l.as_str()), p);
    }
    if let Some(c) = cta {
        label(out, concat3("[ ", c.label.as_str(), " ]"), LabelLook { underline: true, ..p });
    }
    assert(widgets_view(out@) =~= start + hero_widgets(
        opt_string_view(*eyebrow),
        title@,
        opt_string_view(*lede),
        *cta,
    ));
}

/// Append the weak attribution label, when there is one.
fn show_attribution(out: &mut Vec<Widget>, attribution: &Option<String>)
    ensures
        widgets_view(final(out)@) == widgets_view(old(out)@) + attribution_widgets(
            opt_string_view(*attribution),
        ),
{
    let ghost start = widgets_view(out@);
    if let Some(a) = attribution {
        label(out, concat2("— ", a.as_str()), LabelLook { weak: true, ..plain_look() });
    }
    assert(widgets_view(out@) =~= start + attribution_widgets(opt_string_view(*attribution)));
}

/// The widgets of one section (see [`section_widgets`]).
pub fn show_section(section: &CmsSection) -> (r: Vec<Widget>)
    ensures
        widgets_view(r@) == section_widgets(*section),
{
    let mut out: Vec<Widget> = Vec::new();
    let p = plain_look();
    let w = LabelLook { weak: true, ..p };
    match section {
        CmsSection::Paragraph { text } => {
            label(&mut out, owned(text.as_str()), p);
        },
        CmsSection::Heading { text, level } => {
            label(
                &mut out,
                owned(text.as_str()),
                LabelLook { heading: true, size: Some(heading_pt(level)), strong: true, ..p },
            );
        },
        CmsSection::SubHeading { text, .. } => {
            label(&mut out, owned(text.as_str()), LabelLook { strong: true, size: Some(16), ..p });
        },
        CmsSection::Lede { text } => {
            label(&mut out, owned(text.as_str()), LabelLook { italics: true, size: Some(15), ..p });
        },
        CmsSection::DropCap { text } => {
            label(&mut out, owned(text.as_str()), p);
        },
        CmsSection::PullQuote { body, attribution } => {
            label(&mut out, owned(body.as_str()), LabelLook { italics: true, size: Some(15), ..p });
            show_attribution(&mut out, attribution);
        },
        CmsSection::Epigraph { body, attribution } => {
            label(&mut out, owned(body.as_str()), LabelLook { italics: true, ..p });
            show_attribution(&mut out, attribution);
        },
        CmsSection::Marginalia { body } => {
            label(&mut out, concat2("⁂ ", body.as_str()), w);
        },
        CmsSection::Quote { body, attribution } => {
            label(&mut out, owned(body.as_str()), p);
            label(&mut out, concat2("— ", attribution.as_str()), w);
        },
        CmsSection::Caption { text } => {
            label(&mut out, owned(text.as_str()), w);
        },
        CmsSection::Footnote { number, text } => {
            let mut s = owned("[");
            push_decimal(&mut s, *number as u64);
            push_str(&mut s, "] ");
            push_str(&mut s, text.as_str());
            label(&mut out, s, p);
        },
        CmsSection::Citation { text, source } => {
            let mut s = owned(text.as_str());
            push_str(&mut s, " (");
            push_str(&mut s, source.as_str());
            push_str(&mut s, ")");
            label(&mut out, s, p);
        },
        CmsSection::Divider => {
            push_widget(&mut out, Widget::Separator);
        },
        CmsSection::Spacer => {
            push_widget(&mut out, Widget::Space(12));
        },
        CmsSection::Hero { eyebrow, title, lede, cta } => {
            show_hero_textual(&mut out, eyebrow, title.as_str(), lede, cta);
        },
        CmsSection::ImageHero { eyebrow, title, lede, cta } => {
            show_hero_textual(&mut out, eyebrow, title.as_str(), lede, cta);
        },
        CmsSection::Banner { text } => {
            label(&mut out, owned(text.as_str()), p);
        },
        CmsSection::Code { body, lang } => {
            label(&mut out, concat2("```", lang.as_str()), w);
            label(&mut out, owned(body.as_str()), LabelLook { monospace: true, ..p });
            label(&mut out, owned("```"), w);
        },
        CmsSection::Picture { src_stem, alt } => {
            let shown = if alt.as_str().is_empty() {
                src_stem.as_str()
            } else {
                alt.as_str()
            };
            label(&mut out, concat3("[picture: ", shown, "]"), w);
        },
        CmsSection::Figure { caption, credit, asset_slug } => {
            let slug = match asset_slug {
                Some(a) => a.as_str(),
                None => "no-asset",
            };
            label(&mut out, concat3("[figure ", slug, "]"), w);
            match credit {
                Some(c) => label(&mut out, concat3(caption.as_str(), " · ", c.as_str()), w),
                None => label(&mut out, owned(caption.as_str()), w),
            }
        },
        CmsSection::SplitHero => {
            label(&mut out, concat3("[", section_kind_label(section), "]"), w);
        },
        CmsSection::Other => {
            label(&mut out, concat3("[", section_kind_label(section), "]"), w);
        },
    }
    assert(widgets_view(out@) =~= section_widgets(*section));
    out
}

/// The widgets of a run of sections, 12 points of space between
/// consecutive ones.
pub open spec fn sections_widgets(ss: Seq<CmsSection>) -> Seq<WidgetView>
    decreases ss.len(),
{
    if ss.len() == 0 {
        Seq::empty()
    } else {
        sections_widgets(ss.drop_last()) + (if ss.len() > 1 {
            seq![WidgetView::Space(12)]
        } else {
            Seq::empty()
        }) + section_widgets(ss.last())
    }
}

/// The widgets of a page: its title as a heading, 8 points of space, then
/// its sections.
pub open spec fn page_widgets(page: CmsPage) -> Seq<WidgetView> {
    seq![WidgetView::Heading(page.title@), WidgetView::Space(8)] + sections_widgets(page.sections@)
}

/// The widgets of a page (see [`page_widgets`]).
pub fn show_page(page: &CmsPage) -> (r: Vec<Widget>)
    ensures
        widgets_view(r@) == page_widgets(*page),
{
    let mut out: Vec<Widget> = Vec::new();
    push_widget(&mut out, Widget::Heading(owned(page.title.as_str())));
    push_widget(&mut out, Widget::Space(8));
    let ghost head = widgets_view(out@);
    let ghost ss = page.sections@;
    let mut i: usize = 0;
    while i < page.sections.len()
        invariant
            i <= ss.len(),
            ss == page.sections@,
            widgets_view(out@) == head + sections_widgets(ss.take(i as int)),
        decreases page.sections.len() - i,
    {
        assert(ss.take(i + 1).drop_last() =~= ss.take(i as int));
        assert(ss.take(i + 1).last() == ss[i as int]);
        if i > 0 {
            push_widget(&mut out, Widget::Space(12));
        }
        let mut more = show_section(&page.sections[i]);
        let ghost a = out@;
        let ghost b = more@;
        out.append(&mut more);
        assert(widgets_view(out@) =~= widgets_view(a) + widgets_view(b));
        assert(widgets_view(out@) =~= head + sections_widgets(ss.take(i + 1)));
        i = i + 1;
    }
    assert(ss.take(i as int) =~= ss);
    assert(widgets_view(out@) =~= page_widgets(*page));
    out
}

/// Heading sizes shrink strictly from `H2` to `H6`.
pub proof fn heading_sizes_decrease()
    ensures
        heading_points(HeadingLevel::H2) > heading_points(HeadingLevel::H3),
        heading_points(HeadingLevel::H3) > heading_points(HeadingLevel::H4),
        heading_points(HeadingLevel::H4) > heading_points(HeadingLevel::H5),
        heading_points(HeadingLevel::H5) > heading_points(HeadingLevel::H6),
{
}


/// Every section adds at least one widget, so the section count stays
/// visible on screen.
pub proof fn sections_yield_widgets(s: CmsSection)
    ensures
        section_widgets(s).len() >= 1,
{
}

/// A picture shows as one weak label naming it by its alt text; its file
/// stem stands in only when the alt text is empty.
pub proof fn pictures_are_named_by_alt_text(src_stem: String, alt: String)
    ensures
        section_widgets((CmsSection::Picture { src_stem, alt })).len() == 1,
        alt@.len() > 0 ==> section_widgets((CmsSection::Picture { src_stem, alt }))[0]
            == WidgetView::Label("[picture: "@ + alt@ + "]"@, weak()),
        alt@.len() == 0 ==> section_widgets((CmsSection::Picture { src_stem, alt }))[0]
            == WidgetView::Label("[picture: "@ + src_stem@ + "]"@, weak()),
{
}

/// A page adds its title, the space after it, at least one widget per
/// section and a space between consecutive sections.
pub proof fn page_widget_count(page: CmsPage)
    ensures
        page_widgets(page).len() >= 2 * page.sections@.len() + 1,
{
    sections_widget_count(page.sections@);
}

proof fn sections_widget_count(ss: Seq<CmsSection>)
    ensures
        sections_widgets(ss).len() + 1 >= 2 * ss.len(),
    decreases ss.len(),
{
    if ss.len() > 0 {
        sections_widget_count(ss.drop_last());
        sections_yield_widgets(ss.last());
    }
}

} // verus!
