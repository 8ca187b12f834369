//! Typed `Card` primitives — content containers with a consistent
//! border / radius / padding / hover treatment: the generic [`Card`],
//! the icon + title + description [`FeatureCard`], the clickable
//! [`LinkCard`] and the editorial [`KvPairCard`].

use vstd::prelude::*;
use crate::text::{attr, html_escape, push_attr, push_escaped, push_str};

verus! {

/// Visual elevation: a fixed shadow + hover-shadow pair.
#[derive(Debug, Clone, Copy, PartialEq, Eq, Structural)]
pub enum CardElevation {
    /// No shadow, just a border — dense grids.
    Flat,
    /// Subtle shadow — the feature-card default.
    Soft,
    /// Pronounced shadow — hero CTAs, form panels.
    Pronounced,
}

/// Padding density.
#[derive(Debug, Clone, Copy, PartialEq, Eq, Structural)]
pub enum CardPadding {
    /// Compact (1rem).
    Tight,
    /// Default (1.5rem).
    Comfortable,
    /// Generous (2rem from `md` up).
    Roomy,
}

/// Hover behaviour.
#[derive(Debug, Clone, Copy, PartialEq, Eq, Structural)]
pub enum CardHover {
    /// No hover treatment.
    Still,
    /// Border tints, slight lift, deeper shadow.
    Lift,
}

/// Corner shape.
#[derive(Debug, Clone, Copy, PartialEq, Eq, Structural)]
pub enum CardShape {
    /// `rounded-xl` — the default.
    Rounded,
    /// `rounded-none` flat editorial panel.
    Square,
}

impl Default for CardShape {
    /// Rounded.
    fn default() -> (r: Self)
        ensures
            r == CardShape::Rounded,
    {
        CardShape::Rounded
    }
}

/// Radius class of a shape.
pub open spec fn card_radius(shape: CardShape) -> &'static str {
    match shape {
        CardShape::Rounded => "rounded-xl",
        CardShape::Square => "rounded-none",
    }
}

/// Shadow class of an elevation; empty for flat.
pub open spec fn card_shadow(elev: CardElevation) -> &'static str {
    match elev {
        CardElevation::Flat => "",
        CardElevation::Soft => "shadow-sm",
        CardElevation::Pronounced => "shadow-xl",
    }
}

/// Padding classes of a density.
pub open spec fn card_padding(pad: CardPadding) -> &'static str {
    match pad {
        CardPadding::Tight => "p-4",
        CardPadding::Comfortable => "p-6",
        CardPadding::Roomy => "p-6 md:p-8",
    }
}

/// Hover classes; empty for none.
pub open spec fn card_hover(hover: CardHover) -> &'static str {
    match hover {
        CardHover::Still => "",
        CardHover::Lift => "transition-all hover:border-primary/40 hover:shadow-lg hover:-translate-y-0.5",
    }
}

/// ` x` when `x` is not empty, nothing otherwise.
pub open spec fn spaced(x: Seq<char>) -> Seq<char> {
    if x.len() == 0 {
        Seq::empty()
    } else {
        " "@ + x
    }
}

/// The class string of a card: radius, surface, border colour, the
/// shadow when there is one, padding, the hover classes when there are.
pub open spec fn card_class(
    elev: CardElevation,
    pad: CardPadding,
    hover: CardHover,
    shape: CardShape,
) -> Seq<char> {
    card_radius(shape)@ + " "@ + "border bg-white"@ + " "@ + "border-slate-200"@ + spaced(
        card_shadow(elev)@,
    ) + " "@ + card_padding(pad)@ + spaced(card_hover(hover)@)
}

fn push_spaced(out: &mut String, x: &str)
    ensures
        final(out)@ == old(out)@ + spaced(x@),
{
    if !x.is_empty() {
        push_str(out, " ");
        push_str(out, x);
    } else {
        assert(old(out)@ + spaced(x@) =~= old(out)@);
    }
}

fn compose_class(elev: CardElevation, pad: CardPadding, hover: CardHover, shape: CardShape) -> (r:
    String)
    ensures
        r@ == card_class(elev, pad, hover, shape),
{
    let radius = match shape {
        CardShape::Rounded => "rounded-xl",
        CardShape::Square => "rounded-none",
    };
    let shadow = match elev {
        CardElevation::Flat => "",
        CardElevation::Soft => "shadow-sm",
        CardElevation::Pronounced => "shadow-xl",
    };
    let padding = match pad {
        CardPadding::Tight => "p-4",
        CardPadding::Comfortable => "p-6",
        CardPadding::Roomy => "p-6 md:p-8",
    };
    let hover_classes = match hover {
        CardHover::Still => "",
        CardHover::Lift => "transition-all hover:border-primary/40 hover:shadow-lg hover:-translate-y-0.5",
    };
    let mut s = String::new();
    push_str(&mut s, radius);
    push_str(&mut s, " ");
    push_str(&mut s, "border bg-white");
    push_str(&mut s, " ");
    push_str(&mut s, "border-slate-200");
    push_spaced(&mut s, shadow);
    push_str(&mut s, " ");
    push_str(&mut s, padding);
    push_spaced(&mut s, hover_classes);
    assert(s@ =~= card_class(elev, pad, hover, shape));
    s
}

/// The `data-loom-card-shape` value of a shape.
pub open spec fn card_shape_attr_spec(s: CardShape) -> &'static str {
    match s {
        CardShape::Rounded => "rounded",
        CardShape::Square => "square",
    }
}

fn card_shape_attr(s: CardShape) -> (r: &'static str)
    ensures
        r == card_shape_attr_spec(s),
{
    match s {
        CardShape::Rounded => "rounded",
        CardShape::Square => "square",
    }
}

/// Content card around pre-rendered inner markup.
pub struct Card<'a> {
    /// Inner content, already HTML (emitted unescaped).
    pub body: &'a str,
    /// Elevation tier.
    pub elevation: CardElevation,
    /// Padding density.
    pub padding: CardPadding,
    /// Hover behaviour.
    pub hover: CardHover,
    /// Corner shape.
    pub shape: CardShape,
}

impl<'a> Card<'a> {
    /// The markup of a card: a `<div>` with the composed class and its
    /// shape around the body.
    pub open spec fn html(self) -> Seq<char> {
        "<div"@ + attr("class"@, card_class(self.elevation, self.padding, self.hover, self.shape))
            + attr("data-loom-card-shape"@, card_shape_attr_spec(self.shape)@) + ">"@ + self.body@
            + "</div>"@
    }

    /// Render as a `<div>` wrapper.
    pub fn render(&self) -> (r: String)
        ensures
            r@ == self.html(),
    {
        let class = compose_class(self.elevation, self.padding, self.hover, self.shape);
        let mut out = String::new();
        push_str(&mut out, "<div");
        push_attr(&mut out, "class", class.as_str());
        push_attr(&mut out, "data-loom-card-shape", card_shape_attr(self.shape));
        push_str(&mut out, ">");
        push_str(&mut out, self.body);
        push_str(&mut out, "</div>");
        assert(out@ =~= self.html());
        out
    }
}

/// Visual style of a [`FeatureCard`].
#[derive(Debug, Clone, Copy, PartialEq, Eq, Structural)]
pub enum FeatureCardStyle {
    /// Compact icon tile, comfortable padding.
    Subtle,
    /// Larger icon tile that flips to brand colour on group hover.
    Bold,
}

/// Feature card: icon + title + description.
pub struct FeatureCard<'a> {
    /// Trusted inline SVG (emitted unescaped).
    pub icon_svg: &'a str,
    /// Title text.
    pub title: &'a str,
    /// Body description.
    pub description: &'a str,
}

/// Card padding of a feature-card style.
pub open spec fn feature_padding(style: FeatureCardStyle) -> CardPadding {
    match style {
        FeatureCardStyle::Subtle => CardPadding::Comfortable,
        FeatureCardStyle::Bold => CardPadding::Roomy,
    }
}

/// Icon-tile classes of a feature-card style.
pub open spec fn feature_tile_class(style: FeatureCardStyle) -> &'static str {
    match style {
        FeatureCardStyle::Subtle => "bg-primary/10 w-12 h-12 rounded-lg flex items-center justify-center mb-4",
        FeatureCardStyle::Bold => "bg-primary/5 w-14 h-14 rounded-2xl flex items-center justify-center mb-6 group-hover:bg-primary group-hover:text-white transition-colors duration-300",
    }
}

/// Title classes of a feature-card style.
pub open spec fn feature_title_class(style: FeatureCardStyle) -> &'static str {
    match style {
        FeatureCardStyle::Subtle => "font-display text-xl font-bold text-slate-900 mb-2",
        FeatureCardStyle::Bold => "font-display text-xl font-bold text-slate-900 mb-3",
    }
}

/// Description classes of a feature-card style.
pub open spec fn feature_body_class(style: FeatureCardStyle) -> &'static str {
    match style {
        FeatureCardStyle::Subtle => "text-slate-600 text-sm leading-relaxed",
        FeatureCardStyle::Bold => "text-slate-600 leading-relaxed",
    }
}

/// Outer class of a feature card: a soft lifting card, plus `group` for
/// the bold style so the tile can react to hover.
pub open spec fn feature_outer_class(style: FeatureCardStyle) -> Seq<char> {
    let card = card_class(
        CardElevation::Soft,
        feature_padding(style),
        CardHover::Lift,
        CardShape::Rounded,
    );
    match style {
        FeatureCardStyle::Subtle => card,
        FeatureCardStyle::Bold => card + " group"@,
    }
}

impl<'a> FeatureCard<'a> {
    /// The markup of a feature card in `style`.
    pub open spec fn html(self, style: FeatureCardStyle) -> Seq<char> {
        "<div"@ + attr("class"@, feature_outer_class(style)) + ">"@ + "<div"@ + attr(
            "class"@,
            feature_tile_class(style)@,
        ) + ">"@ + self.icon_svg@ + "</div>"@ + "<h3"@ + attr("class"@, feature_title_class(style)@)
            + ">"@ + html_escape(self.title@) + "</h3>"@ + "<p"@ + attr(
            "class"@,
            feature_body_class(style)@,
        ) + ">"@ + html_escape(self.description@) + "</p>"@ + "</div>"@
    }

    /// Render with the default subtle style.
    pub fn render(&self) -> (r: String)
        ensures
            r@ == self.html(FeatureCardStyle::Subtle),
    {
        self.render_with_style(FeatureCardStyle::Subtle)
    }

    /// Render with an explicit style.
    pub fn render_with_style(&self, style: FeatureCardStyle) -> (r: String)
        ensures
            r@ == self.html(style),
    {
        let (card_padding, tile_class, title_class, body_class) = match style {
            FeatureCardStyle::Subtle => (
                CardPadding::Comfortable,
                "bg-primary/10 w-12 h-12 rounded-lg flex items-center justify-center mb-4",
                "font-display text-xl font-bold text-slate-900 mb-2",
                "text-slate-600 text-sm leading-relaxed",
            ),
            FeatureCardStyle::Bold => (
                CardPadding::Roomy,
                "bg-primary/5 w-14 h-14 rounded-2xl flex items-center justify-center mb-6 group-hover:bg-primary group-hover:text-white transition-colors duration-300",
                "font-display text-xl font-bold text-slate-900 mb-3",
                "text-slate-600 leading-relaxed",
            ),
        };
        let mut outer_class = compose_class(
            CardElevation::Soft,
            card_padding,
            CardHover::Lift,
            CardShape::Rounded,
        );
        match style {
            FeatureCardStyle::Subtle => {},
            FeatureCardStyle::Bold => push_str(&mut outer_class, " group"),
        }
        let mut out = String::new();
        push_str(&mut out, "<div");
        push_attr(&mut out, "class", outer_class.as_str());
        push_str(&mut out, ">");
        push_str(&mut out, "<div");
        push_attr(&mut out, "class", tile_class);
        push_str(&mut out, ">");
        push_str(&mut out, self.icon_svg);
        push_str(&mut out, "</div>");
        push_str(&mut out, "<h3");
        push_attr(&mut out, "class", title_class);
        push_str(&mut out, ">");
        push_escaped(&mut out, self.title);
        push_str(&mut out, "</h3>");
        push_str(&mut out, "<p");
        push_attr(&mut out, "class", body_class);
        push_str(&mut out, ">");
        push_escaped(&mut out, self.description);
        push_str(&mut out, "</p>");
        push_str(&mut out, "</div>");
        assert(out@ =~= self.html(style));
        out
    }
}

/// Clickable card wrapping an `<a href>`.
pub struct LinkCard<'a> {
    /// Destination href.
    pub href: &'a str,
    /// Inner content, already HTML (emitted unescaped).
    pub body: &'a str,
}

impl<'a> LinkCard<'a> {
    /// The markup of a link card: `<a href class="group block">` around an
    /// `<article>` with a soft, roomy, lifting card class.
    pub open spec fn html(self) -> Seq<char> {
        "<a"@ + attr("href"@, self.href@) + " class=\"group block\">"@ + "<article"@ + attr(
            "class"@,
            card_class(CardElevation::Soft, CardPadding::Roomy, CardHover::Lift, CardShape::Rounded),
        ) + ">"@ + self.body@ + "</article>"@ + "</a>"@
    }

    /// Render as `<a><article>…</article></a>`.
    pub fn render(&self) -> (r: String)
        ensures
            r@ == self.html(),
    {
        let class = compose_class(
            CardElevation::Soft,
            CardPadding::Roomy,
            CardHover::Lift,
            CardShape::Rounded,
        );
        let mut out = String::new();
        push_str(&mut out, "<a");
        push_attr(&mut out, "href", self.href);
        push_str(&mut out, " class=\"group block\">");
        push_str(&mut out, "<article");
        push_attr(&mut out, "class", class.as_str());
        push_str(&mut out, ">");
        push_str(&mut out, self.body);
        push_str(&mut out, "</article>");
        push_str(&mut out, "</a>");
        assert(out@ =~= self.html());
        out
    }
}

/// Vertical rhythm of a [`KvPairCard`].
#[derive(Debug, Clone, Copy, PartialEq, Eq, Structural)]
pub enum KvPairDensity {
    /// Tight rhythm — grids of 4-6 short values.
    Compact,
    /// Default.
    Comfortable,
    /// Generous — grids of 2-3 long values.
    Spacious,
}

/// Colour treatment of a [`KvPairCard`].
#[derive(Debug, Clone, Copy, PartialEq, Eq, Structural)]
pub enum KvPairTone {
    /// Slate text on a white surface.
    Slate,
    /// Slate-100 text on a true-black surface.
    Amoled,
}

/// Dense editorial info card: label, dominant value, optional source.
pub struct KvPairCard<'a> {
    /// Small uppercase monospace label.
    pub label: &'a str,
    /// The dominant fact.
    pub value: &'a str,
    /// Optional footnote, shown after an em dash.
    pub source: Option<&'a str>,
    /// Layout density.
    pub density: KvPairDensity,
    /// Colour tone.
    pub tone: KvPairTone,
}

/// Gap and padding of a density.
pub open spec fn kv_spacing(d: KvPairDensity) -> (&'static str, &'static str) {
    match d {
        KvPairDensity::Compact => ("gap-1", "p-4"),
        KvPairDensity::Comfortable => ("gap-2", "p-5"),
        KvPairDensity::Spacious => ("gap-3", "p-6 md:p-8"),
    }
}

/// Surface, border, label, value and source colours of a tone.
pub open spec fn kv_colours(t: KvPairTone) -> (&'static str, &'static str, &'static str, &'static str, &'static str) {
    match t {
        KvPairTone::Slate => ("bg-white", "border-slate-200", "text-slate-500", "text-slate-900", "text-slate-600"),
        KvPairTone::Amoled => ("bg-black", "border-slate-800", "text-slate-400", "text-slate-100", "text-slate-400"),
    }
}

impl<'a> KvPairCard<'a> {
    /// Outer class: `flex flex-col {gap} border {border} {surface} {padding}`.
    pub open spec fn outer_class(self) -> Seq<char> {
        let (gap, padding) = kv_spacing(self.density);
        let (surface, border, _l, _v, _s) = kv_colours(self.tone);
        "flex flex-col "@ + gap@ + " border "@ + border@ + " "@ + surface@ + " "@ + padding@
    }

    /// The markup of the card: label and value paragraphs, then the source
    /// paragraph when there is a source.
    pub open spec fn html(self) -> Seq<char> {
        let (_surface, _border, label_tone, value_tone, source_tone) = kv_colours(self.tone);
        "<div"@ + attr("class"@, self.outer_class()) + ">"@ + "<p"@ + attr(
            "class"@,
            "text-xs font-mono uppercase tracking-widest "@ + label_tone@,
        ) + ">"@ + html_escape(self.label@) + "</p>"@ + "<p"@ + attr(
            "class"@,
            "font-display text-2xl md:text-3xl font-semibold leading-tight "@ + value_tone@,
        ) + ">"@ + html_escape(self.value@) + "</p>"@ + match self.source {
            Some(source) => "<p"@ + attr("class"@, "text-sm leading-snug "@ + source_tone@) + ">"@
                + "— "@ + html_escape(source@) + "</p>"@,
            None => Seq::empty(),
        } + "</div>"@
    }

    /// Render as a `<div>` cell for grid composition.
    pub fn render(&self) -> (r: String)
        ensures
            r@ == self.html(),
    {
        let (gap, padding) = match self.density {
            KvPairDensity::Compact => ("gap-1", "p-4"),
            KvPairDensity::Comfortable => ("gap-2", "p-5"),
            KvPairDensity::Spacious => ("gap-3", "p-6 md:p-8"),
        };
        let (surface, border, label_tone, value_tone, source_tone) = match self.tone {
            KvPairTone::Slate => ("bg-white", "border-slate-200", "text-slate-500", "text-slate-900", "text-slate-600"),
            KvPairTone::Amoled => ("bg-black", "border-slate-800", "text-slate-400", "text-slate-100", "text-slate-400"),
        };
        let mut outer = String::new();
        push_str(&mut outer, "flex flex-col ");
        push_str(&mut outer, gap);
        push_str(&mut outer, " border ");
        push_str(&mut outer, border);
        push_str(&mut outer, " ");
        push_str(&mut outer, surface);
        push_str(&mut outer, " ");
        push_str(&mut outer, padding);
        assert(outer@ =~= self.outer_class());
        let mut label_class = String::new();
        push_str(&mut label_class, "text-xs font-mono uppercase tracking-widest ");
        push_str(&mut label_class, label_tone);
        let mut value_class = String::new();
        push_str(&mut value_class, "font-display text-2xl md:text-3xl font-semibold leading-tight ");
        push_str(&mut value_class, value_tone);
        let mut out = String::new();
        push_str(&mut out, "<div");
        push_attr(&mut out, "class", outer.as_str());
        push_str(&mut out, ">");
        push_str(&mut out, "<p");
        push_attr(&mut out, "class", label_class.as_str());
        push_str(&mut out, ">");
        push_escaped(&mut out, self.label);
        push_str(&mut out, "</p>");
        push_str(&mut out, "<p");
        push_attr(&mut out, "class", value_class.as_str());
        push_str(&mut out, ">");
        push_escaped(&mut out, self.value);
        push_str(&mut out, "</p>");
        let ghost mid = out@;
        if let Some(source) = self.source {
            let mut source_class = String::new();
            push_str(&mut source_class, "text-sm leading-snug ");
            push_str(&mut source_class, source_tone);
            push_str(&mut out, "<p");
            push_attr(&mut out, "class", source_class.as_str());
            push_str(&mut out, ">");
            push_str(&mut out, "— ");
            push_escaped(&mut out, source);
            push_str(&mut out, "</p>");
        }
        let ghost mid2 = out@;
        push_str(&mut out, "</div>");
        assert(out@ =~= self.html());
        out
    }
}

} // verus!
