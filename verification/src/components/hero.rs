//! Typed hero bands: the centred [`Hero`] (eyebrow pill, headline with an
//! optional accent, lede, CTA cluster, grid decoration) and the
//! asymmetric [`HeroEditorial`] (kicker, headline, lede, CTA, and a
//! right-hand decoration slot).

use vstd::prelude::*;
use crate::text::{attr, html_escape, push_attr, push_escaped, push_str};

verus! {

/// Background of a [`Hero`].
#[derive(Debug, Clone, Copy, PartialEq, Eq, Structural)]
pub enum HeroBackground {
    /// Slate-50 with a faint dot grid and a brand-tinted skewed band.
    GridLight,
    /// Plain white.
    Plain,
}

/// A hero section.
pub struct Hero<'a> {
    /// Eyebrow pill text; `None` omits it.
    pub eyebrow: Option<&'a str>,
    /// Headline text before the optional accent.
    pub headline_lead: &'a str,
    /// Accent span after the lead, in the primary colour.
    pub headline_accent: Option<&'a str>,
    /// Lede paragraph.
    pub subheadline: &'a str,
    /// CTA cluster, already HTML (emitted unescaped).
    pub cta: Option<&'a str>,
    /// Background style.
    pub background: HeroBackground,
}

/// Surface class of a hero background.
pub open spec fn hero_bg_class(b: HeroBackground) -> &'static str {
    match b {
        HeroBackground::GridLight => "bg-slate-50",
        HeroBackground::Plain => "bg-white",
    }
}

/// The grid and skewed-band decoration of the grid background.
pub open spec fn hero_decoration() -> Seq<char> {
    "<div class=\"absolute inset-0 bg-[linear-gradient(to_right,#80808012_1px,transparent_1px),linear-gradient(to_bottom,#80808012_1px,transparent_1px)] bg-[size:24px_24px]\"></div>"@
        + "<div class=\"absolute top-0 right-0 w-1/3 h-full bg-gradient-to-l from-primary/5 to-transparent skew-x-12 transform origin-top-right translate-x-32\"></div>"@
}

/// ` <span class="text-primary">accent</span>` when there is an accent.
pub open spec fn accent_html(accent: Option<&str>) -> Seq<char> {
    match accent {
        Some(a) => " "@ + "<span class=\"text-primary\">"@ + html_escape(a@) + "</span>"@,
        None => Seq::empty(),
    }
}

fn push_accent(out: &mut String, accent: Option<&str>)
    ensures
        final(out)@ == old(out)@ + accent_html(accent),
{
    let ghost start = out@;
    if let Some(a) = accent {
        push_str(out, " ");
        push_str(out, "<span class=\"text-primary\">");
        push_escaped(out, a);
        push_str(out, "</span>");
    }
    assert(out@ =~= start + accent_html(accent));
}

impl<'a> Hero<'a> {
    /// The markup of the hero.
    pub open spec fn html(self) -> Seq<char> {
        "<section"@ + attr(
            "class"@,
            "relative pt-32 pb-16 md:pt-44 md:pb-24 overflow-hidden "@ + hero_bg_class(
                self.background,
            )@,
        ) + ">"@ + (if self.background == HeroBackground::GridLight {
            hero_decoration()
        } else {
            Seq::empty()
        }) + "<div class=\"container relative mx-auto px-4 md:px-6 z-10 max-w-4xl\">"@
            + match self.eyebrow {
            Some(e) => "<span class=\"inline-block px-4 py-1.5 rounded-full bg-primary/10 text-primary font-semibold text-sm mb-6 border border-primary/20 animate-fade-in-up\">"@
                + html_escape(e@) + "</span>"@,
            None => Seq::empty(),
        }
            + "<h1 class=\"font-display text-4xl md:text-5xl lg:text-6xl font-bold text-slate-900 leading-[1.1] mb-6 animate-fade-in-up delay-1\">"@
            + html_escape(self.headline_lead@) + accent_html(self.headline_accent) + "</h1>"@
            + "<p class=\"text-lg md:text-xl text-slate-600 mb-4 max-w-2xl leading-relaxed animate-fade-in-up delay-2\">"@
            + html_escape(self.subheadline@) + "</p>"@ + match self.cta {
            Some(cta) => "<div class=\"flex flex-col sm:flex-row gap-4 mt-4 animate-fade-in-up delay-3\">"@
                + cta@ + "</div>"@,
            None => Seq::empty(),
        } + "</div>"@ + "</section>"@
    }

    /// Render as `<section>`.
    pub fn render(&self) -> (r: String)
        ensures
            r@ == self.html(),
    {
        let bg_class = match self.background {
            HeroBackground::GridLight => "bg-slate-50",
            HeroBackground::Plain => "bg-white",
        };
        let mut class = String::new();
        push_str(&mut class, "relative pt-32 pb-16 md:pt-44 md:pb-24 overflow-hidden ");
        push_str(&mut class, bg_class);
        let mut out = String::new();
        push_str(&mut out, "<section");
        push_attr(&mut out, "class", class.as_str());
        push_str(&mut out, ">");
        let ghost a = out@;
        match self.background {
            HeroBackground::GridLight => {
                push_str(
                    &mut out,
                    "<div class=\"absolute inset-0 bg-[linear-gradient(to_right,#80808012_1px,transparent_1px),linear-gradient(to_bottom,#80808012_1px,transparent_1px)] bg-[size:24px_24px]\"></div>",
                );
                push_str(
                    &mut out,
                    "<div class=\"absolute top-0 right-0 w-1/3 h-full bg-gradient-to-l from-primary/5 to-transparent skew-x-12 transform origin-top-right translate-x-32\"></div>",
                );
            },
            HeroBackground::Plain => {},
        }
        let ghost b = out@;
        push_str(&mut out, "<div class=\"container relative mx-auto px-4 md:px-6 z-10 max-w-4xl\">");
        let ghost c = out@;
        if let Some(e) = self.eyebrow {
            push_str(
                &mut out,
                "<span class=\"inline-block px-4 py-1.5 rounded-full bg-primary/10 text-primary font-semibold text-sm mb-6 border border-primary/20 animate-fade-in-up\">",
            );
            push_escaped(&mut out, e);
            push_str(&mut out, "</span>");
        }
        let ghost d = out@;
        push_str(
            &mut out,
            "<h1 class=\"font-display text-4xl md:text-5xl lg:text-6xl font-bold text-slate-900 leading-[1.1] mb-6 animate-fade-in-up delay-1\">",
        );
        push_escaped(&mut out, self.headline_lead);
        push_accent(&mut out, self.headline_accent);
        push_str(&mut out, "</h1>");
        push_str(
            &mut out,
            "<p class=\"text-lg md:text-xl text-slate-600 mb-4 max-w-2xl leading-relaxed animate-fade-in-up delay-2\">",
        );
        push_escaped(&mut out, self.subheadline);
        push_str(&mut out, "</p>");
        let ghost e = out@;
        if let Some(cta) = self.cta {
            push_str(
                &mut out,
                "<div class=\"flex flex-col sm:flex-row gap-4 mt-4 animate-fade-in-up delay-3\">",
            );
            push_str(&mut out, cta);
            push_str(&mut out, "</div>");
        }
        let ghost f = out@;
        push_str(&mut out, "</div>");
        push_str(&mut out, "</section>");
        assert(out@ =~= self.html());
        out
    }
}

/// Background of a [`HeroEditorial`].
#[derive(Debug, Clone, Copy, PartialEq, Eq, Structural)]
pub enum HeroEditorialBackground {
    /// Plain slate-50 — the recommended default.
    Slate,
    /// Plain white.
    Plain,
    /// True black.
    Amoled,
}

/// Asymmetric editorial hero: language on the left, a typed decoration
/// on the right.
pub struct HeroEditorial<'a> {
    /// Plain uppercase kicker line above the headline.
    pub kicker: Option<&'a str>,
    /// Headline.
    pub headline: &'a str,
    /// Accent fragment after the headline, in the primary colour.
    pub headline_accent: Option<&'a str>,
    /// Lede paragraph.
    pub lede: &'a str,
    /// CTA cluster, already HTML (emitted unescaped).
    pub cta: Option<&'a str>,
    /// Right-column decoration, already HTML; `None` makes the hero a
    /// single column.
    pub decoration: Option<&'a str>,
    /// Background style.
    pub background: HeroEditorialBackground,
}

/// Surface and ink of an editorial background.
pub open spec fn editorial_bg_class(b: HeroEditorialBackground) -> &'static str {
    match b {
        HeroEditorialBackground::Slate => "bg-slate-50 text-slate-900",
        HeroEditorialBackground::Plain => "bg-white text-slate-900",
        HeroEditorialBackground::Amoled => "bg-black text-slate-100",
    }
}

/// Kicker ink of an editorial background.
pub open spec fn editorial_kicker_tone(b: HeroEditorialBackground) -> &'static str {
    match b {
        HeroEditorialBackground::Amoled => "text-slate-400",
        _ => "text-slate-500",
    }
}

/// Lede ink of an editorial background.
pub open spec fn editorial_lede_tone(b: HeroEditorialBackground) -> &'static str {
    match b {
        HeroEditorialBackground::Amoled => "text-slate-300",
        _ => "text-slate-700",
    }
}

impl<'a> HeroEditorial<'a> {
    /// Grid columns: a 3:2 split on `md` up when there is a decoration.
    pub open spec fn grid_cols(self) -> &'static str {
        if self.decoration is Some {
            "md:grid-cols-[3fr_2fr] md:gap-12"
        } else {
            "md:grid-cols-1"
        }
    }

    /// The kicker paragraph, when there is a kicker.
    pub open spec fn kicker_html(self) -> Seq<char> {
        match self.kicker {
            Some(k) => "<p"@ + attr(
                "class"@,
                "text-xs md:text-sm font-mono uppercase tracking-widest "@ + editorial_kicker_tone(
                    self.background,
                )@,
            ) + ">"@ + html_escape(k@) + "</p>"@,
            None => Seq::empty(),
        }
    }

    /// The headline with its accent.
    pub open spec fn headline_html(self) -> Seq<char> {
        "<h1 class=\"font-display text-4xl md:text-5xl lg:text-6xl font-semibold leading-[1.05] tracking-tight\">"@
            + html_escape(self.headline@) + accent_html(self.headline_accent) + "</h1>"@
    }

    /// The lede paragraph.
    pub open spec fn lede_html(self) -> Seq<char> {
        "<p"@ + attr(
            "class"@,
            "text-base md:text-lg leading-relaxed max-w-prose "@ + editorial_lede_tone(
                self.background,
            )@,
        ) + ">"@ + html_escape(self.lede@) + "</p>"@
    }

    /// The CTA cluster, when there is one.
    pub open spec fn cta_html(self) -> Seq<char> {
        match self.cta {
            Some(cta) => "<div class=\"flex flex-col sm:flex-row gap-3 mt-2\">"@ + cta@ + "</div>"@,
            None => Seq::empty(),
        }
    }

    /// The left column: kicker, headline with accent, lede, CTA cluster.
    pub open spec fn left_column(self) -> Seq<char> {
        "<div class=\"flex flex-col gap-4 md:gap-6\">"@ + self.kicker_html() + self.headline_html()
            + self.lede_html() + self.cta_html() + "</div>"@
    }

    /// The markup of the editorial hero.
    pub open spec fn html(self) -> Seq<char> {
        "<section"@ + attr(
            "class"@,
            "relative pt-24 pb-12 md:pt-36 md:pb-20 "@ + editorial_bg_class(self.background)@,
        ) + ">"@ + "<div class=\"container mx-auto px-4 md:px-6 max-w-6xl\">"@ + "<div"@ + attr(
            "class"@,
            "grid grid-cols-1 "@ + self.grid_cols()@ + " items-start"@,
        ) + ">"@ + self.left_column() + match self.decoration {
            Some(deco) => "<div class=\"mt-8 md:mt-0\">"@ + deco@ + "</div>"@,
            None => Seq::empty(),
        } + "</div>"@ + "</div>"@ + "</section>"@
    }

    fn push_kicker(&self, out: &mut String)
        ensures
            final(out)@ == old(out)@ + self.kicker_html(),
    {
        let ghost start = out@;
        if let Some(k) = self.kicker {
            let kicker_tone = match self.background {
                HeroEditorialBackground::Amoled => "text-slate-400",
                _ => "text-slate-500",
            };
            let mut kicker_class = String::new();
            push_str(&mut kicker_class, "text-xs md:text-sm font-mono uppercase tracking-widest ");
            push_str(&mut kicker_class, kicker_tone);
            push_str(out, "<p");
            push_attr(out, "class", kicker_class.as_str());
            push_str(out, ">");
            push_escaped(out, k);
            push_str(out, "</p>");
        }
        assert(out@ =~= start + self.kicker_html());
    }

    fn push_headline(&self, out: &mut String)
        ensures
            final(out)@ == old(out)@ + self.headline_html(),
    {
        let ghost start = out@;
        push_str(
            out,
            "<h1 class=\"font-display text-4xl md:text-5xl lg:text-6xl font-semibold leading-[1.05] tracking-tight\">",
        );
        push_escaped(out, self.headline);
        push_accent(out, self.headline_accent);
        push_str(out, "</h1>");
        assert(out@ =~= start + self.headline_html());
    }

    fn push_lede(&self, out: &mut String)
        ensures
            final(out)@ == old(out)@ + self.lede_html(),
    {
        let ghost start = out@;
        let lede_tone = match self.background {
            HeroEditorialBackground::Amoled => "text-slate-300",
            _ => "text-slate-700",
        };
        let mut lede_class = String::new();
        push_str(&mut lede_class, "text-base md:text-lg leading-relaxed max-w-prose ");
        push_str(&mut lede_class, lede_tone);
        push_str(out, "<p");
        push_attr(out, "class", lede_class.as_str());
        push_str(out, ">");
        push_escaped(out, self.lede);
        push_str(out, "</p>");
        assert(out@ =~= start + self.lede_html());
    }

    fn push_left_column(&self, out: &mut String)
        ensures
            final(out)@ == old(out)@ + self.left_column(),
    {
        let ghost start = out@;
        push_str(out, "<div class=\"flex flex-col gap-4 md:gap-6\">");
        self.push_kicker(out);
        self.push_headline(out);
        self.push_lede(out);
        let ghost c = out@;
        if let Some(cta) = self.cta {
            push_str(out, "<div class=\"flex flex-col sm:flex-row gap-3 mt-2\">");
            push_str(out, cta);
            push_str(out, "</div>");
        }
        assert(out@ =~= c + self.cta_html());
        push_str(out, "</div>");
        assert(out@ =~= start + self.left_column());
    }

    /// Render as `<section>`.
    pub fn render(&self) -> (r: String)
        ensures
            r@ == self.html(),
    {
        let bg_class = match self.background {
            HeroEditorialBackground::Slate => "bg-slate-50 text-slate-900",
            HeroEditorialBackground::Plain => "bg-white text-slate-900",
            HeroEditorialBackground::Amoled => "bg-black text-slate-100",
        };
        let grid_cols = if self.decoration.is_some() {
            "md:grid-cols-[3fr_2fr] md:gap-12"
        } else {
            "md:grid-cols-1"
        };
        let mut section_class = String::new();
        push_str(&mut section_class, "relative pt-24 pb-12 md:pt-36 md:pb-20 ");
        push_str(&mut section_class, bg_class);
        let mut grid_class = String::new();
        push_str(&mut grid_class, "grid grid-cols-1 ");
        push_str(&mut grid_class, grid_cols);
        push_str(&mut grid_class, " items-start");
        let mut out = String::new();
        push_str(&mut out, "<section");
        push_attr(&mut out, "class", section_class.as_str());
        push_str(&mut out, ">");
        push_str(&mut out, "<div class=\"container mx-auto px-4 md:px-6 max-w-6xl\">");
        push_str(&mut out, "<div");
        push_attr(&mut out, "class", grid_class.as_str());
        push_str(&mut out, ">");
        self.push_left_column(&mut out);
        let ghost e = out@;
        if let Some(deco) = self.decoration {
            push_str(&mut out, "<div class=\"mt-8 md:mt-0\">");
            push_str(&mut out, deco);
            push_str(&mut out, "</div>");
        }
        let ghost f = out@;
        push_str(&mut out, "</div>");
        push_str(&mut out, "</div>");
        push_str(&mut out, "</section>");
        assert(out@ =~= self.html());
        out
    }
}

} // verus!
