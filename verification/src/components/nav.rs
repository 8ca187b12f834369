//! Typed `Nav` primitive — the fixed top bar: brand block, links with a
//! derived active state, CTA buttons, and the mobile drawer and toggle,
//! all stamped from the same data.

use vstd::prelude::*;
use crate::components::button::{
    Button, ButtonSize, ButtonType, ButtonVariant, Decoration, IconPosition,
};
use crate::icons::{class_slot, Icon};
use crate::text::{attr, html_escape, push_attr, push_escaped, push_str, replace_all, str_eq, trim, trimmed};

verus! {

/// One link in the top bar.
pub struct NavLink<'a> {
    /// Destination href; compared with [`Nav::current`] for the active state.
    pub href: &'a str,
    /// Visible label.
    pub label: &'a str,
}

/// A CTA: a button on desktop, a wide pill link in the drawer.
pub struct NavCta<'a> {
    /// Destination href.
    pub href: &'a str,
    /// Visible label.
    pub label: &'a str,
    /// Visual style of the desktop button and the mobile pill.
    pub variant: ButtonVariant,
    /// Optional trusted SVG for the desktop button.
    pub icon: Option<&'a str>,
    /// Accessible-name override.
    pub aria_label: Option<&'a str>,
}

/// Visual chrome.
#[derive(Debug, Clone, Copy, PartialEq, Eq, Structural)]
pub enum NavStyle {
    /// Animated logo badge and sliding underline — the default.
    Standard,
    /// Static logo badge and static underline.
    Editorial,
}

impl Default for NavStyle {
    /// Standard.
    fn default() -> (r: Self)
        ensures
            r == NavStyle::Standard,
    {
        NavStyle::Standard
    }
}

/// The full top nav.
pub struct Nav<'a> {
    /// Brand logo icon.
    pub brand_logo: Icon,
    /// Brand name (the dark portion).
    pub brand_name: &'a str,
    /// Brand accent in the primary colour.
    pub brand_accent: &'a str,
    /// Top-level links.
    pub links: &'a [NavLink<'a>],
    /// CTA buttons.
    pub ctas: &'a [NavCta<'a>],
    /// Current request path; drives the active styling.
    pub current: &'a str,
    /// Visual chrome.
    pub style: NavStyle,
}

/// The hamburger glyph of the mobile toggle.
pub open spec fn menu_icon_svg() -> &'static str {
    r#"<svg xmlns="http://www.w3.org/2000/svg" width="24" height="24" viewBox="0 0 24 24" fill="none" stroke="currentColor" stroke-width="2" stroke-linecap="round" stroke-linejoin="round" class="lucide lucide-menu w-6 h-6"><line x1="4" x2="20" y1="12" y2="12"></line><line x1="4" x2="20" y1="6" y2="6"></line><line x1="4" x2="20" y1="18" y2="18"></line></svg>"#
}

/// Underline bar classes of a link.
pub open spec fn nav_bar_class(style: NavStyle, active: bool) -> &'static str {
    match (style, active) {
        (NavStyle::Standard, true) => "absolute -bottom-1 left-0 h-0.5 bg-primary transition-all duration-300 w-full",
        (NavStyle::Standard, false) => "absolute -bottom-1 left-0 h-0.5 bg-primary transition-all duration-300 w-0 group-hover:w-full",
        (NavStyle::Editorial, true) => "absolute -bottom-1 left-0 h-0.5 bg-primary w-full",
        (NavStyle::Editorial, false) => "absolute -bottom-1 left-0 h-0.5 bg-primary w-0",
    }
}

/// Hover-transition classes of a style.
pub open spec fn nav_transition(style: NavStyle) -> &'static str {
    match style {
        NavStyle::Standard => "transition-colors hover:text-primary",
        NavStyle::Editorial => "",
    }
}

/// The desktop markup of a link; active when its href is `current`.
pub open spec fn desktop_link_html(link: NavLink, current: Seq<char>, style: NavStyle) -> Seq<char> {
    let active = link.href@ == current;
    let text_class = if active {
        "text-primary"@
    } else {
        "text-slate-600"@
    };
    "<a"@ + attr("href"@, link.href@) + ">"@ + "<span"@ + attr(
        "class"@,
        trim(
            "text-sm font-medium "@ + nav_transition(style)@ + " cursor-pointer relative group "@
                + text_class,
        ),
    ) + ">"@ + html_escape(link.label@) + "<span"@ + attr("class"@, nav_bar_class(style, active)@)
        + "></span>"@ + "</span>"@ + "</a>"@
}

/// The desktop button of a CTA: small, with the icon before the label,
/// and a soft shadow on the primary variant.
pub open spec fn cta_button(cta: NavCta) -> Button {
    Button {
        label: cta.label,
        variant: cta.variant,
        size: ButtonSize::Sm,
        aria_label: cta.aria_label,
        icon: match cta.icon {
            Some(svg) => Some((svg, IconPosition::Before)),
            None => None,
        },
        decoration: if cta.variant == ButtonVariant::Primary {
            Decoration::SoftShadow
        } else {
            Decoration::Plain
        },
        button_type: ButtonType::Button,
    }
}

/// The desktop markup of a CTA: its button inside an anchor.
pub open spec fn desktop_cta_html(cta: NavCta) -> Seq<char> {
    "<a"@ + attr("href"@, cta.href@) + ">"@ + cta_button(cta).html() + "</a>"@
}

/// The drawer markup of a link.
pub open spec fn mobile_link_html(link: NavLink) -> Seq<char> {
    "<a"@ + attr("href"@, link.href@)
        + " class=\"text-sm font-medium text-slate-700 hover:text-primary py-2\">"@ + html_escape(
        link.label@,
    ) + "</a>"@
}

/// Pill classes of a drawer CTA: emerald outline for the success
/// variant, primary fill otherwise.
pub open spec fn mobile_cta_class(v: ButtonVariant) -> &'static str {
    match v {
        ButtonVariant::OutlineSuccess => "mt-2 inline-flex items-center justify-center gap-2 whitespace-nowrap font-medium rounded-md border border-emerald-500/50 text-emerald-700 hover:bg-emerald-50 min-h-8 px-3 text-xs py-2",
        _ => "inline-flex items-center justify-center gap-2 whitespace-nowrap font-medium rounded-md bg-primary text-primary-foreground min-h-8 px-3 text-xs py-2",
    }
}

/// The drawer markup of a CTA.
pub open spec fn mobile_cta_html(cta: NavCta) -> Seq<char> {
    "<a"@ + attr("href"@, cta.href@) + attr("class"@, mobile_cta_class(cta.variant)@) + ">"@
        + html_escape(cta.label@) + "</a>"@
}

/// Desktop links, in order.
pub open spec fn desktop_links_html(links: Seq<NavLink>, current: Seq<char>, style: NavStyle) -> Seq<
    char,
>
    decreases links.len(),
{
    if links.len() == 0 {
        Seq::empty()
    } else {
        desktop_links_html(links.drop_last(), current, style) + desktop_link_html(
            links.last(),
            current,
            style,
        )
    }
}

/// Desktop CTAs, in order.
pub open spec fn desktop_ctas_html(ctas: Seq<NavCta>) -> Seq<char>
    decreases ctas.len(),
{
    if ctas.len() == 0 {
        Seq::empty()
    } else {
        desktop_ctas_html(ctas.drop_last()) + desktop_cta_html(ctas.last())
    }
}

/// Drawer links, in order.
pub open spec fn mobile_links_html(links: Seq<NavLink>) -> Seq<char>
    decreases links.len(),
{
    if links.len() == 0 {
        Seq::empty()
    } else {
        mobile_links_html(links.drop_last()) + mobile_link_html(links.last())
    }
}

/// Drawer CTAs, in order.
pub open spec fn mobile_ctas_html(ctas: Seq<NavCta>) -> Seq<char>
    decreases ctas.len(),
{
    if ctas.len() == 0 {
        Seq::empty()
    } else {
        mobile_ctas_html(ctas.drop_last()) + mobile_cta_html(ctas.last())
    }
}

/// Logo badge classes of a style.
pub open spec fn nav_logo_class(style: NavStyle) -> &'static str {
    match style {
        NavStyle::Standard => "bg-primary p-1.5 rounded-lg group-hover:scale-105 transition-transform duration-300",
        NavStyle::Editorial => "bg-primary p-1.5 rounded-none",
    }
}

/// `data-loom-nav-style` value.
pub open spec fn nav_style_attr(style: NavStyle) -> &'static str {
    match style {
        NavStyle::Standard => "standard",
        NavStyle::Editorial => "editorial",
    }
}

fn render_desktop_link(out: &mut String, link: &NavLink, current: &str, style: NavStyle)
    ensures
        final(out)@ == old(out)@ + desktop_link_html(*link, current@, style),
{
    let ghost start = out@;
    let is_active = str_eq(link.href, current);
    let text_class = if is_active {
        "text-primary"
    } else {
        "text-slate-600"
    };
    let bar_class = match (style, is_active) {
        (NavStyle::Standard, true) => "absolute -bottom-1 left-0 h-0.5 bg-primary transition-all duration-300 w-full",
        (NavStyle::Standard, false) => "absolute -bottom-1 left-0 h-0.5 bg-primary transition-all duration-300 w-0 group-hover:w-full",
        (NavStyle::Editorial, true) => "absolute -bottom-1 left-0 h-0.5 bg-primary w-full",
        (NavStyle::Editorial, false) => "absolute -bottom-1 left-0 h-0.5 bg-primary w-0",
    };
    let transition_classes = match style {
        NavStyle::Standard => "transition-colors hover:text-primary",
        NavStyle::Editorial => "",
    };
    let mut span_class = String::new();
    push_str(&mut span_class, "text-sm font-medium ");
    push_str(&mut span_class, transition_classes);
    push_str(&mut span_class, " cursor-pointer relative group ");
    push_str(&mut span_class, text_class);
    let span_class = trimmed(span_class.as_str());
    push_str(out, "<a");
    push_attr(out, "href", link.href);
    push_str(out, ">");
    push_str(out, "<span");
    push_attr(out, "class", span_class.as_str());
    push_str(out, ">");
    push_escaped(out, link.label);
    push_str(out, "<span");
    push_attr(out, "class", bar_class);
    push_str(out, "></span>");
    push_str(out, "</span>");
    push_str(out, "</a>");
    assert(out@ =~= start + desktop_link_html(*link, current@, style));
}

fn render_desktop_cta(out: &mut String, cta: &NavCta)
    ensures
        final(out)@ == old(out)@ + desktop_cta_html(*cta),
{
    let ghost start = out@;
    let icon_pair = match cta.icon {
        Some(svg) => Some((svg, IconPosition::Before)),
        None => None,
    };
    let decoration = match cta.variant {
        ButtonVariant::Primary => Decoration::SoftShadow,
        _ => Decoration::Plain,
    };
    let button = Button {
        label: cta.label,
        variant: cta.variant,
        size: ButtonSize::Sm,
        aria_label: cta.aria_label,
        icon: icon_pair,
        decoration,
        button_type: ButtonType::Button,
    };
    assert(button == cta_button(*cta));
    let markup = button.render();
    push_str(out, "<a");
    push_attr(out, "href", cta.href);
    push_str(out, ">");
    push_str(out, markup.as_str());
    push_str(out, "</a>");
    assert(out@ =~= start + desktop_cta_html(*cta));
}

fn push_mobile_link(out: &mut String, link: &NavLink)
    ensures
        final(out)@ == old(out)@ + mobile_link_html(*link),
{
    let ghost start = out@;
    push_str(out, "<a");
    push_attr(out, "href", link.href);
    push_str(out, " class=\"text-sm font-medium text-slate-700 hover:text-primary py-2\">");
    push_escaped(out, link.label);
    push_str(out, "</a>");
    assert(out@ =~= start + mobile_link_html(*link));
}

fn render_mobile_cta(out: &mut String, cta: &NavCta)
    ensures
        final(out)@ == old(out)@ + mobile_cta_html(*cta),
{
    let ghost start = out@;
    let class = match cta.variant {
        ButtonVariant::OutlineSuccess => "mt-2 inline-flex items-center justify-center gap-2 whitespace-nowrap font-medium rounded-md border border-emerald-500/50 text-emerald-700 hover:bg-emerald-50 min-h-8 px-3 text-xs py-2",
        _ => "inline-flex items-center justify-center gap-2 whitespace-nowrap font-medium rounded-md bg-primary text-primary-foreground min-h-8 px-3 text-xs py-2",
    };
    push_str(out, "<a");
    push_attr(out, "href", cta.href);
    push_attr(out, "class", class);
    push_str(out, ">");
    push_escaped(out, cta.label);
    push_str(out, "</a>");
    assert(out@ =~= start + mobile_cta_html(*cta));
}

impl<'a> Nav<'a> {
    /// The brand anchor: logo badge, name and accent.
    pub open spec fn brand_html(self) -> Seq<char> {
        "<a href=\"/\">"@ + "<div class=\"flex items-center gap-2 cursor-pointer group\">"@ + "<div"@
            + attr("class"@, nav_logo_class(self.style)@) + ">"@ + replace_all(
            self.brand_logo.template@,
            class_slot(),
            "lucide lucide-shield w-6 h-6 text-white"@,
        ) + "</div>"@
            + "<span class=\"font-display font-bold text-xl tracking-tight transition-colors text-slate-900\">"@
            + html_escape(self.brand_name@) + " "@ + "<span class=\"text-primary\">"@ + html_escape(
            self.brand_accent@,
        ) + "</span>"@ + "</span>"@ + "</div>"@ + "</a>"@
    }

    /// The desktop bar: brand, links and CTAs, and the drawer toggle.
    pub open spec fn bar_html(self) -> Seq<char> {
        "<div class=\"container mx-auto px-4 md:px-6 flex items-center justify-between\">"@
            + self.brand_html() + "<div class=\"hidden md:flex items-center gap-6\">"@
            + desktop_links_html(self.links@, self.current@, self.style) + desktop_ctas_html(
            self.ctas@,
        ) + "</div>"@
            + "<button id=\"mobile-menu-toggle\" aria-expanded=\"false\" aria-controls=\"mobile-menu\" class=\"md:hidden p-2 text-slate-600\" aria-label=\"Toggle menu\">"@
            + menu_icon_svg()@ + "</button>"@ + "</div>"@
    }

    /// The mobile drawer, hidden at first.
    pub open spec fn drawer_html(self) -> Seq<char> {
        "<div id=\"mobile-menu\" class=\"md:hidden hidden border-t border-slate-200 bg-white\" aria-hidden=\"true\">"@
            + "<div class=\"container mx-auto px-4 py-4 flex flex-col gap-3\">"@ + mobile_links_html(
            self.links@,
        ) + mobile_ctas_html(self.ctas@) + "</div>"@ + "</div>"@
    }

    /// The markup of the nav.
    pub open spec fn html(self) -> Seq<char> {
        "<nav id=\"site-nav\" class=\"fixed top-0 left-0 right-0 z-50 transition-all duration-300 border-b bg-transparent border-transparent py-5\""@
            + attr("data-loom-nav-style"@, nav_style_attr(self.style)@) + ">"@ + self.bar_html()
            + self.drawer_html() + "</nav>"@
    }

    fn push_brand(&self, out: &mut String)
        ensures
            final(out)@ == old(out)@ + self.brand_html(),
    {
        let ghost start = out@;
        let logo_svg = self.brand_logo.render_with_class("lucide lucide-shield w-6 h-6 text-white");
        let logo_class = match self.style {
            NavStyle::Standard => "bg-primary p-1.5 rounded-lg group-hover:scale-105 transition-transform duration-300",
            NavStyle::Editorial => "bg-primary p-1.5 rounded-none",
        };
        push_str(out, "<a href=\"/\">");
        push_str(out, "<div class=\"flex items-center gap-2 cursor-pointer group\">");
        push_str(out, "<div");
        push_attr(out, "class", logo_class);
        push_str(out, ">");
        push_str(out, logo_svg.as_str());
        push_str(out, "</div>");
        push_str(
            out,
            "<span class=\"font-display font-bold text-xl tracking-tight transition-colors text-slate-900\">",
        );
        push_escaped(out, self.brand_name);
        push_str(out, " ");
        push_str(out, "<span class=\"text-primary\">");
        push_escaped(out, self.brand_accent);
        push_str(out, "</span>");
        push_str(out, "</span>");
        push_str(out, "</div>");
        push_str(out, "</a>");
        assert(out@ =~= start + self.brand_html());
    }

    fn push_bar(&self, out: &mut String)
        ensures
            final(out)@ == old(out)@ + self.bar_html(),
    {
        let ghost start = out@;
        push_str(out, "<div class=\"container mx-auto px-4 md:px-6 flex items-center justify-between\">");
        self.push_brand(out);
        push_str(out, "<div class=\"hidden md:flex items-center gap-6\">");
        let ghost before_links = out@;
        let mut i: usize = 0;
        while i < self.links.len()
            invariant
                i <= self.links@.len(),
                out@ == before_links + desktop_links_html(
                    self.links@.take(i as int),
                    self.current@,
                    self.style,
                ),
            decreases self.links.len() - i,
        {
            render_desktop_link(out, &self.links[i], self.current, self.style);
            assert(self.links@.take(i + 1).drop_last() =~= self.links@.take(i as int));
            i = i + 1;
        }
        assert(self.links@.take(i as int) =~= self.links@);
        let ghost before_ctas = out@;
        let mut j: usize = 0;
        while j < self.ctas.len()
            invariant
                j <= self.ctas@.len(),
                out@ == before_ctas + desktop_ctas_html(self.ctas@.take(j as int)),
            decreases self.ctas.len() - j,
        {
            render_desktop_cta(out, &self.ctas[j]);
            assert(self.ctas@.take(j + 1).drop_last() =~= self.ctas@.take(j as int));
            j = j + 1;
        }
        assert(self.ctas@.take(j as int) =~= self.ctas@);
        push_str(out, "</div>");
        push_str(
            out,
            "<button id=\"mobile-menu-toggle\" aria-expanded=\"false\" aria-controls=\"mobile-menu\" class=\"md:hidden p-2 text-slate-600\" aria-label=\"Toggle menu\">",
        );
        push_str(
            out,
            r#"<svg xmlns="http://www.w3.org/2000/svg" width="24" height="24" viewBox="0 0 24 24" fill="none" stroke="currentColor" stroke-width="2" stroke-linecap="round" stroke-linejoin="round" class="lucide lucide-menu w-6 h-6"><line x1="4" x2="20" y1="12" y2="12"></line><line x1="4" x2="20" y1="6" y2="6"></line><line x1="4" x2="20" y1="18" y2="18"></line></svg>"#,
        );
        push_str(out, "</button>");
        push_str(out, "</div>");
        assert(out@ =~= start + self.bar_html());
    }

    fn push_drawer(&self, out: &mut String)
        ensures
            final(out)@ == old(out)@ + self.drawer_html(),
    {
        let ghost start = out@;
        push_str(
            out,
            "<div id=\"mobile-menu\" class=\"md:hidden hidden border-t border-slate-200 bg-white\" aria-hidden=\"true\">",
        );
        push_str(out, "<div class=\"container mx-auto px-4 py-4 flex flex-col gap-3\">");
        let ghost before_links = out@;
        let mut i: usize = 0;
        while i < self.links.len()
            invariant
                i <= self.links@.len(),
                out@ == before_links + mobile_links_html(self.links@.take(i as int)),
            decreases self.links.len() - i,
        {
            push_mobile_link(out, &self.links[i]);
            assert(self.links@.take(i + 1).drop_last() =~= self.links@.take(i as int));
            i = i + 1;
        }
        assert(self.links@.take(i as int) =~= self.links@);
        let ghost before_ctas = out@;
        let mut j: usize = 0;
        while j < self.ctas.len()
            invariant
                j <= self.ctas@.len(),
                out@ == before_ctas + mobile_ctas_html(self.ctas@.take(j as int)),
            decreases self.ctas.len() - j,
        {
            render_mobile_cta(out, &self.ctas[j]);
            assert(self.ctas@.take(j + 1).drop_last() =~= self.ctas@.take(j as int));
            j = j + 1;
        }
        assert(self.ctas@.take(j as int) =~= self.ctas@);
        push_str(out, "</div>");
        push_str(out, "</div>");
        assert(out@ =~= start + self.drawer_html());
    }

    /// Render as `<nav id="site-nav">` holding the bar and the drawer.
    pub fn render(&self) -> (r: String)
        ensures
            r@ == self.html(),
    {
        let nav_style_attr = match self.style {
            NavStyle::Standard => "standard",
            NavStyle::Editorial => "editorial",
        };
        let mut out = String::new();
        push_str(
            &mut out,
            "<nav id=\"site-nav\" class=\"fixed top-0 left-0 right-0 z-50 transition-all duration-300 border-b bg-transparent border-transparent py-5\"",
        );
        push_attr(&mut out, "data-loom-nav-style", nav_style_attr);
        push_str(&mut out, ">");
        self.push_bar(&mut out);
        self.push_drawer(&mut out);
        push_str(&mut out, "</nav>");
        assert(out@ =~= self.html());
        out
    }
}

} // verus!
