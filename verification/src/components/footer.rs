//! Typed `Footer` primitive — the site footer: a brand column, uniform
//! heading-plus-items columns, and a bottom band with the copyright and
//! legal links.

use vstd::prelude::*;
use crate::icons::{class_slot, Icon};
use crate::text::{attr, html_escape, push_attr, push_escaped, push_str, replace_all};

verus! {

/// One item inside a footer column.
#[allow(inconsistent_fields)]
pub enum FooterItem<'a> {
    /// Hyperlinked text.
    Link {
        /// Destination href.
        href: &'a str,
        /// Visible label.
        label: &'a str,
    },
    /// Plain text.
    Text {
        /// Visible text.
        text: &'a str,
    },
    /// Icon + label, optionally linked (phone, email, address rows).
    Contact {
        /// Registry icon.
        icon: Icon,
        /// Display label.
        label: &'a str,
        /// Optional href (`tel:`, `mailto:`), `None` for plain text.
        href: Option<&'a str>,
    },
}

/// One column.
pub struct FooterColumn<'a> {
    /// Column heading.
    pub heading: &'a str,
    /// Column items.
    pub items: &'a [FooterItem<'a>],
}

/// One link in the bottom legal row.
pub struct FooterLegalLink<'a> {
    /// Destination href.
    pub href: &'a str,
    /// Visible label.
    pub label: &'a str,
}

/// The full site footer.
pub struct Footer<'a> {
    /// Brand logo icon.
    pub brand_logo: Icon,
    /// Brand name.
    pub brand_name: &'a str,
    /// Brand accent in the primary colour.
    pub brand_accent: &'a str,
    /// One-paragraph brand tagline.
    pub brand_tagline: &'a str,
    /// Footer columns.
    pub columns: &'a [FooterColumn<'a>],
    /// Copyright text of the bottom band.
    pub copyright: &'a str,
    /// Legal links of the bottom band.
    pub legal_links: &'a [FooterLegalLink<'a>],
}

/// The `<li>` of one item.
pub open spec fn item_html(item: FooterItem) -> Seq<char> {
    match item {
        FooterItem::Link { href, label } => "<li>"@ + "<a"@ + attr("href"@, href@) + ">"@
            + "<span class=\"text-sm hover:text-white transition-colors cursor-pointer\">"@
            + html_escape(label@) + "</span>"@ + "</a>"@ + "</li>"@,
        FooterItem::Text { text } => "<li class=\"text-sm\">"@ + html_escape(text@) + "</li>"@,
        FooterItem::Contact { icon, label, href } => "<li class=\"flex items-start gap-3\">"@
            + replace_all(icon.template@, class_slot(), "w-5 h-5 text-primary shrink-0 mt-0.5"@)
            + match href {
            Some(h) => "<a"@ + attr("href"@, h@) + ">"@
                + "<span class=\"text-sm hover:text-white transition-colors\">"@ + html_escape(
                label@,
            ) + "</span>"@ + "</a>"@,
            None => "<span class=\"text-sm\">"@ + html_escape(label@) + "</span>"@,
        } + "</li>"@,
    }
}

/// The items of a column, in order.
pub open spec fn items_html(items: Seq<FooterItem>) -> Seq<char>
    decreases items.len(),
{
    if items.len() == 0 {
        Seq::empty()
    } else {
        items_html(items.drop_last()) + item_html(items.last())
    }
}

/// Some item is a contact row.
pub open spec fn has_contact(items: Seq<FooterItem>) -> bool {
    exists|i: int| 0 <= i < items.len() && items[i] is Contact
}

/// The markup of a column; the list spaces out further when it holds a
/// contact row.
pub open spec fn column_html(col: FooterColumn) -> Seq<char> {
    "<div class=\"space-y-6\">"@ + "<h3 class=\"text-white font-display font-semibold text-lg\">"@
        + html_escape(col.heading@) + "</h3>"@ + (if has_contact(col.items@) {
        "<ul class=\"space-y-3 space-y-4\">"@
    } else {
        "<ul class=\"space-y-3\">"@
    }) + items_html(col.items@) + "</ul>"@ + "</div>"@
}

/// The columns, in order.
pub open spec fn columns_html(cols: Seq<FooterColumn>) -> Seq<char>
    decreases cols.len(),
{
    if cols.len() == 0 {
        Seq::empty()
    } else {
        columns_html(cols.drop_last()) + column_html(cols.last())
    }
}

/// The markup of a legal link.
pub open spec fn legal_html(link: FooterLegalLink) -> Seq<char> {
    "<a"@ + attr("href"@, link.href@) + ">"@
        + "<span class=\"hover:text-white transition-colors cursor-pointer\">"@ + html_escape(
        link.label@,
    ) + "</span>"@ + "</a>"@
}

/// The legal links, in order.
pub open spec fn legals_html(links: Seq<FooterLegalLink>) -> Seq<char>
    decreases links.len(),
{
    if links.len() == 0 {
        Seq::empty()
    } else {
        legals_html(links.drop_last()) + legal_html(links.last())
    }
}

fn any_contact(items: &[FooterItem]) -> (r: bool)
    ensures
        r == has_contact(items@),
{
    let mut i: usize = 0;
    while i < items.len()
        invariant
            i <= items@.len(),
            forall|k: int| 0 <= k < i ==> !(items@[k] is Contact),
        decreases items.len() - i,
    {
        if let FooterItem::Contact { .. } = &items[i] {
            return true;
        }
        i = i + 1;
    }
    false
}

fn item_li(out: &mut String, item: &FooterItem)
    ensures
        final(out)@ == old(out)@ + item_html(*item),
{
    let ghost start = out@;
    match item {
        FooterItem::Link { href, label } => {
            push_str(out, "<li>");
            push_str(out, "<a");
            push_attr(out, "href", href);
            push_str(out, ">");
            push_str(out, "<span class=\"text-sm hover:text-white transition-colors cursor-pointer\">");
            push_escaped(out, label);
            push_str(out, "</span>");
            push_str(out, "</a>");
            push_str(out, "</li>");
        },
        FooterItem::Text { text } => {
            push_str(out, "<li class=\"text-sm\">");
            push_escaped(out, text);
            push_str(out, "</li>");
        },
        FooterItem::Contact { icon, label, href } => {
            let svg = icon.render_with_class("w-5 h-5 text-primary shrink-0 mt-0.5");
            push_str(out, "<li class=\"flex items-start gap-3\">");
            push_str(out, svg.as_str());
            match href {
                Some(h) => {
                    push_str(out, "<a");
                    push_attr(out, "href", h);
                    push_str(out, ">");
                    push_str(out, "<span class=\"text-sm hover:text-white transition-colors\">");
                    push_escaped(out, label);
                    push_str(out, "</span>");
                    push_str(out, "</a>");
                },
                None => {
                    push_str(out, "<span class=\"text-sm\">");
                    push_escaped(out, label);
                    push_str(out, "</span>");
                },
            }
            push_str(out, "</li>");
        },
    }
    assert(out@ =~= start + item_html(*item));
}

fn column(out: &mut String, col: &FooterColumn)
    ensures
        final(out)@ == old(out)@ + column_html(*col),
{
    let ghost start = out@;
    push_str(out, "<div class=\"space-y-6\">");
    push_str(out, "<h3 class=\"text-white font-display font-semibold text-lg\">");
    push_escaped(out, col.heading);
    push_str(out, "</h3>");
    if any_contact(col.items) {
        push_str(out, "<ul class=\"space-y-3 space-y-4\">");
    } else {
        push_str(out, "<ul class=\"space-y-3\">");
    }
    let ghost before_items = out@;
    let mut i: usize = 0;
    while i < col.items.len()
        invariant
            i <= col.items@.len(),
            out@ == before_items + items_html(col.items@.take(i as int)),
        decreases col.items.len() - i,
    {
        item_li(out, &col.items[i]);
        assert(col.items@.take(i + 1).drop_last() =~= col.items@.take(i as int));
        i = i + 1;
    }
    assert(col.items@.take(i as int) =~= col.items@);
    push_str(out, "</ul>");
    push_str(out, "</div>");
    assert(out@ =~= start + column_html(*col));
}

impl<'a> Footer<'a> {
    /// The brand column: logo, name with accent, tagline.
    pub open spec fn brand_html(self) -> Seq<char> {
        "<div class=\"space-y-6\">"@ + "<div class=\"flex items-center gap-2 text-white\">"@
            + "<div class=\"bg-primary p-1.5 rounded-lg\">"@ + replace_all(
            self.brand_logo.template@,
            class_slot(),
            "w-6 h-6 text-white"@,
        ) + "</div>"@ + "<span class=\"font-display font-bold text-xl tracking-tight\">"@
            + html_escape(self.brand_name@) + " "@ + "<span class=\"text-primary\">"@ + html_escape(
            self.brand_accent@,
        ) + "</span>"@ + "</span>"@ + "</div>"@
            + "<p class=\"text-slate-400 text-sm leading-relaxed max-w-xs\">"@ + html_escape(
            self.brand_tagline@,
        ) + "</p>"@ + "</div>"@
    }

    /// The bottom band: copyright and legal links.
    pub open spec fn band_html(self) -> Seq<char> {
        "<div class=\"mt-16 pt-8 border-t border-slate-800 flex flex-col md:flex-row justify-between items-center gap-4 text-xs text-slate-500\">"@
            + "<p>"@ + html_escape(self.copyright@) + "</p>"@ + "<div class=\"flex gap-6\">"@
            + legals_html(self.legal_links@) + "</div>"@ + "</div>"@
    }

    /// The markup of the footer.
    pub open spec fn html(self) -> Seq<char> {
        "<footer class=\"bg-slate-900 text-slate-300 py-16\">"@
            + "<div class=\"container mx-auto px-4 md:px-6\">"@
            + "<div class=\"grid grid-cols-1 md:grid-cols-2 lg:grid-cols-4 gap-12\">"@
            + self.brand_html() + columns_html(self.columns@) + "</div>"@ + self.band_html()
            + "</div>"@ + "</footer>"@
    }

    fn push_brand(&self, out: &mut String)
        ensures
            final(out)@ == old(out)@ + self.brand_html(),
    {
        let ghost start = out@;
        let logo_svg = self.brand_logo.render_with_class("w-6 h-6 text-white");
        push_str(out, "<div class=\"space-y-6\">");
        push_str(out, "<div class=\"flex items-center gap-2 text-white\">");
        push_str(out, "<div class=\"bg-primary p-1.5 rounded-lg\">");
        push_str(out, logo_svg.as_str());
        push_str(out, "</div>");
        push_str(out, "<span class=\"font-display font-bold text-xl tracking-tight\">");
        push_escaped(out, self.brand_name);
        push_str(out, " ");
        push_str(out, "<span class=\"text-primary\">");
        push_escaped(out, self.brand_accent);
        push_str(out, "</span>");
        push_str(out, "</span>");
        push_str(out, "</div>");
        push_str(out, "<p class=\"text-slate-400 text-sm leading-relaxed max-w-xs\">");
        push_escaped(out, self.brand_tagline);
        push_str(out, "</p>");
        push_str(out, "</div>");
        assert(out@ =~= start + self.brand_html());
    }

    fn push_band(&self, out: &mut String)
        ensures
            final(out)@ == old(out)@ + self.band_html(),
    {
        let ghost start = out@;
        push_str(
            out,
            "<div class=\"mt-16 pt-8 border-t border-slate-800 flex flex-col md:flex-row justify-between items-center gap-4 text-xs text-slate-500\">",
        );
        push_str(out, "<p>");
        push_escaped(out, self.copyright);
        push_str(out, "</p>");
        push_str(out, "<div class=\"flex gap-6\">");
        let ghost before_links = out@;
        let mut i: usize = 0;
        while i < self.legal_links.len()
            invariant
                i <= self.legal_links@.len(),
                out@ == before_links + legals_html(self.legal_links@.take(i as int)),
            decreases self.legal_links.len() - i,
        {
            let link = &self.legal_links[i];
            let ghost before = out@;
            push_str(out, "<a");
            push_attr(out, "href", link.href);
            push_str(out, ">");
            push_str(out, "<span class=\"hover:text-white transition-colors cursor-pointer\">");
            push_escaped(out, link.label);
            push_str(out, "</span>");
            push_str(out, "</a>");
            assert(out@ =~= before + legal_html(*link));
            assert(self.legal_links@.take(i + 1).drop_last() =~= self.legal_links@.take(i as int));
            i = i + 1;
        }
        assert(self.legal_links@.take(i as int) =~= self.legal_links@);
        push_str(out, "</div>");
        push_str(out, "</div>");
        assert(out@ =~= start + self.band_html());
    }

    /// Render as `<footer>`.
    pub fn render(&self) -> (r: String)
        ensures
            r@ == self.html(),
    {
        let mut out = String::new();
        push_str(&mut out, "<footer class=\"bg-slate-900 text-slate-300 py-16\">");
        push_str(&mut out, "<div class=\"container mx-auto px-4 md:px-6\">");
        push_str(&mut out, "<div class=\"grid grid-cols-1 md:grid-cols-2 lg:grid-cols-4 gap-12\">");
        self.push_brand(&mut out);
        let ghost before_cols = out@;
        let mut i: usize = 0;
        while i < self.columns.len()
            invariant
                i <= self.columns@.len(),
                out@ == before_cols + columns_html(self.columns@.take(i as int)),
            decreases self.columns.len() - i,
        {
            column(&mut out, &self.columns[i]);
            assert(self.columns@.take(i + 1).drop_last() =~= self.columns@.take(i as int));
            i = i + 1;
        }
        assert(self.columns@.take(i as int) =~= self.columns@);
        push_str(&mut out, "</div>");
        self.push_band(&mut out);
        push_str(&mut out, "</div>");
        push_str(&mut out, "</footer>");
        assert(out@ =~= self.html());
        out
    }
}

} // verus!
