//! Typed `PullQuote` primitive — an editorial `<blockquote>` with a
//! left rule, one paragraph per blank-line-separated block, and an
//! optional attribution footer.

use vstd::prelude::*;
use crate::text::{
    attr, chars_of, find_next, first_from, first_from_bound, html_escape, push_attr, push_escaped,
    push_str, string_from_range, trim, trim_bounds,
};

verus! {

/// Emphasis tier of the quote body.
#[derive(Debug, Clone, Copy, PartialEq, Eq, Structural)]
pub enum PullQuoteEmphasis {
    /// Inline with body copy: `text-xl md:text-2xl`.
    Inline,
    /// Standalone display voice: `text-2xl md:text-3xl lg:text-4xl`.
    Display,
}

/// Colour tone.
#[derive(Debug, Clone, Copy, PartialEq, Eq, Structural)]
pub enum PullQuoteTone {
    /// Slate text on a light surface.
    Slate,
    /// Slate-100 on true black.
    Amoled,
}

/// Editorial pull quote.
pub struct PullQuote<'a> {
    /// Quote body; blocks separated by a blank line (`\n\n`) become
    /// separate paragraphs.
    pub body: &'a str,
    /// Attribution line, shown after an em dash in a `<footer>`.
    pub attribution: Option<&'a str>,
    /// Source URL for the `cite` attribute.
    pub cite_url: Option<&'a str>,
    /// Emphasis tier.
    pub emphasis: PullQuoteEmphasis,
    /// Tone.
    pub tone: PullQuoteTone,
}

/// The paragraph separator, a blank line.
pub open spec fn paragraph_break() -> Seq<char> {
    seq!['\n', '\n']
}

/// One paragraph: the trimmed block in a `<p>`, nothing when it is blank.
pub open spec fn paragraph_html(block: Seq<char>, class: Seq<char>) -> Seq<char> {
    if trim(block).len() == 0 {
        Seq::empty()
    } else {
        "<p"@ + attr("class"@, class) + ">"@ + html_escape(trim(block)) + "</p>"@
    }
}

/// The paragraphs of `s`: its blocks between blank-line separators,
/// left to right.
pub open spec fn paragraphs_html(s: Seq<char>, class: Seq<char>) -> Seq<char>
    decreases s.len(),
{
    match first_from(s, paragraph_break(), 0) {
        Some(i) => {
            proof {
                first_from_bound(s, paragraph_break(), 0);
            }
            paragraph_html(s.take(i as int), class) + paragraphs_html(s.skip(i + 2 as int), class)
        },
        None => paragraph_html(s, class),
    }
}

/// Body size and left padding of an emphasis tier.
pub open spec fn quote_sizing(e: PullQuoteEmphasis) -> (&'static str, &'static str) {
    match e {
        PullQuoteEmphasis::Inline => ("text-xl md:text-2xl", "pl-5 md:pl-6"),
        PullQuoteEmphasis::Display => ("text-2xl md:text-3xl lg:text-4xl", "pl-6 md:pl-8"),
    }
}

/// Border, body and attribution colours of a tone.
pub open spec fn quote_colours(t: PullQuoteTone) -> (&'static str, &'static str, &'static str) {
    match t {
        PullQuoteTone::Slate => ("border-slate-300", "text-slate-900", "text-slate-600"),
        PullQuoteTone::Amoled => ("border-slate-700", "text-slate-100", "text-slate-400"),
    }
}

fn push_paragraph(out: &mut String, v: &Vec<char>, lo: usize, hi: usize, class: &str)
    requires
        lo <= hi <= v@.len(),
    ensures
        final(out)@ == old(out)@ + paragraph_html(v@.subrange(lo as int, hi as int), class@),
{
    let ghost start = out@;
    let (a, b) = trim_bounds(v, lo, hi);
    if a < b {
        let text = string_from_range(v, a, b);
        push_str(out, "<p");
        push_attr(out, "class", class);
        push_str(out, ">");
        push_escaped(out, text.as_str());
        push_str(out, "</p>");
    }
    assert(out@ =~= start + paragraph_html(v@.subrange(lo as int, hi as int), class@));
}

impl<'a> PullQuote<'a> {
    /// The outer class.
    pub open spec fn outer_class(self) -> Seq<char> {
        let (_size, padding) = quote_sizing(self.emphasis);
        let (border, _body, _attr) = quote_colours(self.tone);
        "border-l-2 "@ + border@ + " "@ + padding@ + " flex flex-col gap-3"@
    }

    /// The class of every paragraph.
    pub open spec fn body_class(self) -> Seq<char> {
        let (size, _padding) = quote_sizing(self.emphasis);
        let (_border, body, _attr) = quote_colours(self.tone);
        "font-display font-medium leading-snug "@ + size@ + " "@ + body@
    }

    /// The markup of the quote.
    pub open spec fn html(self) -> Seq<char> {
        let (_border, _body, attr_color) = quote_colours(self.tone);
        "<blockquote"@ + attr("class"@, self.outer_class()) + match self.cite_url {
            Some(c) => attr("cite"@, c@),
            None => Seq::empty(),
        } + ">"@ + paragraphs_html(self.body@, self.body_class()) + match self.attribution {
            Some(a) => "<footer"@ + attr("class"@, "text-sm md:text-base leading-relaxed "@ + attr_color@)
                + ">"@ + "— "@ + html_escape(a@) + "</footer>"@,
            None => Seq::empty(),
        } + "</blockquote>"@
    }

    /// Render as `<blockquote>`.
    pub fn render(&self) -> (r: String)
        ensures
            r@ == self.html(),
    {
        let (body_size, padding_left) = match self.emphasis {
            PullQuoteEmphasis::Inline => ("text-xl md:text-2xl", "pl-5 md:pl-6"),
            PullQuoteEmphasis::Display => ("text-2xl md:text-3xl lg:text-4xl", "pl-6 md:pl-8"),
        };
        let (border_color, body_color, attr_color) = match self.tone {
            PullQuoteTone::Slate => ("border-slate-300", "text-slate-900", "text-slate-600"),
            PullQuoteTone::Amoled => ("border-slate-700", "text-slate-100", "text-slate-400"),
        };
        let mut outer = String::new();
        push_str(&mut outer, "border-l-2 ");
        push_str(&mut outer, border_color);
        push_str(&mut outer, " ");
        push_str(&mut outer, padding_left);
        push_str(&mut outer, " flex flex-col gap-3");
        let mut body_class = String::new();
        push_str(&mut body_class, "font-display font-medium leading-snug ");
        push_str(&mut body_class, body_size);
        push_str(&mut body_class, " ");
        push_str(&mut body_class, body_color);
        assert(body_class@ =~= self.body_class());
        let mut out = String::new();
        push_str(&mut out, "<blockquote");
        push_attr(&mut out, "class", outer.as_str());
        if let Some(c) = self.cite_url {
            push_attr(&mut out, "cite", c);
        }
        push_str(&mut out, ">");
        let ghost before = out@;
        let v = chars_of(self.body);
        let sep: Vec<char> = vec!['\n', '\n'];
        assert(sep@ == paragraph_break());
        let ghost class = body_class@;
        let mut i: usize = 0;
        let mut done = false;
        assert(v@.skip(0) =~= v@);
        while !done
            invariant
                i <= v@.len(),
                sep@ == paragraph_break(),
                class == body_class@,
                !done ==> before + paragraphs_html(v@, class) == out@ + paragraphs_html(
                    v@.skip(i as int),
                    class,
                ),
                done ==> out@ == before + paragraphs_html(v@, class),
            decreases v@.len() - i + (if done { 0int } else { 1int }),
        {
            let ghost s = v@.skip(i as int);
            match find_next(&v, &sep, i) {
                Some(j) => {
                    proof {
                        first_from_bound(s, paragraph_break(), 0);
                    }
                    assert(paragraph_break().len() == 2);
                    assert(j + 2 <= v.len());
                    push_paragraph(&mut out, &v, i, j, body_class.as_str());
                    assert(s.take(j - i) =~= v@.subrange(i as int, j as int));
                    assert(s.skip(j - i + 2) =~= v@.skip(j + 2));
                    i = j + 2;
                },
                None => {
                    push_paragraph(&mut out, &v, i, v.len(), body_class.as_str());
                    assert(s =~= v@.subrange(i as int, v@.len() as int));
                    done = true;
                },
            }
        }
        let ghost after = out@;
        if let Some(a) = self.attribution {
            let mut attr_class = String::new();
            push_str(&mut attr_class, "text-sm md:text-base leading-relaxed ");
            push_str(&mut attr_class, attr_color);
            push_str(&mut out, "<footer");
            push_attr(&mut out, "class", attr_class.as_str());
            push_str(&mut out, ">");
            push_str(&mut out, "— ");
            push_escaped(&mut out, a);
            push_str(&mut out, "</footer>");
        }
        push_str(&mut out, "</blockquote>");
        assert(out@ =~= self.html());
        out
    }
}

} // verus!
