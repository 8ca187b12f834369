//! The terminal rendering of a page: styled lines of text, one or more
//! per section, sections separated by a blank line, body text wrapped at
//! 78 characters (a blank body shows as one blank line). A picture shows
//! as one `[asset: <stem>]` line. A terminal front end draws each span in
//! its style.

use vstd::prelude::*;
use crate::cms::{
    heading_level_to_int, heading_level_value, kind_label, section_kind_label, CmsPage, CmsSection,
    HeadingLevel, HeroCta,
};
use crate::text::{
    chars_of, decimal, is_whitespace, is_ws, join,
    lines_of, lines_state, opt_string_view, owned, push_char, push_decimal, push_str,
    string_from_range, strings_view, tokens_state, ws_tokens,
};

verus! {

/// How a span of text is drawn.
#[derive(Debug, Clone, Copy, PartialEq, Eq, Structural)]
pub enum TextStyle {
    /// The terminal's default.
    Plain,
    /// Bold.
    Bold,
    /// Italic.
    Italic,
    /// Dimmed.
    Dim,
    /// Underlined.
    Underlined,
}

/// A run of text in one style.
#[derive(Debug, Clone)]
pub struct Span {
    /// The text.
    pub content: String,
    /// Its style.
    pub style: TextStyle,
}

/// One line: its spans, left to right.
#[derive(Debug, Clone)]
pub struct Line {
    /// The spans.
    pub spans: Vec<Span>,
}

/// A span as `(text, style)`.
pub open spec fn span_view(s: Span) -> (Seq<char>, TextStyle) {
    (s.content@, s.style)
}

/// A line as its spans' views.
pub open spec fn line_view(l: Line) -> Seq<(Seq<char>, TextStyle)> {
    l.spans@.map_values(|s: Span| span_view(s))
}

/// Lines as views.
pub open spec fn lines_view(ls: Seq<Line>) -> Seq<Seq<(Seq<char>, TextStyle)>> {
    ls.map_values(|l: Line| line_view(l))
}

/// A line of one span.
pub open spec fn styled(text: Seq<char>, style: TextStyle) -> Seq<(Seq<char>, TextStyle)> {
    seq![(text, style)]
}

/// A plain line made from a text: one plain span per line of the text,
/// the line breaks dropped (so an empty text gives a line without
/// spans).
pub open spec fn plain_line(text: Seq<char>) -> Seq<(Seq<char>, TextStyle)> {
    lines_of(text).map_values(|l: Seq<char>| (l, TextStyle::Plain))
}

/// A line of one span.
fn line_of(text: String, style: TextStyle) -> (r: Line)
    ensures
        line_view(r) == styled(text@, style),
{
    let mut spans: Vec<Span> = Vec::new();
    spans.push(Span { content: text, style });
    let r = Line { spans };
    assert(line_view(r) =~= styled(text@, style));
    r
}

// ------------------------------------------------------------------
// Wrapping
// ------------------------------------------------------------------

/// The column a wrapped line stays within, in characters.
pub open spec fn wrap_column() -> nat {
    78
}

/// The separator of paragraphs: two line feeds.
pub open spec fn blank_sep() -> Seq<char> {
    seq!['\n', '\n']
}

/// The pieces of `s` between the non-overlapping blank lines (`\n\n`)
/// found left to right (`str::split("\n\n")`); always at least one.
pub open spec fn paragraphs(s: Seq<char>) -> Seq<Seq<char>>
    decreases s.len(),
{
    if s.len() < 2 {
        seq![s]
    } else if s[0] == '\n' && s[1] == '\n' {
        seq![Seq::empty()] + paragraphs(s.skip(2))
    } else {
        let rest = paragraphs(s.skip(1));
        rest.update(0, seq![s[0]] + rest[0])
    }
}

proof fn paragraphs_nonempty(s: Seq<char>)
    ensures
        paragraphs(s).len() >= 1,
    decreases s.len(),
{
    if s.len() >= 2 {
        if s[0] == '\n' && s[1] == '\n' {
            paragraphs_nonempty(s.skip(2));
        } else {
            paragraphs_nonempty(s.skip(1));
        }
    }
}

/// `done`, then `cur` before the first of `rest`, then the others.
pub open spec fn glue(done: Seq<Seq<char>>, cur: Seq<char>, rest: Seq<Seq<char>>) -> Seq<Seq<char>> {
    done.push(cur + rest[0]) + rest.skip(1)
}

/// The paragraphs of `text` (see [`paragraphs`]).
fn split_paragraphs(text: &str) -> (r: Vec<String>)
    ensures
        strings_view(r@) == paragraphs(text@),
{
    let v = chars_of(text);
    let mut out: Vec<String> = Vec::new();
    let mut cur: Vec<char> = Vec::new();
    let mut i: usize = 0;
    assert(v@.skip(0) =~= v@);
    proof {
        paragraphs_nonempty(v@);
        assert(glue(Seq::empty(), Seq::empty(), paragraphs(v@)) =~= paragraphs(v@));
    }
    while v.len() - i >= 2
        invariant
            i <= v@.len(),
            v@ == text@,
            paragraphs(v@) == glue(strings_view(out@), cur@, paragraphs(v@.skip(i as int))),
        decreases v.len() - i,
    {
        let ghost rest = v@.skip(i as int);
        if v[i] == '\n' && v[i + 1] == '\n' {
            proof {
                assert(rest.skip(2) =~= v@.skip(i + 2));
                paragraphs_nonempty(v@.skip(i + 2));
                let r = paragraphs(v@.skip(i + 2));
                assert(paragraphs(rest) == seq![Seq::<char>::empty()] + r);
                assert(glue(strings_view(out@), cur@, seq![Seq::<char>::empty()] + r) =~= glue(
                    strings_view(out@).push(cur@),
                    Seq::empty(),
                    r,
                ));
            }
            let piece = string_from_range(&cur, 0, cur.len());
            assert(cur@.subrange(0, cur@.len() as int) =~= cur@);
            let ghost before = out@;
            out.push(piece);
            assert(strings_view(out@) =~= strings_view(before).push(cur@));
            cur = Vec::new();
            i = i + 2;
        } else {
            proof {
                assert(rest.skip(1) =~= v@.skip(i + 1));
                paragraphs_nonempty(v@.skip(i + 1));
                let r = paragraphs(v@.skip(i + 1));
                assert(paragraphs(rest) == r.update(0, seq![v@[i as int]] + r[0]));
                assert(cur@ + (seq![v@[i as int]] + r[0]) =~= cur@.push(v@[i as int]) + r[0]);
                assert(r.update(0, seq![v@[i as int]] + r[0]).skip(1) =~= r.skip(1));
                assert(glue(strings_view(out@), cur@, r.update(0, seq![v@[i as int]] + r[0]))
                    =~= glue(strings_view(out@), cur@.push(v@[i as int]), r));
            }
            cur.push(v[i]);
            i = i + 1;
        }
    }
    // Fewer than two characters remain: they end the last paragraph.
    let ghost rest = v@.skip(i as int);
    assert(paragraphs(rest) == seq![rest]);
    while i < v.len()
        invariant
            i <= v@.len(),
            v@.len() <= i + 1,
            v@ == text@,
            paragraphs(v@) == strings_view(out@).push(cur@ + v@.skip(i as int)),
        decreases v.len() - i,
    {
        assert(cur@ + v@.skip(i as int) =~= cur@.push(v@[i as int]) + v@.skip(i + 1));
        cur.push(v[i]);
        i = i + 1;
    }
    let piece = string_from_range(&cur, 0, cur.len());
    assert(cur@.subrange(0, cur@.len() as int) =~= cur@);
    assert(cur@ + v@.skip(i as int) =~= cur@);
    let ghost before = out@;
    out.push(piece);
    assert(strings_view(out@) =~= strings_view(before).push(cur@));
    out
}

/// The whitespace-separated words of `s` (`str::split_whitespace`).
fn words_of(s: &str) -> (r: Vec<String>)
    ensures
        strings_view(r@) == ws_tokens(s@),
{
    let v = chars_of(s);
    let mut out: Vec<String> = Vec::new();
    let mut cur: Vec<char> = Vec::new();
    let mut i: usize = 0;
    assert(v@.take(0) =~= Seq::<char>::empty());
    while i < v.len()
        invariant
            i <= v@.len(),
            v@ == s@,
            tokens_state(v@.take(i as int)).0 == strings_view(out@),
            tokens_state(v@.take(i as int)).1 == cur@,
        decreases v.len() - i,
    {
        assert(v@.take(i + 1).drop_last() =~= v@.take(i as int));
        let c = v[i];
        if is_whitespace(c) {
            if cur.len() > 0 {
                let w = string_from_range(&cur, 0, cur.len());
                assert(cur@.subrange(0, cur@.len() as int) =~= cur@);
                let ghost before = out@;
                out.push(w);
                assert(strings_view(out@) =~= strings_view(before).push(cur@));
                cur = Vec::new();
            }
        } else {
            cur.push(c);
        }
        i = i + 1;
    }
    assert(v@.take(i as int) =~= v@);
    if cur.len() > 0 {
        let w = string_from_range(&cur, 0, cur.len());
        assert(cur@.subrange(0, cur@.len() as int) =~= cur@);
        let ghost before = out@;
        out.push(w);
        assert(strings_view(out@) =~= strings_view(before).push(cur@));
    }
    out
}

/// One word added to the wrapping state `(finished lines, current
/// line)`: the word starts the current line when it is empty, joins it
/// after a space when the result stays within the column, and otherwise
/// the current line is finished and the word starts the next.
pub open spec fn wrap_step(st: (Seq<Seq<char>>, Seq<char>), w: Seq<char>) -> (Seq<Seq<char>>, Seq<char>) {
    let (done, cur) = st;
    if cur.len() == 0 {
        (done, w)
    } else if cur.len() + 1 + w.len() <= wrap_column() {
        (done, cur + seq![' '] + w)
    } else {
        (done.push(cur), w)
    }
}

/// The wrapping state after a run of words.
pub open spec fn wrap_state(words: Seq<Seq<char>>) -> (Seq<Seq<char>>, Seq<char>)
    decreases words.len(),
{
    if words.len() == 0 {
        (Seq::empty(), Seq::empty())
    } else {
        wrap_step(wrap_state(words.drop_last()), words.last())
    }
}

/// The wrapped lines of one paragraph: its words filled greedily.
pub open spec fn wrap_paragraph(p: Seq<char>) -> Seq<Seq<char>> {
    let (done, cur) = wrap_state(ws_tokens(p));
    if cur.len() > 0 {
        done.push(cur)
    } else {
        done
    }
}

/// The wrapped lines of a run of paragraphs.
pub open spec fn wrap_paragraphs(ps: Seq<Seq<char>>) -> Seq<Seq<char>>
    decreases ps.len(),
{
    if ps.len() == 0 {
        Seq::empty()
    } else {
        wrap_paragraphs(ps.drop_last()) + wrap_paragraph(ps.last())
    }
}

/// The wrapped lines of a text.
pub open spec fn wrapped(text: Seq<char>) -> Seq<Seq<char>> {
    wrap_paragraphs(paragraphs(text))
}

/// The wrapped lines of a text, each one span in `style`.
pub open spec fn wrapped_lines(text: Seq<char>, style: TextStyle) -> Seq<Seq<(Seq<char>, TextStyle)>> {
    wrapped(text).map_values(|l: Seq<char>| styled(l, style))
}

/// The number of characters of `s`, capped at 79.
fn capped_len(s: &str) -> (r: usize)
    ensures
        r == if s@.len() < 79 {
            s@.len()
        } else {
            79
        },
{
    let v = chars_of(s);
    if v.len() < 79 {
        v.len()
    } else {
        79
    }
}

/// Append the wrapped lines of one paragraph, each one span in `style`.
fn push_wrapped_paragraph(out: &mut Vec<Line>, p: &str, style: TextStyle)
    ensures
        lines_view(final(out)@) == lines_view(old(out)@) + wrap_paragraph(p@).map_values(
            |l: Seq<char>| styled(l, style),
        ),
{
    let words = words_of(p);
    let ghost ws = strings_view(words@);
    let ghost start = lines_view(out@);
    let ghost f = |l: Seq<char>| styled(l, style);
    let mut cur: Vec<char> = Vec::new();
    let mut cur_len: usize = 0;
    let mut j: usize = 0;
    while j < words.len()
        invariant
            j <= words@.len(),
            ws == strings_view(words@),
            f == (|l: Seq<char>| styled(l, style)),
            wrap_state(ws.take(j as int)).1 == cur@,
            lines_view(out@) == start + wrap_state(ws.take(j as int)).0.map_values(f),
            cur_len == if cur@.len() < 79 {
                cur@.len()
            } else {
                79
            },
        decreases words.len() - j,
    {
        let w = &words[j];
        assert(ws.take(j + 1).drop_last() =~= ws.take(j as int));
        assert(ws[j as int] == w@);
        let ghost done = wrap_state(ws.take(j as int)).0;
        let wb = capped_len(w.as_str());
        let wv = chars_of(w.as_str());
        if cur.len() == 0 {
            let mut k: usize = 0;
            while k < wv.len()
                invariant
                    k <= wv@.len(),
                    cur@ == wv@.take(k as int),
                decreases wv.len() - k,
            {
                cur.push(wv[k]);
                assert(wv@.take(k + 1) =~= wv@.take(k as int).push(wv@[k as int]));
                k = k + 1;
            }
            assert(wv@.take(k as int) =~= w@);
            cur_len = wb;
        } else if cur_len + 1 + wb <= 78 {
            let ghost before = cur@;
            cur.push(' ');
            let mut k: usize = 0;
            while k < wv.len()
                invariant
                    k <= wv@.len(),
                    cur@ == before.push(' ') + wv@.take(k as int),
                decreases wv.len() - k,
            {
                cur.push(wv[k]);
                assert(before.push(' ') + wv@.take(k + 1) =~= (before.push(' ') + wv@.take(
                    k as int,
                )).push(wv@[k as int]));
                k = k + 1;
            }
            assert(wv@.take(k as int) =~= w@);
            assert(cur@ =~= before + seq![' '] + w@);
            cur_len = cur_len + 1 + wb;
        } else {
            let line = string_from_range(&cur, 0, cur.len());
            assert(cur@.subrange(0, cur@.len() as int) =~= cur@);
            let l = line_of(line, style);
            let ghost before = out@;
            out.push(l);
            assert(lines_view(out@) =~= lines_view(before).push(styled(cur@, style)));
            assert(done.push(cur@).map_values(f) =~= done.map_values(f).push(f(cur@)));
            cur = Vec::new();
            let mut k: usize = 0;
            while k < wv.len()
                invariant
                    k <= wv@.len(),
                    cur@ == wv@.take(k as int),
                decreases wv.len() - k,
            {
                cur.push(wv[k]);
                assert(wv@.take(k + 1) =~= wv@.take(k as int).push(wv@[k as int]));
                k = k + 1;
            }
            assert(wv@.take(k as int) =~= w@);
            cur_len = wb;
        }
        j = j + 1;
    }
    assert(ws.take(j as int) =~= ws);
    let ghost done = wrap_state(ws).0;
    if cur.len() > 0 {
        let line = string_from_range(&cur, 0, cur.len());
        assert(cur@.subrange(0, cur@.len() as int) =~= cur@);
        let l = line_of(line, style);
        let ghost before = out@;
        out.push(l);
        assert(lines_view(out@) =~= lines_view(before).push(styled(cur@, style)));
        assert(done.push(cur@).map_values(f) =~= done.map_values(f).push(f(cur@)));
    }
}

/// Wrap a text at 78 columns: its paragraphs (split at blank lines), each
/// filled greedily with its words, one span in `style` per line.
pub fn wrap_to_lines(text: &str, style: TextStyle) -> (r: Vec<Line>)
    ensures
        lines_view(r@) == wrapped_lines(text@, style),
{
    let ps = split_paragraphs(text);
    let ghost pv = strings_view(ps@);
    let ghost f = |l: Seq<char>| styled(l, style);
    let mut out: Vec<Line> = Vec::new();
    let mut i: usize = 0;
    while i < ps.len()
        invariant
            i <= ps@.len(),
            pv == strings_view(ps@),
            f == (|l: Seq<char>| styled(l, style)),
            lines_view(out@) == wrap_paragraphs(pv.take(i as int)).map_values(f),
        decreases ps.len() - i,
    {
        assert(pv.take(i + 1).drop_last() =~= pv.take(i as int));
        assert(pv[i as int] == ps@[i as int]@);
        let ghost before = wrap_paragraphs(pv.take(i as int));
        push_wrapped_paragraph(&mut out, ps[i].as_str(), style);
        assert((before + wrap_paragraph(pv[i as int])).map_values(f) =~= before.map_values(f)
            + wrap_paragraph(pv[i as int]).map_values(f));
        i = i + 1;
    }
    assert(pv.take(i as int) =~= pv);
    out
}


// ------------------------------------------------------------------
// Sections and pages
// ------------------------------------------------------------------

/// The lines of `s` (`str::lines`).
fn split_lines(s: &str) -> (r: Vec<String>)
    ensures
        strings_view(r@) == lines_of(s@),
{
    let v = chars_of(s);
    let mut out: Vec<String> = Vec::new();
    let mut cur: Vec<char> = Vec::new();
    let mut i: usize = 0;
    assert(v@.take(0) =~= Seq::<char>::empty());
    while i < v.len()
        invariant
            i <= v@.len(),
            v@ == s@,
            lines_state(v@.take(i as int)).0 == strings_view(out@),
            lines_state(v@.take(i as int)).1 == cur@,
        decreases v.len() - i,
    {
        assert(v@.take(i + 1).drop_last() =~= v@.take(i as int));
        if v[i] == '\n' {
            let end = if cur.len() > 0 && cur[cur.len() - 1] == '\r' {
                cur.len() - 1
            } else {
                cur.len()
            };
            proof {
                if cur@.len() > 0 && cur@.last() == '\r' {
                    assert(cur@.subrange(0, end as int) =~= cur@.drop_last());
                } else {
                    assert(cur@.subrange(0, end as int) =~= cur@);
                }
            }
            let line = string_from_range(&cur, 0, end);
            let ghost before = out@;
            out.push(line);
            assert(strings_view(out@) =~= strings_view(before).push(cur@.subrange(0, end as int)));
            cur = Vec::new();
        } else {
            cur.push(v[i]);
        }
        i = i + 1;
    }
    assert(v@.take(i as int) =~= v@);
    if cur.len() > 0 {
        let line = string_from_range(&cur, 0, cur.len());
        assert(cur@.subrange(0, cur@.len() as int) =~= cur@);
        let ghost before = out@;
        out.push(line);
        assert(strings_view(out@) =~= strings_view(before).push(cur@));
    }
    out
}

/// A line of two spans.
fn line_of_two(a: String, sa: TextStyle, b: String, sb: TextStyle) -> (r: Line)
    ensures
        line_view(r) == seq![(a@, sa), (b@, sb)],
{
    let mut spans: Vec<Span> = Vec::new();
    spans.push(Span { content: a, style: sa });
    spans.push(Span { content: b, style: sb });
    let r = Line { spans };
    assert(line_view(r) =~= seq![(a@, sa), (b@, sb)]);
    r
}

/// `n` hash marks.
pub open spec fn hashes(n: nat) -> Seq<char> {
    Seq::new(n, |_i: int| '#')
}

/// `n` copies of `c` followed by `tail`.
fn repeated(c: char, n: usize, tail: &str) -> (r: String)
    ensures
        r@ == Seq::new(n as nat, |_i: int| c) + tail@,
{
    let mut out = String::new();
    let mut k: usize = 0;
    while k < n
        invariant
            k <= n,
            out@ == Seq::new(k as nat, |_i: int| c),
        decreases n - k,
    {
        push_char(&mut out, c);
        assert(Seq::new((k + 1) as nat, |_i: int| c) =~= Seq::new(k as nat, |_i: int| c).push(c));
        k = k + 1;
    }
    push_str(&mut out, tail);
    out
}

/// A sub-heading level, kept between 2 and 6.
pub open spec fn clamp_level(level: u8) -> nat {
    if level < 2 {
        2
    } else if level > 6 {
        6
    } else {
        level as nat
    }
}

/// The dimmed attribution line after a quote body, when there is one.
pub open spec fn attribution_lines(a: Option<Seq<char>>) -> Seq<Seq<(Seq<char>, TextStyle)>> {
    match a {
        Some(x) => seq![styled("    — "@ + x, TextStyle::Dim)],
        None => Seq::empty(),
    }
}

/// The text of a hero: a dimmed eyebrow, the bold title, the wrapped
/// lede, and the underlined call to action in brackets, each when
/// present.
pub open spec fn hero_lines(
    eyebrow: Option<Seq<char>>,
    title: Seq<char>,
    lede: Option<Seq<char>>,
    cta: Option<HeroCta>,
) -> Seq<Seq<(Seq<char>, TextStyle)>> {
    (match eyebrow {
        Some(e) => seq![styled(e, TextStyle::Dim)],
        None => Seq::empty(),
    }) + seq![styled(title, TextStyle::Bold)] + (match lede {
        Some(l) => wrapped_lines(l, TextStyle::Plain),
        None => Seq::empty(),
    }) + (match cta {
        Some(c) => seq![styled("[ "@ + c.label@ + " ]"@, TextStyle::Underlined)],
        None => Seq::empty(),
    })
}

/// The lines of a text body in `style`: its wrapped lines, or one blank
/// line when it holds no word, so that the section still shows.
pub open spec fn body_lines(text: Seq<char>, style: TextStyle) -> Seq<Seq<(Seq<char>, TextStyle)>> {
    if wrapped(text).len() == 0 {
        seq![plain_line(Seq::empty())]
    } else {
        wrapped_lines(text, style)
    }
}

/// The lines of one section.
pub open spec fn section_lines(s: CmsSection) -> Seq<Seq<(Seq<char>, TextStyle)>> {
    match s {
        CmsSection::Paragraph { text } => body_lines(text@, TextStyle::Plain),
        CmsSection::Heading { text, level } => seq![
            seq![
                (hashes(heading_level_value(level)) + " "@, TextStyle::Plain),
                (text@, TextStyle::Bold),
            ],
        ],
        CmsSection::SubHeading { text, level } => seq![
            seq![(hashes(clamp_level(level)) + " "@, TextStyle::Plain), (text@, TextStyle::Bold)],
        ],
        CmsSection::Lede { text } => seq![styled(text@, TextStyle::Italic)],
        CmsSection::DropCap { text } => body_lines(text@, TextStyle::Plain),
        CmsSection::PullQuote { body, attribution } => body_lines(body@, TextStyle::Italic)
            + attribution_lines(opt_string_view(attribution)),
        CmsSection::Epigraph { body, attribution } => body_lines(body@, TextStyle::Italic)
            + attribution_lines(opt_string_view(attribution)),
        CmsSection::Marginalia { body } => seq![styled("  ⁂ "@ + body@, TextStyle::Dim)],
        CmsSection::Quote { body, attribution } => body_lines(body@, TextStyle::Plain) + seq![
            styled("— "@ + attribution@, TextStyle::Dim),
        ],
        CmsSection::Caption { text } => seq![styled(text@, TextStyle::Dim)],
        CmsSection::Footnote { number, text } => seq![
            plain_line("["@ + decimal(number as nat) + "] "@ + text@),
        ],
        CmsSection::Citation { text, source } => seq![plain_line(text@ + " ("@ + source@ + ")"@)],
        CmsSection::Divider => seq![plain_line(Seq::new(40, |_i: int| '─'))],
        CmsSection::Spacer => seq![plain_line(Seq::empty())],
        CmsSection::Hero { eyebrow, title, lede, cta } => hero_lines(
            opt_string_view(eyebrow),
            title@,
            opt_string_view(lede),
            cta,
        ),
        CmsSection::ImageHero { eyebrow, title, lede, cta } => hero_lines(
            opt_string_view(eyebrow),
            title@,
            opt_string_view(lede),
            cta,
        ),
        CmsSection::Banner { text } => body_lines(text@, TextStyle::Plain),
        CmsSection::Code { body, lang } => seq![styled("```"@ + lang@, TextStyle::Dim)] + lines_of(
            body@,
        ).map_values(|l: Seq<char>| plain_line(l)) + seq![styled("```"@, TextStyle::Dim)],
        CmsSection::Picture { src_stem, .. } => seq![
            styled("[asset: "@ + src_stem@ + "]"@, TextStyle::Dim),
        ],
        CmsSection::Figure { caption, credit, asset_slug } => seq![
            styled(
                "[figure "@ + (match asset_slug {
                    Some(a) => a@,
                    None => "no-asset"@,
                }) + "]"@,
                TextStyle::Dim,
            ),
            styled(
                match credit {
                    Some(c) => caption@ + " · "@ + c@,
                    None => caption@,
                },
                TextStyle::Dim,
            ),
        ],
        CmsSection::SplitHero => seq![styled("["@ + kind_label(s)@ + "]"@, TextStyle::Dim)],
        CmsSection::Other => seq![styled("["@ + kind_label(s)@ + "]"@, TextStyle::Dim)],
    }
}

/// A fresh string `a + b`.
fn concat2(a: &str, b: &str) -> (r: String)
    ensures
        r@ == a@ + b@,
{
    let mut s = owned(a);
    push_str(&mut s, b);
    s
}

/// A fresh string `a + b + c`.
fn concat3(a: &str, b: &str, c: &str) -> (r: String)
    ensures
        r@ == a@ + b@ + c@,
{
    let mut s = owned(a);
    push_str(&mut s, b);
    push_str(&mut s, c);
    s
}

/// Append `more` to `out`.
fn append_lines(out: &mut Vec<Line>, more: Vec<Line>)
    ensures
        lines_view(final(out)@) == lines_view(old(out)@) + lines_view(more@),
{
    let mut more = more;
    let ghost a = out@;
    let ghost b = more@;
    out.append(&mut more);
    assert(lines_view(out@) =~= lines_view(a) + lines_view(b));
}

/// Append a line of one span.
fn push_line(out: &mut Vec<Line>, text: String, style: TextStyle)
    ensures
        lines_view(final(out)@) == lines_view(old(out)@).push(styled(text@, style)),
{
    let ghost a = out@;
    let l = line_of(text, style);
    out.push(l);
    assert(lines_view(out@) =~= lines_view(a).push(styled(text@, style)));
}

/// Append a plain line made from `text` (see [`plain_line`]).
fn push_plain(out: &mut Vec<Line>, text: &str)
    ensures
        lines_view(final(out)@) == lines_view(old(out)@).push(plain_line(text@)),
{
    let parts = split_lines(text);
    let ghost pv = strings_view(parts@);
    let mut spans: Vec<Span> = Vec::new();
    let mut k: usize = 0;
    while k < parts.len()
        invariant
            k <= parts@.len(),
            pv == strings_view(parts@),
            pv == lines_of(text@),
            spans@.map_values(|s: Span| span_view(s)) == pv.take(k as int).map_values(
                |l: Seq<char>| (l, TextStyle::Plain),
            ),
        decreases parts.len() - k,
    {
        let ghost before = spans@;
        assert(pv[k as int] == parts@[k as int]@);
        let sp = Span { content: owned(parts[k].as_str()), style: TextStyle::Plain };
        assert(span_view(sp) == (pv[k as int], TextStyle::Plain));
        spans.push(sp);
        assert(pv.take(k + 1) =~= pv.take(k as int).push(pv[k as int]));
        assert(spans@ =~= before.push(sp));
        assert(spans@.map_values(|s: Span| span_view(s)) =~= before.map_values(|s: Span| span_view(s)).push(
            span_view(sp),
        ));
        assert(spans@.map_values(|s: Span| span_view(s)) =~= pv.take(k + 1).map_values(
            |l: Seq<char>| (l, TextStyle::Plain),
        ));
        k = k + 1;
    }
    assert(pv.take(k as int) =~= pv);
    let ghost a = out@;
    let l = Line { spans };
    out.push(l);
    assert(lines_view(out@) =~= lines_view(a).push(plain_line(text@)));
}

/// The lines of a text body (see [`body_lines`]).
fn body_to_lines(text: &str, style: TextStyle) -> (r: Vec<Line>)
    ensures
        lines_view(r@) == body_lines(text@, style),
{
    let mut out = wrap_to_lines(text, style);
    if out.len() == 0 {
        assert(wrapped_lines(text@, style).len() == wrapped(text@).len());
        push_plain(&mut out, "");
        proof {
            reveal_strlit("");
        }
        assert(lines_view(out@) =~= body_lines(text@, style));
    } else {
        assert(wrapped_lines(text@, style).len() == wrapped(text@).len());
    }
    out
}

/// The text of a hero (see [`hero_lines`]).
pub fn render_hero_textual(
    eyebrow: Option<&str>,
    title: &str,
    lede: Option<&str>,
    cta: Option<&HeroCta>,
) -> (r: Vec<Line>)
    ensures
        lines_view(r@) == hero_lines(
            match eyebrow {
                Some(e) => Some(e@),
                None => None,
            },
            title@,
            match lede {
                Some(l) => Some(l@),
                None => None,
            },
            match cta {
                Some(c) => Some(*c),
                None => None,
            },
        ),
{
    let mut out: Vec<Line> = Vec::new();
    if let Some(e) = eyebrow {
        push_line(&mut out, owned(e), TextStyle::Dim);
    }
    push_line(&mut out, owned(title), TextStyle::Bold);
    if let Some(l) = lede {
        append_lines(&mut out, wrap_to_lines(l, TextStyle::Plain));
    }
    if let Some(c) = cta {
        push_line(&mut out, concat3("[ ", c.label.as_str(), " ]"), TextStyle::Underlined);
    }
    let ghost got = lines_view(out@);
    assert(got =~= hero_lines(
        match eyebrow {
            Some(e) => Some(e@),
            None => None,
        },
        title@,
        match lede {
            Some(l) => Some(l@),
            None => None,
        },
        match cta {
            Some(c) => Some(*c),
            None => None,
        },
    ));
    out
}

fn opt_str(o: &Option<String>) -> (r: Option<&str>)
    ensures
        match r {
            Some(s) => opt_string_view(*o) == Some(s@),
            None => o.is_none(),
        },
{
    match o {
        Some(s) => Some(s.as_str()),
        None => None,
    }
}

/// The quote body wrapped in `style`, then the attribution line.
fn quote_lines(body: &str, style: TextStyle, attribution: &Option<String>) -> (r: Vec<Line>)
    ensures
        lines_view(r@) == body_lines(body@, style) + attribution_lines(opt_string_view(*attribution)),
{
    let mut out = body_to_lines(body, style);
    let ghost w = lines_view(out@);
    if let Some(a) = attribution {
        push_line(&mut out, concat2("    — ", a.as_str()), TextStyle::Dim);
    } else {
        assert(w + Seq::empty() =~= w);
    }
    out
}

/// Render one section to lines (see [`section_lines`]).
pub fn render_section_lines(section: &CmsSection) -> (r: Vec<Line>)
    ensures
        lines_view(r@) == section_lines(*section),
{
    let mut out: Vec<Line> = Vec::new();
    match section {
        CmsSection::Paragraph { text } => body_to_lines(text.as_str(), TextStyle::Plain),
        CmsSection::Heading { text, level } => {
            let prefix = repeated('#', heading_level_to_int(level), " ");
            out.push(line_of_two(prefix, TextStyle::Plain, owned(text.as_str()), TextStyle::Bold));
            assert(lines_view(out@) =~= section_lines(*section));
            out
        },
        CmsSection::SubHeading { text, level } => {
            let n: usize = if *level < 2 {
                2
            } else if *level > 6 {
                6
            } else {
                *level as usize
            };
            let prefix = repeated('#', n, " ");
            out.push(line_of_two(prefix, TextStyle::Plain, owned(text.as_str()), TextStyle::Bold));
            assert(lines_view(out@) =~= section_lines(*section));
            out
        },
        CmsSection::Lede { text } => {
            push_line(&mut out, owned(text.as_str()), TextStyle::Italic);
            assert(lines_view(out@) =~= section_lines(*section));
            out
        },
        CmsSection::DropCap { text } => body_to_lines(text.as_str(), TextStyle::Plain),
        CmsSection::PullQuote { body, attribution } => quote_lines(
            body.as_str(),
            TextStyle::Italic,
            attribution,
        ),
        CmsSection::Epigraph { body, attribution } => quote_lines(
            body.as_str(),
            TextStyle::Italic,
            attribution,
        ),
        CmsSection::Marginalia { body } => {
            push_line(&mut out, concat2("  ⁂ ", body.as_str()), TextStyle::Dim);
            assert(lines_view(out@) =~= section_lines(*section));
            out
        },
        CmsSection::Quote { body, attribution } => {
            let mut out = body_to_lines(body.as_str(), TextStyle::Plain);
            push_line(&mut out, concat2("— ", attribution.as_str()), TextStyle::Dim);
            out
        },
        CmsSection::Caption { text } => {
            push_line(&mut out, owned(text.as_str()), TextStyle::Dim);
            assert(lines_view(out@) =~= section_lines(*section));
            out
        },
        CmsSection::Footnote { number, text } => {
            let mut s = owned("[");
            push_decimal(&mut s, *number as u64);
            push_str(&mut s, "] ");
            push_str(&mut s, text.as_str());
            push_plain(&mut out, s.as_str());
            assert(lines_view(out@) =~= section_lines(*section));
            out
        },
        CmsSection::Citation { text, source } => {
            let mut s = owned(text.as_str());
            push_str(&mut s, " (");
            push_str(&mut s, source.as_str());
            push_str(&mut s, ")");
            push_plain(&mut out, s.as_str());
            assert(lines_view(out@) =~= section_lines(*section));
            out
        },
        CmsSection::Divider => {
            let rule = repeated('─', 40, "");
            push_plain(&mut out, rule.as_str());
            proof {
                reveal_strlit("");
            }
            assert(lines_view(out@) =~= section_lines(*section));
            out
        },
        CmsSection::Spacer => {
            push_plain(&mut out, "");
            proof {
                reveal_strlit("");
            }
            assert(lines_view(out@) =~= section_lines(*section));
            out
        },
        CmsSection::Hero { eyebrow, title, lede, cta } => render_hero_textual(
            opt_str(eyebrow),
            title.as_str(),
            opt_str(lede),
            cta.as_ref(),
        ),
        CmsSection::ImageHero { eyebrow, title, lede, cta } => render_hero_textual(
            opt_str(eyebrow),
            title.as_str(),
            opt_str(lede),
            cta.as_ref(),
        ),
        CmsSection::Banner { text } => body_to_lines(text.as_str(), TextStyle::Plain),
        CmsSection::Code { body, lang } => {
            push_line(&mut out, concat2("```", lang.as_str()), TextStyle::Dim);
            let raws = split_lines(body.as_str());
            let ghost rv = strings_view(raws@);
            let ghost head = lines_view(out@);
            let ghost f = |l: Seq<char>| plain_line(l);
            let mut k: usize = 0;
            while k < raws.len()
                invariant
                    k <= raws@.len(),
                    rv == strings_view(raws@),
                    f == (|l: Seq<char>| plain_line(l)),
                    lines_view(out@) == head + rv.take(k as int).map_values(f),
                decreases raws.len() - k,
            {
                assert(rv[k as int] == raws@[k as int]@);
                push_plain(&mut out, raws[k].as_str());
                assert(rv.take(k + 1).map_values(f) =~= rv.take(k as int).map_values(f).push(
                    f(rv[k as int]),
                ));
                k = k + 1;
            }
            assert(rv.take(k as int) =~= rv);
            push_line(&mut out, owned("```"), TextStyle::Dim);
            assert(lines_view(out@) =~= section_lines(*section));
            out
        },
        CmsSection::Picture { src_stem, .. } => {
            push_line(&mut out, concat3("[asset: ", src_stem.as_str(), "]"), TextStyle::Dim);
            assert(lines_view(out@) =~= section_lines(*section));
            out
        },
        CmsSection::Figure { caption, credit, asset_slug } => {
            let label = match asset_slug {
                Some(a) => a.as_str(),
                None => "no-asset",
            };
            push_line(&mut out, concat3("[figure ", label, "]"), TextStyle::Dim);
            let cap = match credit {
                Some(c) => concat3(caption.as_str(), " · ", c.as_str()),
                None => owned(caption.as_str()),
            };
            push_line(&mut out, cap, TextStyle::Dim);
            assert(lines_view(out@) =~= section_lines(*section));
            out
        },
        CmsSection::SplitHero => {
            push_line(
                &mut out,
                concat3("[", section_kind_label(section), "]"),
                TextStyle::Dim,
            );
            assert(lines_view(out@) =~= section_lines(*section));
            out
        },
        CmsSection::Other => {
            push_line(
                &mut out,
                concat3("[", section_kind_label(section), "]"),
                TextStyle::Dim,
            );
            assert(lines_view(out@) =~= section_lines(*section));
            out
        },
    }
}

/// The lines of a run of sections, a blank line between consecutive
/// ones.
pub open spec fn sections_lines(ss: Seq<CmsSection>) -> Seq<Seq<(Seq<char>, TextStyle)>>
    decreases ss.len(),
{
    if ss.len() == 0 {
        Seq::empty()
    } else {
        sections_lines(ss.drop_last()) + (if ss.len() > 1 {
            seq![plain_line(Seq::empty())]
        } else {
            Seq::empty()
        }) + section_lines(ss.last())
    }
}

/// The lines of a page: its bold title, a blank line, then its sections.
pub open spec fn page_lines(page: CmsPage) -> Seq<Seq<(Seq<char>, TextStyle)>> {
    seq![styled(page.title@, TextStyle::Bold), plain_line(Seq::empty())] + sections_lines(
        page.sections@,
    )
}

/// Render a page to lines (see [`page_lines`]).
pub fn render_page(page: &CmsPage) -> (r: Vec<Line>)
    ensures
        lines_view(r@) == page_lines(*page),
{
    let mut out: Vec<Line> = Vec::new();
    push_line(&mut out, owned(page.title.as_str()), TextStyle::Bold);
    push_plain(&mut out, "");
    proof {
        reveal_strlit("");
    }
    let ghost head = lines_view(out@);
    let ghost ss = page.sections@;
    let mut i: usize = 0;
    while i < page.sections.len()
        invariant
            i <= ss.len(),
            ss == page.sections@,
            lines_view(out@) == head + sections_lines(ss.take(i as int)),
        decreases page.sections.len() - i,
    {
        assert(ss.take(i + 1).drop_last() =~= ss.take(i as int));
        assert(ss.take(i + 1).last() == ss[i as int]);
        let ghost before = lines_view(out@);
        if i > 0 {
            push_plain(&mut out, "");
            proof {
                reveal_strlit("");
            }
        }
        append_lines(&mut out, render_section_lines(&page.sections[i]));
        assert(lines_view(out@) =~= head + sections_lines(ss.take(i + 1)));
        i = i + 1;
    }
    assert(ss.take(i as int) =~= ss);
    assert(lines_view(out@) =~= page_lines(*page));
    out
}


// ------------------------------------------------------------------
// Laws
// ------------------------------------------------------------------

/// No character of `s` is whitespace.
pub open spec fn no_ws(s: Seq<char>) -> bool {
    forall|k: int| 0 <= k < s.len() ==> !is_ws(#[trigger] s[k])
}

/// A wrapped line is not empty, and fits the column unless it is a
/// single word.
pub open spec fn fits_or_one_word(l: Seq<char>) -> bool {
    l.len() > 0 && (l.len() <= wrap_column() || no_ws(l))
}

proof fn tokens_state_words(s: Seq<char>)
    ensures
        forall|i: int|
            0 <= i < tokens_state(s).0.len() ==> (#[trigger] tokens_state(s).0[i]).len() > 0 && no_ws(
                tokens_state(s).0[i],
            ),
        no_ws(tokens_state(s).1),
    decreases s.len(),
{
    if s.len() > 0 {
        tokens_state_words(s.drop_last());
        let (done, cur) = tokens_state(s.drop_last());
        if !is_ws(s.last()) {
            assert forall|k: int| 0 <= k < cur.push(s.last()).len() implies !is_ws(
                #[trigger] cur.push(s.last())[k],
            ) by {
                if k < cur.len() {
                    assert(cur.push(s.last())[k] == cur[k]);
                }
            }
        } else if cur.len() > 0 {
            assert forall|i: int| 0 <= i < done.push(cur).len() implies (#[trigger] done.push(
                cur,
            )[i]).len() > 0 && no_ws(done.push(cur)[i]) by {
                if i < done.len() {
                    assert(done.push(cur)[i] == done[i]);
                }
            }
            assert(no_ws(Seq::<char>::empty()));
        }
    }
}

proof fn words_are_words(s: Seq<char>)
    ensures
        forall|i: int|
            0 <= i < ws_tokens(s).len() ==> (#[trigger] ws_tokens(s)[i]).len() > 0 && no_ws(
                ws_tokens(s)[i],
            ),
{
    tokens_state_words(s);
    let (done, cur) = tokens_state(s);
    if cur.len() > 0 {
        assert forall|i: int| 0 <= i < done.push(cur).len() implies (#[trigger] done.push(
            cur,
        )[i]).len() > 0 && no_ws(done.push(cur)[i]) by {
            if i < done.len() {
                assert(done.push(cur)[i] == done[i]);
            }
        }
    }
}

proof fn wrap_state_fits(words: Seq<Seq<char>>)
    requires
        forall|i: int| 0 <= i < words.len() ==> (#[trigger] words[i]).len() > 0 && no_ws(words[i]),
    ensures
        forall|i: int|
            0 <= i < wrap_state(words).0.len() ==> fits_or_one_word(#[trigger] wrap_state(words).0[i]),
        wrap_state(words).1.len() == 0 || fits_or_one_word(wrap_state(words).1),
    decreases words.len(),
{
    if words.len() > 0 {
        let prev = words.drop_last();
        assert forall|i: int| 0 <= i < prev.len() implies (#[trigger] prev[i]).len() > 0 && no_ws(
            prev[i],
        ) by {
            assert(prev[i] == words[i]);
        }
        wrap_state_fits(prev);
        let (done, cur) = wrap_state(prev);
        let w = words.last();
        assert(w.len() > 0 && no_ws(w));
        if cur.len() == 0 {
        } else if cur.len() + 1 + w.len() <= wrap_column() {
        } else {
            assert forall|i: int| 0 <= i < done.push(cur).len() implies fits_or_one_word(
                #[trigger] done.push(cur)[i],
            ) by {
                if i < done.len() {
                    assert(done.push(cur)[i] == done[i]);
                }
            }
        }
    }
}

proof fn wrap_paragraphs_fit(ps: Seq<Seq<char>>)
    ensures
        forall|i: int|
            0 <= i < wrap_paragraphs(ps).len() ==> fits_or_one_word(#[trigger] wrap_paragraphs(ps)[i]),
    decreases ps.len(),
{
    if ps.len() > 0 {
        wrap_paragraphs_fit(ps.drop_last());
        let p = ps.last();
        words_are_words(p);
        wrap_state_fits(ws_tokens(p));
        let a = wrap_paragraphs(ps.drop_last());
        let b = wrap_paragraph(p);
        let (done, cur) = wrap_state(ws_tokens(p));
        assert forall|i: int| 0 <= i < b.len() implies fits_or_one_word(#[trigger] b[i]) by {
            if cur.len() > 0 && i == done.len() {
                assert(b[i] == cur);
            } else {
                assert(b[i] == done[i]);
            }
        }
        assert forall|i: int| 0 <= i < (a + b).len() implies fits_or_one_word(#[trigger] (a + b)[i]) by {
            if i < a.len() {
                assert((a + b)[i] == a[i]);
            } else {
                assert((a + b)[i] == b[i - a.len()]);
            }
        }
    }
}

/// Every wrapped line is non-empty and at most 78 bytes long, unless it
/// is a single word longer than that.
pub proof fn wrapped_lines_fit(text: Seq<char>)
    ensures
        forall|i: int| 0 <= i < wrapped(text).len() ==> fits_or_one_word(#[trigger] wrapped(text)[i]),
{
    wrap_paragraphs_fit(paragraphs(text));
}


/// The words of a run of lines, in order.
pub open spec fn flat_words(ls: Seq<Seq<char>>) -> Seq<Seq<char>>
    decreases ls.len(),
{
    if ls.len() == 0 {
        Seq::empty()
    } else {
        flat_words(ls.drop_last()) + ws_tokens(ls.last())
    }
}

proof fn flat_words_concat(a: Seq<Seq<char>>, b: Seq<Seq<char>>)
    ensures
        flat_words(a + b) == flat_words(a) + flat_words(b),
    decreases b.len(),
{
    if b.len() == 0 {
        assert(a + b =~= a);
        assert(flat_words(a) + flat_words(b) =~= flat_words(a));
    } else {
        assert((a + b).drop_last() =~= a + b.drop_last());
        flat_words_concat(a, b.drop_last());
        assert(flat_words(a) + (flat_words(b.drop_last()) + ws_tokens(b.last())) =~= (flat_words(a)
            + flat_words(b.drop_last())) + ws_tokens(b.last()));
    }
}

proof fn tokens_of_word(w: Seq<char>, k: int)
    requires
        no_ws(w),
        0 <= k <= w.len(),
    ensures
        tokens_state(w.take(k)) == (Seq::<Seq<char>>::empty(), w.take(k)),
    decreases k,
{
    if k > 0 {
        tokens_of_word(w, k - 1);
        assert(w.take(k).drop_last() =~= w.take(k - 1));
        assert(w.take(k - 1).push(w[k - 1]) =~= w.take(k));
    } else {
        assert(w.take(0) =~= Seq::<char>::empty());
    }
}

proof fn tokens_after_space(a: Seq<char>, w: Seq<char>, k: int)
    requires
        tokens_state(a).1.len() > 0,
        no_ws(w),
        0 <= k <= w.len(),
    ensures
        tokens_state(a + seq![' '] + w.take(k)) == (
            tokens_state(a).0.push(tokens_state(a).1),
            w.take(k),
        ),
    decreases k,
{
    if k > 0 {
        tokens_after_space(a, w, k - 1);
        assert((a + seq![' '] + w.take(k)).drop_last() =~= a + seq![' '] + w.take(k - 1));
        assert(w.take(k - 1).push(w[k - 1]) =~= w.take(k));
    } else {
        assert(a + seq![' '] + w.take(0) =~= a.push(' '));
        assert(a.push(' ').drop_last() =~= a);
        assert(w.take(0) =~= Seq::<char>::empty());
    }
}

proof fn wrap_state_words(words: Seq<Seq<char>>)
    requires
        forall|i: int| 0 <= i < words.len() ==> (#[trigger] words[i]).len() > 0 && no_ws(words[i]),
    ensures
        flat_words(wrap_state(words).0) + (if wrap_state(words).1.len() > 0 {
            ws_tokens(wrap_state(words).1)
        } else {
            Seq::empty()
        }) == words,
        wrap_state(words).1.len() == 0 || tokens_state(wrap_state(words).1).1.len() > 0,
        wrap_state(words).1.len() == 0 ==> words.len() == 0,
    decreases words.len(),
{
    if words.len() == 0 {
        assert(flat_words(Seq::<Seq<char>>::empty()) + Seq::empty() =~= words);
    } else {
        let prev = words.drop_last();
        assert forall|i: int| 0 <= i < prev.len() implies (#[trigger] prev[i]).len() > 0 && no_ws(
            prev[i],
        ) by {
            assert(prev[i] == words[i]);
        }
        wrap_state_words(prev);
        let (done, cur) = wrap_state(prev);
        let w = words.last();
        assert(w.len() > 0 && no_ws(w));
        tokens_of_word(w, w.len() as int);
        assert(w.take(w.len() as int) =~= w);
        assert(ws_tokens(w) =~= seq![w]);
        if cur.len() == 0 {
            assert(prev.len() == 0);
            assert(flat_words(done) + ws_tokens(w) =~= words);
        } else if cur.len() + 1 + w.len() <= wrap_column() {
            tokens_after_space(cur, w, w.len() as int);
            let (d, c) = tokens_state(cur);
            assert(ws_tokens(cur) == d.push(c));
            assert(ws_tokens(cur + seq![' '] + w) =~= d.push(c).push(w));
            assert(flat_words(done) + ws_tokens(cur + seq![' '] + w) =~= (flat_words(done)
                + ws_tokens(cur)).push(w));
            assert(prev.push(w) =~= words);
        } else {
            assert(done.push(cur).drop_last() =~= done);
            assert(flat_words(done.push(cur)) + ws_tokens(w) =~= (flat_words(done) + ws_tokens(
                cur,
            )).push(w));
            assert(prev.push(w) =~= words);
        }
    }
}

proof fn wrap_paragraph_words(p: Seq<char>)
    ensures
        flat_words(wrap_paragraph(p)) == ws_tokens(p),
{
    words_are_words(p);
    wrap_state_words(ws_tokens(p));
    let (done, cur) = wrap_state(ws_tokens(p));
    if cur.len() > 0 {
        assert(done.push(cur).drop_last() =~= done);
    } else {
        assert(flat_words(done) + Seq::empty() =~= flat_words(done));
    }
}

proof fn wrap_paragraphs_words(ps: Seq<Seq<char>>)
    ensures
        flat_words(wrap_paragraphs(ps)) == flat_words(ps),
    decreases ps.len(),
{
    if ps.len() > 0 {
        wrap_paragraphs_words(ps.drop_last());
        wrap_paragraph_words(ps.last());
        flat_words_concat(wrap_paragraphs(ps.drop_last()), wrap_paragraph(ps.last()));
    }
}

/// Wrapping keeps every word of every paragraph, in order: the words of
/// the wrapped lines are the words of the paragraphs.
pub proof fn wrapping_keeps_words(text: Seq<char>)
    ensures
        flat_words(wrapped(text)) == flat_words(paragraphs(text)),
{
    wrap_paragraphs_words(paragraphs(text));
}


proof fn tokens_after_flush(x: Seq<char>, b: Seq<char>)
    requires
        tokens_state(x).1.len() == 0,
    ensures
        tokens_state(x + b) == (tokens_state(x).0 + tokens_state(b).0, tokens_state(b).1),
    decreases b.len(),
{
    if b.len() == 0 {
        assert(x + b =~= x);
        assert(tokens_state(x).0 + Seq::<Seq<char>>::empty() =~= tokens_state(x).0);
    } else {
        tokens_after_flush(x, b.drop_last());
        assert((x + b).drop_last() =~= x + b.drop_last());
        let (d, c) = tokens_state(b.drop_last());
        assert(tokens_state(x).0 + d.push(c) =~= (tokens_state(x).0 + d).push(c));
    }
}

proof fn tokens_through_blanks(a: Seq<char>, w: Seq<char>, k: int)
    requires
        forall|i: int| 0 <= i < w.len() ==> is_ws(#[trigger] w[i]),
        1 <= k <= w.len(),
    ensures
        tokens_state(a + w.take(k)) == (ws_tokens(a), Seq::<char>::empty()),
    decreases k,
{
    if k == 1 {
        assert((a + w.take(1)).drop_last() =~= a);
        assert((a + w.take(1)).last() == w[0]);
    } else {
        tokens_through_blanks(a, w, k - 1);
        assert((a + w.take(k)).drop_last() =~= a + w.take(k - 1));
        assert((a + w.take(k)).last() == w[k - 1]);
    }
}

/// Whitespace between two texts separates their words.
proof fn words_across_blanks(a: Seq<char>, w: Seq<char>, b: Seq<char>)
    requires
        w.len() > 0,
        forall|i: int| 0 <= i < w.len() ==> is_ws(#[trigger] w[i]),
    ensures
        ws_tokens(a + w + b) == ws_tokens(a) + ws_tokens(b),
{
    tokens_through_blanks(a, w, w.len() as int);
    assert(w.take(w.len() as int) =~= w);
    tokens_after_flush(a + w, b);
    assert(a + w + b =~= (a + w) + b);
    let (d, c) = tokens_state(b);
    if c.len() > 0 {
        assert(ws_tokens(a) + d.push(c) =~= (ws_tokens(a) + d).push(c));
    }
}

proof fn words_of_join(ps: Seq<Seq<char>>)
    ensures
        ws_tokens(join(ps, blank_sep())) == flat_words(ps),
    decreases ps.len(),
{
    if ps.len() == 0 {
        assert(ws_tokens(Seq::<char>::empty()) =~= Seq::<Seq<char>>::empty());
    } else if ps.len() == 1 {
        assert(flat_words(ps.drop_last()) == Seq::<Seq<char>>::empty());
        assert(flat_words(ps) =~= ws_tokens(ps[0]));
    } else {
        words_of_join(ps.drop_last());
        assert forall|i: int| 0 <= i < blank_sep().len() implies is_ws(#[trigger] blank_sep()[i]) by {}
        words_across_blanks(join(ps.drop_last(), blank_sep()), blank_sep(), ps.last());
    }
}

proof fn join_front(a: Seq<char>, rest: Seq<Seq<char>>)
    requires
        rest.len() >= 1,
    ensures
        join(seq![a] + rest, blank_sep()) == a + blank_sep() + join(rest, blank_sep()),
    decreases rest.len(),
{
    let whole = seq![a] + rest;
    assert(whole.len() >= 2);
    assert(whole.last() == rest.last());
    if rest.len() == 1 {
        assert(whole.drop_last() =~= seq![a]);
        assert(join(seq![a], blank_sep()) == a);
        assert(join(rest, blank_sep()) == rest[0]);
        assert(join(whole, blank_sep()) == join(whole.drop_last(), blank_sep()) + blank_sep()
            + whole.last());
    } else {
        join_front(a, rest.drop_last());
        assert(whole.drop_last() =~= seq![a] + rest.drop_last());
        assert(join(whole, blank_sep()) == join(whole.drop_last(), blank_sep()) + blank_sep()
            + whole.last());
        assert(join(rest, blank_sep()) == join(rest.drop_last(), blank_sep()) + blank_sep()
            + rest.last());
        assert(a + blank_sep() + join(rest.drop_last(), blank_sep()) + blank_sep() + rest.last()
            =~= a + blank_sep() + (join(rest.drop_last(), blank_sep()) + blank_sep() + rest.last()));
    }
}

proof fn join_prepend(c: char, ps: Seq<Seq<char>>)
    requires
        ps.len() >= 1,
    ensures
        join(ps.update(0, seq![c] + ps[0]), blank_sep()) == seq![c] + join(ps, blank_sep()),
    decreases ps.len(),
{
    if ps.len() == 1 {
        assert(ps.update(0, seq![c] + ps[0]) =~= seq![seq![c] + ps[0]]);
    } else {
        join_prepend(c, ps.drop_last());
        assert(ps.update(0, seq![c] + ps[0]).drop_last() =~= ps.drop_last().update(
            0,
            seq![c] + ps.drop_last()[0],
        ));
        assert(seq![c] + join(ps.drop_last(), blank_sep()) + blank_sep() + ps.last() =~= seq![c] + (
        join(ps.drop_last(), blank_sep()) + blank_sep() + ps.last()));
    }
}

/// The paragraphs, joined back with blank lines, give the text.
proof fn paragraphs_rejoin(s: Seq<char>)
    ensures
        join(paragraphs(s), blank_sep()) == s,
    decreases s.len(),
{
    if s.len() < 2 {
    } else if s[0] == '\n' && s[1] == '\n' {
        paragraphs_rejoin(s.skip(2));
        paragraphs_nonempty(s.skip(2));
        join_front(Seq::empty(), paragraphs(s.skip(2)));
        assert(Seq::<char>::empty() + blank_sep() + s.skip(2) =~= s);
    } else {
        paragraphs_rejoin(s.skip(1));
        paragraphs_nonempty(s.skip(1));
        join_prepend(s[0], paragraphs(s.skip(1)));
        assert(seq![s[0]] + s.skip(1) =~= s);
    }
}

/// Wrapping keeps exactly the words of the text (`split_whitespace`), in
/// order: the words of the wrapped lines are the words of the text.
pub proof fn wrapping_keeps_the_text_words(text: Seq<char>)
    ensures
        flat_words(wrapped(text)) == ws_tokens(text),
{
    wrapping_keeps_words(text);
    paragraphs_rejoin(text);
    words_of_join(paragraphs(text));
}

/// A heading shows as one line: `#` repeated as many times as the level's
/// number (two for `H2` up to six for `H6`), a space, then the text in bold.
pub proof fn heading_prefix_counts_its_level(text: String, level: HeadingLevel)
    ensures
        section_lines((CmsSection::Heading { text, level })) == seq![
            seq![
                (
                    Seq::new(
                        match level {
                            HeadingLevel::H2 => 2nat,
                            HeadingLevel::H3 => 3nat,
                            HeadingLevel::H4 => 4nat,
                            HeadingLevel::H5 => 5nat,
                            HeadingLevel::H6 => 6nat,
                        },
                        |_i: int| '#',
                    ) + seq![' '],
                    TextStyle::Plain,
                ),
                (text@, TextStyle::Bold),
            ],
        ],
{
    reveal_strlit(" ");
    assert(" "@ =~= seq![' ']);
}

/// A picture shows as one dimmed `[asset: <stem>]` line naming its file
/// stem; its alt text does not change it.
pub proof fn pictures_show_their_asset(src_stem: String, alt: String, other_alt: String)
    ensures
        section_lines((CmsSection::Picture { src_stem, alt })) == seq![
            seq![("[asset: "@ + src_stem@ + "]"@, TextStyle::Dim)],
        ],
        section_lines((CmsSection::Picture { src_stem, alt })) == section_lines(
            (CmsSection::Picture { src_stem, alt: other_alt }),
        ),
{
}

/// Every section yields at least one line.
pub proof fn sections_yield_lines(s: CmsSection)
    ensures
        section_lines(s).len() >= 1,
{
}

/// A page has at least its title, the blank line after it, one line per
/// section and a blank line between consecutive sections.
pub proof fn page_line_count(page: CmsPage)
    ensures
        page_lines(page).len() >= 2 * page.sections@.len() + 1,
{
    sections_line_count(page.sections@);
}

proof fn sections_line_count(ss: Seq<CmsSection>)
    ensures
        sections_lines(ss).len() + 1 >= 2 * ss.len(),
    decreases ss.len(),
{
    if ss.len() > 0 {
        sections_line_count(ss.drop_last());
        sections_yield_lines(ss.last());
    }
}

} // verus!
