//! Typed `Badge` (eyebrow pill / inline label) primitive.

use vstd::prelude::*;
use crate::text::{attr, contains_seq, html_escape, occurs_at, push_attr, push_escaped, push_str};

verus! {

/// Visual tone.
#[derive(Debug, Clone, Copy, PartialEq, Eq, Structural)]
pub enum BadgeTone {
    /// Brand-coloured pill on a light surface — default for eyebrows.
    Primary,
    /// White-on-dark pill with translucent backdrop, for dark bands.
    OnDark,
    /// Slate-tinted neutral pill, for category tags on cards.
    Neutral,
    /// Emerald-tinted success pill.
    Success,
}

/// Size step.
#[derive(Debug, Clone, Copy, PartialEq, Eq, Structural)]
pub enum BadgeSize {
    /// Compact (`text-xs`) — inline on cards.
    Sm,
    /// Default (`text-sm`) — eyebrow above headings.
    Md,
}

/// Shape — the chrome envelope around the label.
#[derive(Debug, Clone, Copy, PartialEq, Eq, Structural)]
pub enum BadgeShape {
    /// `rounded-full` pill — the default.
    Pill,
    /// `rounded-md` square with soft corners.
    Square,
    /// No chrome: monospace uppercase tracked text in the tone colour.
    EditorialKicker,
}

impl Default for BadgeShape {
    /// The pill.
    fn default() -> (r: Self)
        ensures
            r == BadgeShape::Pill,
    {
        BadgeShape::Pill
    }
}

/// A typed badge.
pub struct Badge<'a> {
    /// Visible label.
    pub label: &'a str,
    /// Tone.
    pub tone: BadgeTone,
    /// Size.
    pub size: BadgeSize,
    /// Shape.
    pub shape: BadgeShape,
}

/// Surface, text and border classes of a chromed badge.
pub open spec fn badge_tone_classes(t: BadgeTone) -> &'static str {
    match t {
        BadgeTone::Primary => "bg-primary/10 text-primary border-primary/20",
        BadgeTone::OnDark => "bg-white/10 text-white border-white/10 backdrop-blur-sm",
        BadgeTone::Neutral => "bg-slate-100 text-slate-700 border-slate-200",
        BadgeTone::Success => "bg-emerald-50 text-emerald-700 border-emerald-200",
    }
}

/// Padding and text size of a chromed badge.
pub open spec fn badge_size_classes(s: BadgeSize) -> &'static str {
    match s {
        BadgeSize::Sm => "px-2.5 py-0.5 text-xs",
        BadgeSize::Md => "px-4 py-1.5 text-sm",
    }
}

/// Text colour of an editorial kicker — no surface, no border.
pub open spec fn kicker_tone_classes(t: BadgeTone) -> &'static str {
    match t {
        BadgeTone::Primary => "text-primary",
        BadgeTone::OnDark => "text-slate-300",
        BadgeTone::Neutral => "text-slate-500",
        BadgeTone::Success => "text-emerald-700",
    }
}

/// Text size of an editorial kicker — no horizontal padding.
pub open spec fn kicker_size_classes(s: BadgeSize) -> &'static str {
    match s {
        BadgeSize::Sm => "text-[0.7rem]",
        BadgeSize::Md => "text-xs",
    }
}

/// The `data-loom-badge-shape` value of a shape.
pub open spec fn badge_shape_attr(shape: BadgeShape) -> &'static str {
    match shape {
        BadgeShape::Pill => "pill",
        BadgeShape::Square => "square",
        BadgeShape::EditorialKicker => "editorial-kicker",
    }
}

/// The class string of a badge.
pub open spec fn badge_class(tone: BadgeTone, size: BadgeSize, shape: BadgeShape) -> Seq<char> {
    match shape {
        BadgeShape::Pill => "inline-block rounded-full font-semibold border "@ + badge_tone_classes(
            tone,
        )@ + " "@ + badge_size_classes(size)@,
        BadgeShape::Square => "inline-block rounded-md font-semibold border "@ + badge_tone_classes(
            tone,
        )@ + " "@ + badge_size_classes(size)@,
        BadgeShape::EditorialKicker => "inline-block font-mono uppercase tracking-widest font-medium "@
            + kicker_tone_classes(tone)@ + " "@ + kicker_size_classes(size)@,
    }
}

fn tone_classes(t: BadgeTone) -> (r: &'static str)
    ensures
        r == badge_tone_classes(t),
{
    match t {
        BadgeTone::Primary => "bg-primary/10 text-primary border-primary/20",
        BadgeTone::OnDark => "bg-white/10 text-white border-white/10 backdrop-blur-sm",
        BadgeTone::Neutral => "bg-slate-100 text-slate-700 border-slate-200",
        BadgeTone::Success => "bg-emerald-50 text-emerald-700 border-emerald-200",
    }
}

fn size_classes(s: BadgeSize) -> (r: &'static str)
    ensures
        r == badge_size_classes(s),
{
    match s {
        BadgeSize::Sm => "px-2.5 py-0.5 text-xs",
        BadgeSize::Md => "px-4 py-1.5 text-sm",
    }
}

fn editorial_kicker_tone_classes(t: BadgeTone) -> (r: &'static str)
    ensures
        r == kicker_tone_classes(t),
{
    match t {
        BadgeTone::Primary => "text-primary",
        BadgeTone::OnDark => "text-slate-300",
        BadgeTone::Neutral => "text-slate-500",
        BadgeTone::Success => "text-emerald-700",
    }
}

fn editorial_kicker_size_classes(s: BadgeSize) -> (r: &'static str)
    ensures
        r == kicker_size_classes(s),
{
    match s {
        BadgeSize::Sm => "text-[0.7rem]",
        BadgeSize::Md => "text-xs",
    }
}

fn shape_attr(shape: BadgeShape) -> (r: &'static str)
    ensures
        r == badge_shape_attr(shape),
{
    match shape {
        BadgeShape::Pill => "pill",
        BadgeShape::Square => "square",
        BadgeShape::EditorialKicker => "editorial-kicker",
    }
}

fn compose_class(tone: BadgeTone, size: BadgeSize, shape: BadgeShape) -> (r: String)
    ensures
        r@ == badge_class(tone, size, shape),
{
    let mut s = String::new();
    match shape {
        BadgeShape::Pill => {
            push_str(&mut s, "inline-block rounded-full font-semibold border ");
            push_str(&mut s, tone_classes(tone));
            push_str(&mut s, " ");
            push_str(&mut s, size_classes(size));
        },
        BadgeShape::Square => {
            push_str(&mut s, "inline-block rounded-md font-semibold border ");
            push_str(&mut s, tone_classes(tone));
            push_str(&mut s, " ");
            push_str(&mut s, size_classes(size));
        },
        BadgeShape::EditorialKicker => {
            push_str(&mut s, "inline-block font-mono uppercase tracking-widest font-medium ");
            push_str(&mut s, editorial_kicker_tone_classes(tone));
            push_str(&mut s, " ");
            push_str(&mut s, editorial_kicker_size_classes(size));
        },
    }
    assert(s@ =~= badge_class(tone, size, shape));
    s
}

impl<'a> Badge<'a> {
    /// The markup a badge renders to: a `<span>` carrying the composed
    /// classes and its shape, around the escaped label.
    pub open spec fn html(self) -> Seq<char> {
        "<span"@ + attr("class"@, badge_class(self.tone, self.size, self.shape)) + attr(
            "data-loom-badge-shape"@,
            badge_shape_attr(self.shape)@,
        ) + ">"@ + html_escape(self.label@) + "</span>"@
    }

    /// Render as `<span>`.
    pub fn render(&self) -> (r: String)
        ensures
            r@ == self.html(),
    {
        let class = compose_class(self.tone, self.size, self.shape);
        let mut out = String::new();
        push_str(&mut out, "<span");
        push_attr(&mut out, "class", class.as_str());
        push_attr(&mut out, "data-loom-badge-shape", shape_attr(self.shape));
        push_str(&mut out, ">");
        push_escaped(&mut out, self.label);
        push_str(&mut out, "</span>");
        assert(out@ =~= self.html());
        out
    }
}

/// Text held between a fixed prefix and a fixed tail is fixed by the whole.
proof fn middle_is_fixed(p: Seq<char>, t1: Seq<char>, t2: Seq<char>, q: Seq<char>, r: Seq<char>)
    requires
        p + t1 + q + r == p + t2 + q + r,
    ensures
        t1 == t2,
{
    let w1 = p + t1 + q + r;
    let w2 = p + t2 + q + r;
    assert(w1.len() == w2.len());
    assert(t1.len() == t2.len());
    assert(t1 =~= w1.subrange(p.len() as int, (p.len() + t1.len()) as int));
    assert(t2 =~= w2.subrange(p.len() as int, (p.len() + t2.len()) as int));
}

/// Text found in the middle part is found in the whole.
proof fn found_in_middle(p: Seq<char>, t: Seq<char>, q: Seq<char>, r: Seq<char>, needle: Seq<char>, i: int)
    requires
        occurs_at(t, needle, i),
    ensures
        contains_seq(p + t + q + r, needle),
{
    let w = p + t + q + r;
    assert(w.subrange(p.len() + i, p.len() + i + needle.len()) =~= t.subrange(i, i + needle.len()));
    assert(occurs_at(w, needle, p.len() + i));
}

/// Badges of different tones never share a class string, in any size and
/// shape.
pub proof fn badge_tones_are_distinguishable(a: BadgeTone, b: BadgeTone, size: BadgeSize, shape: BadgeShape)
    requires
        a != b,
    ensures
        badge_class(a, size, shape) != badge_class(b, size, shape),
{
    reveal_strlit("bg-primary/10 text-primary border-primary/20");
    reveal_strlit("bg-white/10 text-white border-white/10 backdrop-blur-sm");
    reveal_strlit("bg-slate-100 text-slate-700 border-slate-200");
    reveal_strlit("bg-emerald-50 text-emerald-700 border-emerald-200");
    reveal_strlit("text-primary");
    reveal_strlit("text-slate-300");
    reveal_strlit("text-slate-500");
    reveal_strlit("text-emerald-700");
    if badge_class(a, size, shape) == badge_class(b, size, shape) {
        match shape {
            BadgeShape::EditorialKicker => {
                middle_is_fixed(
                    "inline-block font-mono uppercase tracking-widest font-medium "@,
                    kicker_tone_classes(a)@,
                    kicker_tone_classes(b)@,
                    " "@,
                    kicker_size_classes(size)@,
                );
                assert(kicker_tone_classes(a)@[11] == kicker_tone_classes(b)@[11]);
            },
            BadgeShape::Pill => {
                middle_is_fixed(
                    "inline-block rounded-full font-semibold border "@,
                    badge_tone_classes(a)@,
                    badge_tone_classes(b)@,
                    " "@,
                    badge_size_classes(size)@,
                );
                assert(badge_tone_classes(a)@[3] == badge_tone_classes(b)@[3]);
            },
            BadgeShape::Square => {
                middle_is_fixed(
                    "inline-block rounded-md font-semibold border "@,
                    badge_tone_classes(a)@,
                    badge_tone_classes(b)@,
                    " "@,
                    badge_size_classes(size)@,
                );
                assert(badge_tone_classes(a)@[3] == badge_tone_classes(b)@[3]);
            },
        }
    }
}

/// Badges of different sizes never share a class string, in any tone and
/// shape.
pub proof fn badge_sizes_are_distinguishable(tone: BadgeTone, a: BadgeSize, b: BadgeSize, shape: BadgeShape)
    requires
        a != b,
    ensures
        badge_class(tone, a, shape) != badge_class(tone, b, shape),
{
    reveal_strlit("px-2.5 py-0.5 text-xs");
    reveal_strlit("px-4 py-1.5 text-sm");
    reveal_strlit("text-[0.7rem]");
    reveal_strlit("text-xs");
    let e = Seq::<char>::empty();
    if badge_class(tone, a, shape) == badge_class(tone, b, shape) {
        let (head, sa, sb) = match shape {
            BadgeShape::EditorialKicker => (
                "inline-block font-mono uppercase tracking-widest font-medium "@
                    + kicker_tone_classes(tone)@ + " "@,
                kicker_size_classes(a)@,
                kicker_size_classes(b)@,
            ),
            BadgeShape::Pill => (
                "inline-block rounded-full font-semibold border "@ + badge_tone_classes(tone)@
                    + " "@,
                badge_size_classes(a)@,
                badge_size_classes(b)@,
            ),
            BadgeShape::Square => (
                "inline-block rounded-md font-semibold border "@ + badge_tone_classes(tone)@
                    + " "@,
                badge_size_classes(a)@,
                badge_size_classes(b)@,
            ),
        };
        assert(badge_class(tone, a, shape) =~= head + sa + e + e);
        assert(badge_class(tone, b, shape) =~= head + sb + e + e);
        middle_is_fixed(head, sa, sb, e, e);
        assert(sa[0] == sb[0]);
        assert(sa.len() == sb.len());
    }
}

/// The text colour of a badge's tone in a shape: the brand colour for
/// primary, white (a lighter slate as a kicker) on dark, slate for
/// neutral, emerald for success.
pub open spec fn tone_text_class(tone: BadgeTone, shape: BadgeShape) -> Seq<char> {
    match (tone, shape) {
        (BadgeTone::Primary, _) => "text-primary"@,
        (BadgeTone::OnDark, BadgeShape::EditorialKicker) => "text-slate-300"@,
        (BadgeTone::OnDark, _) => "text-white"@,
        (BadgeTone::Neutral, BadgeShape::EditorialKicker) => "text-slate-500"@,
        (BadgeTone::Neutral, _) => "text-slate-700"@,
        (BadgeTone::Success, _) => "text-emerald-700"@,
    }
}

/// Every badge carries its tone's text colour class, in any size and shape.
pub proof fn badge_carries_its_tone_colour(tone: BadgeTone, size: BadgeSize, shape: BadgeShape)
    ensures
        contains_seq(badge_class(tone, size, shape), tone_text_class(tone, shape)),
{
    reveal_strlit("bg-primary/10 text-primary border-primary/20");
    reveal_strlit("bg-white/10 text-white border-white/10 backdrop-blur-sm");
    reveal_strlit("bg-slate-100 text-slate-700 border-slate-200");
    reveal_strlit("bg-emerald-50 text-emerald-700 border-emerald-200");
    reveal_strlit("text-primary");
    reveal_strlit("text-white");
    reveal_strlit("text-slate-300");
    reveal_strlit("text-slate-500");
    reveal_strlit("text-slate-700");
    reveal_strlit("text-emerald-700");
    let needle = tone_text_class(tone, shape);
    match shape {
        BadgeShape::EditorialKicker => {
            let t = kicker_tone_classes(tone)@;
            assert(t.subrange(0, needle.len() as int) =~= needle);
            found_in_middle(
                "inline-block font-mono uppercase tracking-widest font-medium "@,
                t,
                " "@,
                kicker_size_classes(size)@,
                needle,
                0,
            );
        },
        _ => {
            let t = badge_tone_classes(tone)@;
            let at: int = match tone {
                BadgeTone::Primary => 14,
                BadgeTone::OnDark => 12,
                BadgeTone::Neutral => 13,
                BadgeTone::Success => 14,
            };
            assert(t.subrange(at, at + needle.len()) =~= needle);
            let p = if shape == BadgeShape::Pill {
                "inline-block rounded-full font-semibold border "@
            } else {
                "inline-block rounded-md font-semibold border "@
            };
            found_in_middle(p, t, " "@, badge_size_classes(size)@, needle, at);
        },
    }
}

} // verus!
