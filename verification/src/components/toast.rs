//! Typed `Toast` primitive — a transient notification card whose ARIA
//! role follows its tone: `status`/`polite` for info and success,
//! `alert`/`assertive` for warning and danger.

use vstd::prelude::*;
use crate::text::{attr, html_escape, push_attr, push_escaped, push_str};

verus! {

/// Tone of a toast.
#[derive(Debug, Clone, Copy, PartialEq, Eq, Structural)]
pub enum ToastTone {
    /// Neutral information.
    Info,
    /// Operation succeeded.
    Success,
    /// Non-blocking warning.
    Warning,
    /// Error or failure.
    Danger,
}

/// Intended auto-dismiss timing, read by a script layer.
#[derive(Debug, Clone, Copy, PartialEq, Eq, Structural)]
pub enum ToastDuration {
    /// About three seconds — confirmations.
    Short,
    /// About six seconds — info, warnings.
    Default,
    /// Stays until dismissed.
    Sticky,
}

/// Corner shape.
#[derive(Debug, Clone, Copy, PartialEq, Eq, Structural)]
pub enum ToastShape {
    /// `rounded-lg` — the default.
    Rounded,
    /// `rounded-none` notification strip.
    Square,
}

impl Default for ToastShape {
    /// Rounded.
    fn default() -> (r: Self)
        ensures
            r == ToastShape::Rounded,
    {
        ToastShape::Rounded
    }
}

/// Shadow elevation.
#[derive(Debug, Clone, Copy, PartialEq, Eq, Structural)]
pub enum ToastElevation {
    /// `shadow-md` — the default.
    Soft,
    /// No shadow.
    Flat,
}

impl Default for ToastElevation {
    /// Soft.
    fn default() -> (r: Self)
        ensures
            r == ToastElevation::Soft,
    {
        ToastElevation::Soft
    }
}

/// A typed toast notification.
pub struct Toast<'a> {
    /// Visible title, one short line.
    pub title: &'a str,
    /// Optional body text below the title.
    pub body: Option<&'a str>,
    /// Tone — colour and ARIA role.
    pub tone: ToastTone,
    /// Intended auto-dismiss timing.
    pub duration: ToastDuration,
    /// Corner shape.
    pub shape: ToastShape,
    /// Shadow elevation.
    pub elevation: ToastElevation,
}

/// Border, surface and ink of a tone.
pub open spec fn toast_tone_classes(t: ToastTone) -> &'static str {
    match t {
        ToastTone::Info => "border-slate-200 bg-white text-slate-900",
        ToastTone::Success => "border-emerald-200 bg-emerald-50 text-emerald-900",
        ToastTone::Warning => "border-amber-200 bg-amber-50 text-amber-900",
        ToastTone::Danger => "border-red-200 bg-red-50 text-red-900",
    }
}

/// A tone interrupts the reader: warnings and dangers do.
pub open spec fn toast_is_assertive(t: ToastTone) -> bool {
    t == ToastTone::Warning || t == ToastTone::Danger
}

/// ARIA role of a tone.
pub open spec fn toast_role(t: ToastTone) -> &'static str {
    if toast_is_assertive(t) {
        "alert"
    } else {
        "status"
    }
}

/// `aria-live` politeness of a tone.
pub open spec fn toast_live(t: ToastTone) -> &'static str {
    if toast_is_assertive(t) {
        "assertive"
    } else {
        "polite"
    }
}

/// `data-toast-duration` value.
pub open spec fn toast_duration_attr(d: ToastDuration) -> &'static str {
    match d {
        ToastDuration::Short => "short",
        ToastDuration::Default => "default",
        ToastDuration::Sticky => "sticky",
    }
}

/// Radius of a shape.
pub open spec fn toast_shape_class(s: ToastShape) -> &'static str {
    match s {
        ToastShape::Rounded => "rounded-lg",
        ToastShape::Square => "rounded-none",
    }
}

/// Shadow of an elevation; empty for flat.
pub open spec fn toast_elevation_class(e: ToastElevation) -> &'static str {
    match e {
        ToastElevation::Soft => "shadow-md",
        ToastElevation::Flat => "",
    }
}

/// `data-loom-toast-shape` value.
pub open spec fn toast_shape_attr(s: ToastShape) -> &'static str {
    match s {
        ToastShape::Rounded => "rounded",
        ToastShape::Square => "square",
    }
}

/// `data-loom-toast-elevation` value.
pub open spec fn toast_elevation_attr(e: ToastElevation) -> &'static str {
    match e {
        ToastElevation::Soft => "soft",
        ToastElevation::Flat => "flat",
    }
}

impl<'a> Toast<'a> {
    /// The wrapper's class string.
    pub open spec fn wrapper_class(self) -> Seq<char> {
        toast_shape_class(self.shape)@ + " border "@ + toast_elevation_class(self.elevation)@
            + " px-4 py-3 max-w-sm "@ + toast_tone_classes(self.tone)@
    }

    /// The markup of the toast.
    pub open spec fn html(self) -> Seq<char> {
        "<div"@ + attr("role"@, toast_role(self.tone)@) + attr("aria-live"@, toast_live(self.tone)@)
            + attr("data-toast-duration"@, toast_duration_attr(self.duration)@) + attr(
            "data-loom-toast-shape"@,
            toast_shape_attr(self.shape)@,
        ) + attr("data-loom-toast-elevation"@, toast_elevation_attr(self.elevation)@) + attr(
            "class"@,
            self.wrapper_class(),
        ) + ">"@ + "<p class=\"font-semibold text-sm\">"@ + html_escape(self.title@) + "</p>"@
            + match self.body {
            Some(body) => "<p class=\"text-sm mt-1 opacity-80\">"@ + html_escape(body@) + "</p>"@,
            None => Seq::empty(),
        } + "</div>"@
    }

    /// Render as a single notification card.
    pub fn render(&self) -> (r: String)
        ensures
            r@ == self.html(),
    {
        let tone_classes = match self.tone {
            ToastTone::Info => "border-slate-200 bg-white text-slate-900",
            ToastTone::Success => "border-emerald-200 bg-emerald-50 text-emerald-900",
            ToastTone::Warning => "border-amber-200 bg-amber-50 text-amber-900",
            ToastTone::Danger => "border-red-200 bg-red-50 text-red-900",
        };
        let (role, live) = match self.tone {
            ToastTone::Info | ToastTone::Success => ("status", "polite"),
            ToastTone::Warning | ToastTone::Danger => ("alert", "assertive"),
        };
        let duration = match self.duration {
            ToastDuration::Short => "short",
            ToastDuration::Default => "default",
            ToastDuration::Sticky => "sticky",
        };
        let shape_class = match self.shape {
            ToastShape::Rounded => "rounded-lg",
            ToastShape::Square => "rounded-none",
        };
        let elevation_class = match self.elevation {
            ToastElevation::Soft => "shadow-md",
            ToastElevation::Flat => "",
        };
        let shape_attr = match self.shape {
            ToastShape::Rounded => "rounded",
            ToastShape::Square => "square",
        };
        let elevation_attr = match self.elevation {
            ToastElevation::Soft => "soft",
            ToastElevation::Flat => "flat",
        };
        let mut wrapper_class = String::new();
        push_str(&mut wrapper_class, shape_class);
        push_str(&mut wrapper_class, " border ");
        push_str(&mut wrapper_class, elevation_class);
        push_str(&mut wrapper_class, " px-4 py-3 max-w-sm ");
        push_str(&mut wrapper_class, tone_classes);
        assert(wrapper_class@ =~= self.wrapper_class());
        let mut out = String::new();
        push_str(&mut out, "<div");
        push_attr(&mut out, "role", role);
        push_attr(&mut out, "aria-live", live);
        push_attr(&mut out, "data-toast-duration", duration);
        push_attr(&mut out, "data-loom-toast-shape", shape_attr);
        push_attr(&mut out, "data-loom-toast-elevation", elevation_attr);
        push_attr(&mut out, "class", wrapper_class.as_str());
        push_str(&mut out, ">");
        push_str(&mut out, "<p class=\"font-semibold text-sm\">");
        push_escaped(&mut out, self.title);
        push_str(&mut out, "</p>");
        if let Some(body) = self.body {
            push_str(&mut out, "<p class=\"text-sm mt-1 opacity-80\">");
            push_escaped(&mut out, body);
            push_str(&mut out, "</p>");
        }
        push_str(&mut out, "</div>");
        assert(out@ =~= self.html());
        out
    }
}

} // verus!
