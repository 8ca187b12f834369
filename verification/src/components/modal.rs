//! Typed `Modal` primitive — a native `<dialog>` labelled by its title,
//! with a dismiss button that closes it without script.

use vstd::prelude::*;
use crate::text::{attr, html_escape, push_attr, push_escaped, push_str};

verus! {

/// Modal width step.
#[derive(Debug, Clone, Copy, PartialEq, Eq, Structural)]
pub enum ModalSize {
    /// Compact — confirmations, single-line prompts.
    Sm,
    /// Default.
    Md,
    /// Large — forms, terms acceptance.
    Lg,
}

/// Corner shape.
#[derive(Debug, Clone, Copy, PartialEq, Eq, Structural)]
pub enum ModalShape {
    /// `rounded-xl` — the default.
    Rounded,
    /// `rounded-none` editorial dialog.
    Square,
}

impl Default for ModalShape {
    /// Rounded.
    fn default() -> (r: Self)
        ensures
            r == ModalShape::Rounded,
    {
        ModalShape::Rounded
    }
}

/// Shadow elevation.
#[derive(Debug, Clone, Copy, PartialEq, Eq, Structural)]
pub enum ModalElevation {
    /// `shadow-2xl` — the default.
    Pronounced,
    /// `shadow-lg`.
    Soft,
    /// No shadow.
    Flat,
}

impl Default for ModalElevation {
    /// Pronounced.
    fn default() -> (r: Self)
        ensures
            r == ModalElevation::Pronounced,
    {
        ModalElevation::Pronounced
    }
}

/// A typed modal dialog.
pub struct Modal<'a> {
    /// Element id; the title's id is this with `-title` appended.
    pub id: &'a str,
    /// Visible title text (an `<h2>`).
    pub title: &'a str,
    /// Body content, already HTML (emitted unescaped).
    pub body: String,
    /// Footer content, already HTML (emitted unescaped).
    pub footer: String,
    /// Width step.
    pub size: ModalSize,
    /// Accessible name of the dismiss button.
    pub close_label: &'a str,
    /// Corner shape.
    pub shape: ModalShape,
    /// Shadow elevation.
    pub elevation: ModalElevation,
}

/// Width class of a size.
pub open spec fn modal_size_class(s: ModalSize) -> &'static str {
    match s {
        ModalSize::Sm => "max-w-sm",
        ModalSize::Md => "max-w-lg",
        ModalSize::Lg => "max-w-2xl",
    }
}

/// Radius class of a shape.
pub open spec fn modal_shape_class(s: ModalShape) -> &'static str {
    match s {
        ModalShape::Rounded => "rounded-xl",
        ModalShape::Square => "rounded-none",
    }
}

/// Shadow class of an elevation; empty for flat.
pub open spec fn modal_elevation_class(e: ModalElevation) -> &'static str {
    match e {
        ModalElevation::Pronounced => "shadow-2xl",
        ModalElevation::Soft => "shadow-lg",
        ModalElevation::Flat => "",
    }
}

/// `data-loom-modal-shape` value of a shape.
pub open spec fn modal_shape_attr(s: ModalShape) -> &'static str {
    match s {
        ModalShape::Rounded => "rounded",
        ModalShape::Square => "square",
    }
}

/// `data-loom-modal-elevation` value of an elevation.
pub open spec fn modal_elevation_attr(e: ModalElevation) -> &'static str {
    match e {
        ModalElevation::Pronounced => "pronounced",
        ModalElevation::Soft => "soft",
        ModalElevation::Flat => "flat",
    }
}

/// Radius of the dismiss button: it follows the dialog's shape.
pub open spec fn modal_close_radius(s: ModalShape) -> &'static str {
    match s {
        ModalShape::Rounded => "rounded-md",
        ModalShape::Square => "rounded-none",
    }
}

impl<'a> Modal<'a> {
    /// The dialog's class string.
    pub open spec fn dialog_class(self) -> Seq<char> {
        modal_shape_class(self.shape)@ + " border border-slate-200 "@ + modal_elevation_class(
            self.elevation,
        )@ + " p-0 bg-white "@ + modal_size_class(self.size)@ + " w-full backdrop:bg-slate-900/40"@
    }

    /// The title element's id.
    pub open spec fn title_id(self) -> Seq<char> {
        self.id@ + "-title"@
    }

    /// The markup of the dialog.
    pub open spec fn html(self) -> Seq<char> {
        "<dialog"@ + attr("id"@, self.id@) + attr("class"@, self.dialog_class()) + attr(
            "aria-labelledby"@,
            self.title_id(),
        ) + attr("data-loom-modal-shape"@, modal_shape_attr(self.shape)@) + attr(
            "data-loom-modal-elevation"@,
            modal_elevation_attr(self.elevation)@,
        ) + ">"@ + "<div class=\"p-6\">"@ + "<div class=\"flex items-start justify-between mb-4\">"@
            + "<h2"@ + attr("id"@, self.title_id())
            + " class=\"font-display text-xl font-bold text-slate-900\">"@ + html_escape(self.title@)
            + "</h2>"@ + "<form method=\"dialog\">"@ + "<button type=\"submit\""@ + attr(
            "aria-label"@,
            self.close_label@,
        ) + attr(
            "class"@,
            modal_close_radius(self.shape)@
                + " p-1 text-slate-400 hover:text-slate-700 hover:bg-slate-100"@,
        ) + ">"@ + "×"@ + "</button>"@ + "</form>"@ + "</div>"@
            + "<div class=\"text-slate-600 leading-relaxed\">"@ + self.body@ + "</div>"@
            + "<div class=\"mt-6 flex items-center justify-end gap-2\">"@ + self.footer@ + "</div>"@
            + "</div>"@ + "</dialog>"@
    }

    /// Render the dialog markup (the open/close trigger is the caller's).
    pub fn render(&self) -> (r: String)
        ensures
            r@ == self.html(),
    {
        let size_class = match self.size {
            ModalSize::Sm => "max-w-sm",
            ModalSize::Md => "max-w-lg",
            ModalSize::Lg => "max-w-2xl",
        };
        let shape_class = match self.shape {
            ModalShape::Rounded => "rounded-xl",
            ModalShape::Square => "rounded-none",
        };
        let elevation_class = match self.elevation {
            ModalElevation::Pronounced => "shadow-2xl",
            ModalElevation::Soft => "shadow-lg",
            ModalElevation::Flat => "",
        };
        let shape_attr = match self.shape {
            ModalShape::Rounded => "rounded",
            ModalShape::Square => "square",
        };
        let elevation_attr = match self.elevation {
            ModalElevation::Pronounced => "pronounced",
            ModalElevation::Soft => "soft",
            ModalElevation::Flat => "flat",
        };
        let close_radius = match self.shape {
            ModalShape::Rounded => "rounded-md",
            ModalShape::Square => "rounded-none",
        };
        let mut dialog_class = String::new();
        push_str(&mut dialog_class, shape_class);
        push_str(&mut dialog_class, " border border-slate-200 ");
        push_str(&mut dialog_class, elevation_class);
        push_str(&mut dialog_class, " p-0 bg-white ");
        push_str(&mut dialog_class, size_class);
        push_str(&mut dialog_class, " w-full backdrop:bg-slate-900/40");
        assert(dialog_class@ =~= self.dialog_class());
        let mut title_id = String::new();
        push_str(&mut title_id, self.id);
        push_str(&mut title_id, "-title");
        let mut close_class = String::new();
        push_str(&mut close_class, close_radius);
        push_str(&mut close_class, " p-1 text-slate-400 hover:text-slate-700 hover:bg-slate-100");
        let mut out = String::new();
        push_str(&mut out, "<dialog");
        push_attr(&mut out, "id", self.id);
        push_attr(&mut out, "class", dialog_class.as_str());
        push_attr(&mut out, "aria-labelledby", title_id.as_str());
        push_attr(&mut out, "data-loom-modal-shape", shape_attr);
        push_attr(&mut out, "data-loom-modal-elevation", elevation_attr);
        push_str(&mut out, ">");
        push_str(&mut out, "<div class=\"p-6\">");
        push_str(&mut out, "<div class=\"flex items-start justify-between mb-4\">");
        push_str(&mut out, "<h2");
        push_attr(&mut out, "id", title_id.as_str());
        push_str(&mut out, " class=\"font-display text-xl font-bold text-slate-900\">");
        push_escaped(&mut out, self.title);
        push_str(&mut out, "</h2>");
        push_str(&mut out, "<form method=\"dialog\">");
        push_str(&mut out, "<button type=\"submit\"");
        push_attr(&mut out, "aria-label", self.close_label);
        push_attr(&mut out, "class", close_class.as_str());
        push_str(&mut out, ">");
        push_str(&mut out, "×");
        push_str(&mut out, "</button>");
        push_str(&mut out, "</form>");
        push_str(&mut out, "</div>");
        push_str(&mut out, "<div class=\"text-slate-600 leading-relaxed\">");
        push_str(&mut out, self.body.as_str());
        push_str(&mut out, "</div>");
        push_str(&mut out, "<div class=\"mt-6 flex items-center justify-end gap-2\">");
        push_str(&mut out, self.footer.as_str());
        push_str(&mut out, "</div>");
        push_str(&mut out, "</div>");
        push_str(&mut out, "</dialog>");
        assert(out@ =~= self.html());
        out
    }
}

} // verus!
