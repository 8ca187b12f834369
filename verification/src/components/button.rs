//! Typed `Button` primitive.

use vstd::prelude::*;
use crate::text::{attr, html_escape, push_attr, push_escaped, push_str, trim, trimmed};

verus! {

/// Visual style.
#[derive(Debug, Clone, Copy, PartialEq, Eq, Structural)]
pub enum ButtonVariant {
    /// Filled primary CTA.
    Primary,
    /// Outlined secondary CTA.
    Outline,
    /// Outlined CTA in the success colour.
    OutlineSuccess,
    /// Transparent ("ghost") button, used inside dark bands.
    Transparent,
}

/// Button size: a fixed spacing step plus a font-size step.
#[derive(Debug, Clone, Copy, PartialEq, Eq, Structural)]
pub enum ButtonSize {
    /// Small — nav.
    Sm,
    /// Medium — most CTAs.
    Md,
    /// Large — hero CTA only.
    Lg,
}

/// Where an icon sits relative to the label.
#[derive(Debug, Clone, Copy, PartialEq, Eq, Structural)]
pub enum IconPosition {
    /// Icon precedes the label.
    Before,
    /// Icon follows the label.
    After,
}

/// Optional visual decoration.
#[derive(Debug, Clone, Copy, PartialEq, Eq, Structural)]
pub enum Decoration {
    /// No extra decoration.
    Plain,
    /// Soft brand-tinted shadow — hero CTAs.
    SoftShadow,
}

/// HTML form role of a `<button>`: a closed set, as in HTML.
#[derive(Debug, Clone, Copy, PartialEq, Eq, Structural)]
pub enum ButtonType {
    /// `type="button"` — plain action, the default.
    Button,
    /// `type="submit"` — submits the surrounding `<form>`.
    Submit,
    /// `type="reset"` — clears the surrounding `<form>`.
    Reset,
}

/// The `type` attribute value of a role.
pub open spec fn button_type_str(t: ButtonType) -> &'static str {
    match t {
        ButtonType::Button => "button",
        ButtonType::Submit => "submit",
        ButtonType::Reset => "reset",
    }
}

impl ButtonType {
    fn as_str(self) -> (r: &'static str)
        ensures
            r == button_type_str(self),
    {
        match self {
            ButtonType::Button => "button",
            ButtonType::Submit => "submit",
            ButtonType::Reset => "reset",
        }
    }
}

/// A typed button. There is no free-form class field.
pub struct Button<'a> {
    /// Visible label text.
    pub label: &'a str,
    /// Visual style.
    pub variant: ButtonVariant,
    /// Physical size.
    pub size: ButtonSize,
    /// Accessible name; `None` announces `label` verbatim.
    pub aria_label: Option<&'a str>,
    /// Optional trusted inline SVG (emitted unescaped) and its position.
    pub icon: Option<(&'a str, IconPosition)>,
    /// Optional visual decoration.
    pub decoration: Decoration,
    /// HTML form role.
    pub button_type: ButtonType,
}

/// Focus ring, layout and transition classes shared by every button.
pub open spec fn button_base_classes() -> &'static str {
    "inline-flex items-center justify-center gap-2 whitespace-nowrap font-medium focus-visible:outline-none focus-visible:ring-2 focus-visible:ring-ring focus-visible:ring-offset-2 disabled:pointer-events-none disabled:opacity-50 transition-colors"
}

/// Height, padding, text size and radius of a size step.
pub open spec fn button_size_classes(s: ButtonSize) -> &'static str {
    match s {
        ButtonSize::Sm => "h-8 px-3 text-xs rounded-md",
        ButtonSize::Md => "h-10 px-4 text-sm rounded-md",
        ButtonSize::Lg => "h-12 px-8 py-6 text-lg rounded-xl",
    }
}

/// Surface, text, border and hover classes of a variant.
pub open spec fn button_variant_classes(v: ButtonVariant) -> &'static str {
    match v {
        ButtonVariant::Primary => "bg-primary text-primary-foreground border border-primary-border hover:bg-primary/90",
        ButtonVariant::Outline => "bg-white border border-slate-200 text-slate-900 hover:bg-slate-50",
        ButtonVariant::OutlineSuccess => "bg-white border border-emerald-500/50 text-emerald-700 hover:bg-emerald-50",
        ButtonVariant::Transparent => "bg-transparent text-white border border-white/20 hover:bg-white/10",
    }
}

/// Shadow classes of a decoration; empty for none.
pub open spec fn button_decoration_classes(d: Decoration) -> &'static str {
    match d {
        Decoration::Plain => "",
        Decoration::SoftShadow => "shadow-lg shadow-primary/20 hover:shadow-xl",
    }
}

fn base_classes() -> (r: &'static str)
    ensures
        r == button_base_classes(),
{
    "inline-flex items-center justify-center gap-2 whitespace-nowrap font-medium focus-visible:outline-none focus-visible:ring-2 focus-visible:ring-ring focus-visible:ring-offset-2 disabled:pointer-events-none disabled:opacity-50 transition-colors"
}

fn size_classes(s: ButtonSize) -> (r: &'static str)
    ensures
        r == button_size_classes(s),
{
    match s {
        ButtonSize::Sm => "h-8 px-3 text-xs rounded-md",
        ButtonSize::Md => "h-10 px-4 text-sm rounded-md",
        ButtonSize::Lg => "h-12 px-8 py-6 text-lg rounded-xl",
    }
}

fn variant_classes(v: ButtonVariant) -> (r: &'static str)
    ensures
        r == button_variant_classes(v),
{
    match v {
        ButtonVariant::Primary => "bg-primary text-primary-foreground border border-primary-border hover:bg-primary/90",
        ButtonVariant::Outline => "bg-white border border-slate-200 text-slate-900 hover:bg-slate-50",
        ButtonVariant::OutlineSuccess => "bg-white border border-emerald-500/50 text-emerald-700 hover:bg-emerald-50",
        ButtonVariant::Transparent => "bg-transparent text-white border border-white/20 hover:bg-white/10",
    }
}

fn decoration_classes(d: Decoration) -> (r: &'static str)
    ensures
        r == button_decoration_classes(d),
{
    match d {
        Decoration::Plain => "",
        Decoration::SoftShadow => "shadow-lg shadow-primary/20 hover:shadow-xl",
    }
}

/// The class string of a button: base, size, variant and decoration
/// joined by spaces, then trimmed.
pub open spec fn button_class(size: ButtonSize, variant: ButtonVariant, deco: Decoration) -> Seq<
    char,
> {
    trim(
        button_base_classes()@ + " "@ + button_size_classes(size)@ + " "@ + button_variant_classes(
            variant,
        )@ + " "@ + button_decoration_classes(deco)@,
    )
}

/// The icon markup emitted at `pos`: the SVG when the icon sits there.
pub open spec fn icon_at(icon: Option<(&str, IconPosition)>, pos: IconPosition) -> Seq<char> {
    match icon {
        Some((svg, p)) => if p == pos {
            svg@
        } else {
            Seq::empty()
        },
        None => Seq::empty(),
    }
}

impl<'a> Button<'a> {
    /// Convenience constructor — no aria override, no icon, no
    /// decoration, `type="button"`.
    pub fn new(label: &'a str, variant: ButtonVariant, size: ButtonSize) -> (r: Self)
        ensures
            r.label == label,
            r.variant == variant,
            r.size == size,
            r.aria_label is None,
            r.icon is None,
            r.decoration == Decoration::Plain,
            r.button_type == ButtonType::Button,
    {
        Button {
            label,
            variant,
            size,
            aria_label: None,
            icon: None,
            decoration: Decoration::Plain,
            button_type: ButtonType::Button,
        }
    }

    /// The accessible name: the override, else the label.
    pub open spec fn aria(self) -> Seq<char> {
        match self.aria_label {
            Some(a) => a@,
            None => self.label@,
        }
    }

    /// The markup of a button: `<button type class aria-label>`, the
    /// icon before, the escaped label, the icon after.
    pub open spec fn html(self) -> Seq<char> {
        "<button"@ + attr("type"@, button_type_str(self.button_type)@) + attr(
            "class"@,
            button_class(self.size, self.variant, self.decoration),
        ) + attr("aria-label"@, self.aria()) + ">"@ + icon_at(self.icon, IconPosition::Before)
            + html_escape(self.label@) + icon_at(self.icon, IconPosition::After) + "</button>"@
    }

    /// Render as `<button>` with the configured `type` attribute.
    pub fn render(&self) -> (r: String)
        ensures
            r@ == self.html(),
    {
        let aria = match self.aria_label {
            Some(a) => a,
            None => self.label,
        };
        let mut class = String::new();
        push_str(&mut class, base_classes());
        push_str(&mut class, " ");
        push_str(&mut class, size_classes(self.size));
        push_str(&mut class, " ");
        push_str(&mut class, variant_classes(self.variant));
        push_str(&mut class, " ");
        push_str(&mut class, decoration_classes(self.decoration));
        let class = trimmed(class.as_str());
        let mut out = String::new();
        push_str(&mut out, "<button");
        push_attr(&mut out, "type", self.button_type.as_str());
        push_attr(&mut out, "class", class.as_str());
        push_attr(&mut out, "aria-label", aria);
        push_str(&mut out, ">");
        let ghost mid = out@;
        if let Some((svg, IconPosition::Before)) = self.icon {
            push_str(&mut out, svg);
        }
        assert(out@ == mid + icon_at(self.icon, IconPosition::Before));
        push_escaped(&mut out, self.label);
        let ghost mid2 = out@;
        if let Some((svg, IconPosition::After)) = self.icon {
            push_str(&mut out, svg);
        }
        assert(out@ == mid2 + icon_at(self.icon, IconPosition::After));
        push_str(&mut out, "</button>");
        assert(out@ =~= self.html());
        out
    }
}

} // verus!
