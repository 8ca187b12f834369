//! Typed form controls — [`TextInput`], [`TextArea`] and [`Select`] —
//! each bound to a visible `<label for=…>` by construction.

use vstd::prelude::*;
use crate::text::{attr, decimal, html_escape, push_attr, push_decimal, push_escaped, push_str};

verus! {

/// Visual chrome of a control.
#[derive(Debug, Clone, Copy, PartialEq, Eq, Structural)]
pub enum FormStyle {
    /// Rounded pill input on a slate-50 surface — the default.
    Rounded,
    /// Flat input: bottom border only, transparent surface.
    Editorial,
    /// No visible resting border, an underline on focus.
    Minimal,
}

impl Default for FormStyle {
    /// Rounded.
    fn default() -> (r: Self)
        ensures
            r == FormStyle::Rounded,
    {
        FormStyle::Rounded
    }
}

/// Vertical density of a single-line control.
#[derive(Debug, Clone, Copy, PartialEq, Eq, Structural)]
pub enum FormDensity {
    /// `h-9`.
    Compact,
    /// `h-12` — the default.
    Comfortable,
}

impl Default for FormDensity {
    /// Comfortable.
    fn default() -> (r: Self)
        ensures
            r == FormDensity::Comfortable,
    {
        FormDensity::Comfortable
    }
}

/// HTML5 input `type` — a closed set.
#[derive(Debug, Clone, Copy, PartialEq, Eq, Structural)]
pub enum InputType {
    /// Plain text.
    Text,
    /// Email address.
    Email,
    /// Telephone number.
    Tel,
    /// URL.
    Url,
}

/// The `type` value of an input type.
pub open spec fn input_type_str(t: InputType) -> &'static str {
    match t {
        InputType::Text => "text",
        InputType::Email => "email",
        InputType::Tel => "tel",
        InputType::Url => "url",
    }
}

impl InputType {
    /// The `type` attribute value.
    pub fn html(self) -> (r: &'static str)
        ensures
            r == input_type_str(self),
    {
        match self {
            InputType::Text => "text",
            InputType::Email => "email",
            InputType::Tel => "tel",
            InputType::Url => "url",
        }
    }
}

/// Classes of the visible label.
pub open spec fn label_classes() -> &'static str {
    "text-sm font-medium leading-none"
}

/// Chrome classes of a style.
pub open spec fn form_style_classes(style: FormStyle) -> &'static str {
    match style {
        FormStyle::Rounded => " rounded-md border-input bg-slate-50 px-3 py-2",
        FormStyle::Editorial => " rounded-none border-0 border-b border-slate-300 bg-transparent px-1 py-2",
        FormStyle::Minimal => " rounded-none border-0 border-b border-transparent bg-transparent px-1 py-2 focus-visible:border-slate-400",
    }
}

/// Height classes: a fixed minimum for multi-line controls, the density
/// step otherwise.
pub open spec fn form_height_classes(density: FormDensity, multiline: bool) -> &'static str {
    if multiline {
        " min-h-[150px] resize-none"
    } else {
        match density {
            FormDensity::Compact => " h-9",
            FormDensity::Comfortable => " h-12",
        }
    }
}

/// The class string of a control.
pub open spec fn input_class(style: FormStyle, density: FormDensity, multiline: bool) -> Seq<char> {
    "flex w-full border "@
        + "focus-visible:outline-none focus-visible:ring-2 focus-visible:ring-ring focus-visible:ring-offset-2 ring-offset-background text-base md:text-sm"@
        + form_style_classes(style)@ + form_height_classes(density, multiline)@
}

/// `data-loom-form-style` value of a style.
pub open spec fn form_style_attr_spec(style: FormStyle) -> &'static str {
    match style {
        FormStyle::Rounded => "rounded",
        FormStyle::Editorial => "editorial",
        FormStyle::Minimal => "minimal",
    }
}

fn input_classes(style: FormStyle, density: FormDensity, multiline: bool) -> (r: String)
    ensures
        r@ == input_class(style, density, multiline),
{
    let mut out = String::new();
    push_str(&mut out, "flex w-full border ");
    push_str(
        &mut out,
        "focus-visible:outline-none focus-visible:ring-2 focus-visible:ring-ring focus-visible:ring-offset-2 ring-offset-background text-base md:text-sm",
    );
    match style {
        FormStyle::Rounded => push_str(&mut out, " rounded-md border-input bg-slate-50 px-3 py-2"),
        FormStyle::Editorial => push_str(
            &mut out,
            " rounded-none border-0 border-b border-slate-300 bg-transparent px-1 py-2",
        ),
        FormStyle::Minimal => push_str(
            &mut out,
            " rounded-none border-0 border-b border-transparent bg-transparent px-1 py-2 focus-visible:border-slate-400",
        ),
    }
    if multiline {
        push_str(&mut out, " min-h-[150px] resize-none");
    } else {
        match density {
            FormDensity::Compact => push_str(&mut out, " h-9"),
            FormDensity::Comfortable => push_str(&mut out, " h-12"),
        }
    }
    assert(out@ =~= input_class(style, density, multiline));
    out
}

fn form_style_attr(style: FormStyle) -> (r: &'static str)
    ensures
        r == form_style_attr_spec(style),
{
    match style {
        FormStyle::Rounded => "rounded",
        FormStyle::Editorial => "editorial",
        FormStyle::Minimal => "minimal",
    }
}

/// The opening of every control: the wrapper `<div>` and the bound label.
pub open spec fn field_open(style: FormStyle, id: Seq<char>, label: Seq<char>) -> Seq<char> {
    "<div class=\"space-y-2\""@ + attr("data-loom-form-style"@, form_style_attr_spec(style)@) + ">"@
        + "<label"@ + attr("class"@, label_classes()@) + attr("for"@, id) + ">"@ + html_escape(label)
        + "</label>"@
}

fn push_field_open(out: &mut String, style: FormStyle, id: &str, label: &str)
    ensures
        final(out)@ == old(out)@ + field_open(style, id@, label@),
{
    let ghost start = out@;
    push_str(out, "<div class=\"space-y-2\"");
    push_attr(out, "data-loom-form-style", form_style_attr(style));
    push_str(out, ">");
    push_str(out, "<label");
    push_attr(out, "class", "text-sm font-medium leading-none");
    push_attr(out, "for", id);
    push_str(out, ">");
    push_escaped(out, label);
    push_str(out, "</label>");
    assert(out@ =~= start + field_open(style, id@, label@));
}

/// The optional `placeholder`, `maxlength` and `required` attributes.
pub open spec fn optional_attrs(placeholder: Option<&str>, max_length: Option<usize>, required: bool) -> Seq<
    char,
> {
    (match placeholder {
        Some(p) => attr("placeholder"@, p@),
        None => Seq::empty(),
    }) + (match max_length {
        Some(n) => attr("maxlength"@, decimal(n as nat)),
        None => Seq::empty(),
    }) + (if required {
        " required"@
    } else {
        Seq::empty()
    })
}

fn push_optional_attrs(
    out: &mut String,
    placeholder: Option<&str>,
    max_length: Option<usize>,
    required: bool,
)
    ensures
        final(out)@ == old(out)@ + optional_attrs(placeholder, max_length, required),
{
    let ghost start = out@;
    if let Some(p) = placeholder {
        push_attr(out, "placeholder", p);
    }
    let ghost a = out@;
    if let Some(n) = max_length {
        let mut digits = String::new();
        push_decimal(&mut digits, n as u64);
        assert(digits@ == decimal(n as nat));
        push_attr(out, "maxlength", digits.as_str());
    }
    let ghost b = out@;
    if required {
        push_str(out, " required");
    }
    assert(out@ =~= start + optional_attrs(placeholder, max_length, required));
}

/// Single-line text input with a bound visible label.
pub struct TextInput<'a> {
    /// Page-unique id, shared by the input and the label's `for`.
    pub id: &'a str,
    /// Form field name (the POST key).
    pub name: &'a str,
    /// Visible label text.
    pub label: &'a str,
    /// HTML5 input type.
    pub input_type: InputType,
    /// Placeholder hint.
    pub placeholder: Option<&'a str>,
    /// Advisory HTML5 `maxlength`.
    pub max_length: Option<usize>,
    /// `required` attribute.
    pub required: bool,
    /// Visual chrome.
    pub style: FormStyle,
    /// Vertical density.
    pub density: FormDensity,
}

impl<'a> TextInput<'a> {
    /// The markup: wrapper, bound label, void `<input>`.
    pub open spec fn html(self) -> Seq<char> {
        field_open(self.style, self.id@, self.label@) + "<input"@ + attr(
            "type"@,
            input_type_str(self.input_type)@,
        ) + attr("id"@, self.id@) + attr("name"@, self.name@) + attr(
            "class"@,
            input_class(self.style, self.density, false),
        ) + optional_attrs(self.placeholder, self.max_length, self.required) + ">"@ + "</div>"@
    }

    /// Render the label + input pair.
    pub fn render(&self) -> (r: String)
        ensures
            r@ == self.html(),
    {
        let class = input_classes(self.style, self.density, false);
        let mut out = String::new();
        push_field_open(&mut out, self.style, self.id, self.label);
        push_str(&mut out, "<input");
        push_attr(&mut out, "type", self.input_type.html());
        push_attr(&mut out, "id", self.id);
        push_attr(&mut out, "name", self.name);
        push_attr(&mut out, "class", class.as_str());
        push_optional_attrs(&mut out, self.placeholder, self.max_length, self.required);
        push_str(&mut out, ">");
        push_str(&mut out, "</div>");
        assert(out@ =~= self.html());
        out
    }
}

/// Multi-line textarea with a bound visible label.
pub struct TextArea<'a> {
    /// Page-unique id.
    pub id: &'a str,
    /// Form field name.
    pub name: &'a str,
    /// Visible label text.
    pub label: &'a str,
    /// Placeholder hint.
    pub placeholder: Option<&'a str>,
    /// Advisory HTML5 `maxlength`.
    pub max_length: Option<usize>,
    /// `required` attribute.
    pub required: bool,
    /// Visual chrome.
    pub style: FormStyle,
    /// Density; a textarea always takes the multi-line height.
    pub density: FormDensity,
}

impl<'a> TextArea<'a> {
    /// The markup: wrapper, bound label, empty `<textarea>`.
    pub open spec fn html(self) -> Seq<char> {
        field_open(self.style, self.id@, self.label@) + "<textarea"@ + attr("id"@, self.id@) + attr(
            "name"@,
            self.name@,
        ) + attr("class"@, input_class(self.style, self.density, true)) + optional_attrs(
            self.placeholder,
            self.max_length,
            self.required,
        ) + ">"@ + "</textarea>"@ + "</div>"@
    }

    /// Render the label + textarea pair.
    pub fn render(&self) -> (r: String)
        ensures
            r@ == self.html(),
    {
        let class = input_classes(self.style, self.density, true);
        let mut out = String::new();
        push_field_open(&mut out, self.style, self.id, self.label);
        push_str(&mut out, "<textarea");
        push_attr(&mut out, "id", self.id);
        push_attr(&mut out, "name", self.name);
        push_attr(&mut out, "class", class.as_str());
        push_optional_attrs(&mut out, self.placeholder, self.max_length, self.required);
        push_str(&mut out, ">");
        push_str(&mut out, "</textarea>");
        push_str(&mut out, "</div>");
        assert(out@ =~= self.html());
        out
    }
}

/// One option of a `<select>`.
pub struct SelectOption<'a> {
    /// Submitted value.
    pub value: &'a str,
    /// Visible option text.
    pub label: &'a str,
}

/// `<select>` with a bound visible label.
pub struct Select<'a> {
    /// Page-unique id.
    pub id: &'a str,
    /// Form field name.
    pub name: &'a str,
    /// Visible label text.
    pub label: &'a str,
    /// Options, in order.
    pub options: &'a [SelectOption<'a>],
    /// Visual chrome.
    pub style: FormStyle,
    /// Vertical density.
    pub density: FormDensity,
}

/// The markup of one option.
pub open spec fn option_html(opt: SelectOption) -> Seq<char> {
    "<option"@ + attr("value"@, opt.value@) + ">"@ + html_escape(opt.label@) + "</option>"@
}

/// The options, in order.
pub open spec fn options_html(opts: Seq<SelectOption>) -> Seq<char>
    decreases opts.len(),
{
    if opts.len() == 0 {
        Seq::empty()
    } else {
        options_html(opts.drop_last()) + option_html(opts.last())
    }
}

impl<'a> Select<'a> {
    /// The markup: wrapper, bound label, `<select>` with its options.
    pub open spec fn html(self) -> Seq<char> {
        field_open(self.style, self.id@, self.label@) + "<select"@ + attr("id"@, self.id@) + attr(
            "name"@,
            self.name@,
        ) + attr("class"@, input_class(self.style, self.density, false)) + ">"@ + options_html(
            self.options@,
        ) + "</select>"@ + "</div>"@
    }

    /// Render the label + select pair.
    pub fn render(&self) -> (r: String)
        ensures
            r@ == self.html(),
    {
        let class = input_classes(self.style, self.density, false);
        let mut out = String::new();
        push_field_open(&mut out, self.style, self.id, self.label);
        push_str(&mut out, "<select");
        push_attr(&mut out, "id", self.id);
        push_attr(&mut out, "name", self.name);
        push_attr(&mut out, "class", class.as_str());
        push_str(&mut out, ">");
        let ghost before = out@;
        let mut i: usize = 0;
        while i < self.options.len()
            invariant
                i <= self.options@.len(),
                out@ == before + options_html(self.options@.take(i as int)),
            decreases self.options.len() - i,
        {
            let opt = &self.options[i];
            let ghost b = out@;
            push_str(&mut out, "<option");
            push_attr(&mut out, "value", opt.value);
            push_str(&mut out, ">");
            push_escaped(&mut out, opt.label);
            push_str(&mut out, "</option>");
            assert(out@ =~= b + option_html(*opt));
            assert(self.options@.take(i + 1).drop_last() =~= self.options@.take(i as int));
            i = i + 1;
        }
        assert(self.options@.take(i as int) =~= self.options@);
        push_str(&mut out, "</select>");
        push_str(&mut out, "</div>");
        assert(out@ =~= self.html());
        out
    }
}

} // verus!
