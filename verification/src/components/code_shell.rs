//! Typed `CodeShell` primitive — a terminal-style transcript rendered as
//! semantic `<pre><code>`, with per-line roles and no decorative chrome.

use vstd::prelude::*;
use crate::text::{attr, html_escape, push_attr, push_escaped, push_str};

verus! {

/// Colour tone for the shell surface and ink.
#[derive(Debug, Clone, Copy, PartialEq, Eq, Structural)]
pub enum CodeShellTone {
    /// Slate-900 ink on a slate-50 surface.
    Slate,
    /// Slate-100 ink on a true-black surface.
    Amoled,
}

/// Chrome around the code block.
#[derive(Debug, Clone, Copy, PartialEq, Eq, Structural)]
pub enum CodeShellChrome {
    /// No header — the block framed by a single border.
    Minimal,
    /// Text-only header with the shell name or filename.
    Header,
}

/// Semantic role of one transcript line.
#[derive(Debug, Clone, Copy, PartialEq, Eq, Structural)]
pub enum CodeShellLineKind {
    /// Typed command, shown after the prompt.
    Command,
    /// Program output, indented to the command text.
    Output,
    /// Author annotation, dimmed, italic, after `# `.
    Comment,
    /// Error line in the error colour.
    Error,
}

/// One line of the transcript.
#[derive(Debug, Clone, Copy)]
pub struct CodeShellLine<'a> {
    /// Line role.
    pub kind: CodeShellLineKind,
    /// Line text, escaped on output.
    pub text: &'a str,
}

/// Terminal-style code block.
pub struct CodeShell<'a> {
    /// Header title; shown only with [`CodeShellChrome::Header`].
    pub title: Option<&'a str>,
    /// Prompt prefix for commands; `None` is `$`.
    pub prompt: Option<&'a str>,
    /// Transcript lines in order.
    pub lines: &'a [CodeShellLine<'a>],
    /// Colour tone.
    pub tone: CodeShellTone,
    /// Chrome treatment.
    pub chrome: CodeShellChrome,
}

/// Colours of a tone: surface, border, header surface, header ink, then
/// the command, output, comment and error inks.
pub struct ShellPalette {
    /// Block surface.
    pub surface: &'static str,
    /// Border colour.
    pub border: &'static str,
    /// Header surface.
    pub header_surface: &'static str,
    /// Header ink.
    pub header_color: &'static str,
    /// Command ink.
    pub command_color: &'static str,
    /// Output ink.
    pub output_color: &'static str,
    /// Comment ink.
    pub comment_color: &'static str,
    /// Error ink.
    pub error_color: &'static str,
}

/// The palette of a tone.
pub open spec fn shell_palette(tone: CodeShellTone) -> ShellPalette {
    match tone {
        CodeShellTone::Slate => ShellPalette {
            surface: "bg-slate-50",
            border: "border-slate-200",
            header_surface: "bg-slate-100",
            header_color: "text-slate-600",
            command_color: "text-slate-900",
            output_color: "text-slate-700",
            comment_color: "text-slate-500",
            error_color: "text-red-700",
        },
        CodeShellTone::Amoled => ShellPalette {
            surface: "bg-black",
            border: "border-slate-800",
            header_surface: "bg-slate-900",
            header_color: "text-slate-300",
            command_color: "text-slate-100",
            output_color: "text-slate-300",
            comment_color: "text-slate-500",
            error_color: "text-red-400",
        },
    }
}

fn palette(tone: CodeShellTone) -> (r: ShellPalette)
    ensures
        r == shell_palette(tone),
{
    match tone {
        CodeShellTone::Slate => ShellPalette {
            surface: "bg-slate-50",
            border: "border-slate-200",
            header_surface: "bg-slate-100",
            header_color: "text-slate-600",
            command_color: "text-slate-900",
            output_color: "text-slate-700",
            comment_color: "text-slate-500",
            error_color: "text-red-700",
        },
        CodeShellTone::Amoled => ShellPalette {
            surface: "bg-black",
            border: "border-slate-800",
            header_surface: "bg-slate-900",
            header_color: "text-slate-300",
            command_color: "text-slate-100",
            output_color: "text-slate-300",
            comment_color: "text-slate-500",
            error_color: "text-red-400",
        },
    }
}

/// The markup of one line: a block `<span>` in its role's ink, followed
/// by a newline.
pub open spec fn line_html(line: CodeShellLine, prompt: Seq<char>, p: ShellPalette) -> Seq<char> {
    match line.kind {
        CodeShellLineKind::Command => "<span"@ + attr("class"@, "block "@ + p.command_color@)
            + ">"@ + "<span class=\"opacity-60 select-none\">"@ + html_escape(prompt) + " "@
            + "</span>"@ + html_escape(line.text@) + "</span>"@ + "\n"@,
        CodeShellLineKind::Output => "<span"@ + attr(
            "class"@,
            "block "@ + p.output_color@ + " pl-4"@,
        ) + ">"@ + html_escape(line.text@) + "</span>"@ + "\n"@,
        CodeShellLineKind::Comment => "<span"@ + attr(
            "class"@,
            "block italic "@ + p.comment_color@,
        ) + ">"@ + "# "@ + html_escape(line.text@) + "</span>"@ + "\n"@,
        CodeShellLineKind::Error => "<span"@ + attr("class"@, "block "@ + p.error_color@ + " pl-4"@)
            + ">"@ + html_escape(line.text@) + "</span>"@ + "\n"@,
    }
}

/// The markup of a run of lines, in order.
pub open spec fn lines_html(lines: Seq<CodeShellLine>, prompt: Seq<char>, p: ShellPalette) -> Seq<
    char,
>
    decreases lines.len(),
{
    if lines.len() == 0 {
        Seq::empty()
    } else {
        lines_html(lines.drop_last(), prompt, p) + line_html(lines.last(), prompt, p)
    }
}

fn render_line(out: &mut String, line: &CodeShellLine, prompt: &str, p: &ShellPalette)
    ensures
        final(out)@ == old(out)@ + line_html(*line, prompt@, *p),
{
    let ghost start = out@;
    let mut cls = String::new();
    match line.kind {
        CodeShellLineKind::Command => {
            push_str(&mut cls, "block ");
            push_str(&mut cls, p.command_color);
            push_str(out, "<span");
            push_attr(out, "class", cls.as_str());
            push_str(out, ">");
            push_str(out, "<span class=\"opacity-60 select-none\">");
            push_escaped(out, prompt);
            push_str(out, " ");
            push_str(out, "</span>");
            push_escaped(out, line.text);
        },
        CodeShellLineKind::Output => {
            push_str(&mut cls, "block ");
            push_str(&mut cls, p.output_color);
            push_str(&mut cls, " pl-4");
            push_str(out, "<span");
            push_attr(out, "class", cls.as_str());
            push_str(out, ">");
            push_escaped(out, line.text);
        },
        CodeShellLineKind::Comment => {
            push_str(&mut cls, "block italic ");
            push_str(&mut cls, p.comment_color);
            push_str(out, "<span");
            push_attr(out, "class", cls.as_str());
            push_str(out, ">");
            push_str(out, "# ");
            push_escaped(out, line.text);
        },
        CodeShellLineKind::Error => {
            push_str(&mut cls, "block ");
            push_str(&mut cls, p.error_color);
            push_str(&mut cls, " pl-4");
            push_str(out, "<span");
            push_attr(out, "class", cls.as_str());
            push_str(out, ">");
            push_escaped(out, line.text);
        },
    }
    push_str(out, "</span>");
    push_str(out, "\n");
    assert(out@ =~= start + line_html(*line, prompt@, *p));
}

impl<'a> CodeShell<'a> {
    /// The prompt in use: the configured one, else `$`.
    pub open spec fn prompt_text(self) -> Seq<char> {
        match self.prompt {
            Some(p) => p@,
            None => "$"@,
        }
    }

    /// The markup of the shell: the outer frame, the header when the
    /// chrome asks for one and a title is set, then `<pre><code>` around
    /// the lines.
    pub open spec fn html(self) -> Seq<char> {
        let p = shell_palette(self.tone);
        "<div"@ + attr("class"@, "border "@ + p.border@ + " "@ + p.surface@ + " overflow-hidden"@)
            + ">"@ + match (self.chrome, self.title) {
            (CodeShellChrome::Header, Some(title)) => "<div"@ + attr(
                "class"@,
                "px-4 py-2 text-xs font-mono uppercase tracking-widest border-b "@ + p.border@
                    + " "@ + p.header_surface@ + " "@ + p.header_color@,
            ) + ">"@ + html_escape(title@) + "</div>"@,
            _ => Seq::empty(),
        } + "<pre"@ + attr("class"@, "p-4 overflow-x-auto text-sm leading-relaxed"@) + ">"@
            + "<code class=\"font-mono\">"@ + lines_html(self.lines@, self.prompt_text(), p)
            + "</code>"@ + "</pre>"@ + "</div>"@
    }

    /// Render as `<pre><code>` framed by the configured chrome.
    pub fn render(&self) -> (r: String)
        ensures
            r@ == self.html(),
    {
        let prompt = match self.prompt {
            Some(p) => p,
            None => "$",
        };
        let p = palette(self.tone);
        let mut outer = String::new();
        push_str(&mut outer, "border ");
        push_str(&mut outer, p.border);
        push_str(&mut outer, " ");
        push_str(&mut outer, p.surface);
        push_str(&mut outer, " overflow-hidden");
        let mut out = String::new();
        push_str(&mut out, "<div");
        push_attr(&mut out, "class", outer.as_str());
        push_str(&mut out, ">");
        let ghost before_header = out@;
        let show_header = match self.chrome {
            CodeShellChrome::Header => self.title.is_some(),
            CodeShellChrome::Minimal => false,
        };
        if show_header {
            if let Some(title) = self.title {
                let mut header_class = String::new();
                push_str(
                    &mut header_class,
                    "px-4 py-2 text-xs font-mono uppercase tracking-widest border-b ",
                );
                push_str(&mut header_class, p.border);
                push_str(&mut header_class, " ");
                push_str(&mut header_class, p.header_surface);
                push_str(&mut header_class, " ");
                push_str(&mut header_class, p.header_color);
                push_str(&mut out, "<div");
                push_attr(&mut out, "class", header_class.as_str());
                push_str(&mut out, ">");
                push_escaped(&mut out, title);
                push_str(&mut out, "</div>");
            }
        }
        let ghost after_header = out@;
        push_str(&mut out, "<pre");
        push_attr(&mut out, "class", "p-4 overflow-x-auto text-sm leading-relaxed");
        push_str(&mut out, ">");
        push_str(&mut out, "<code class=\"font-mono\">");
        let ghost before_lines = out@;
        let mut i: usize = 0;
        while i < self.lines.len()
            invariant
                i <= self.lines@.len(),
                prompt@ == self.prompt_text(),
                p == shell_palette(self.tone),
                out@ == before_lines + lines_html(self.lines@.take(i as int), prompt@, p),
            decreases self.lines.len() - i,
        {
            render_line(&mut out, &self.lines[i], prompt, &p);
            assert(self.lines@.take(i + 1).drop_last() =~= self.lines@.take(i as int));
            i = i + 1;
        }
        assert(self.lines@.take(i as int) =~= self.lines@);
        push_str(&mut out, "</code>");
        push_str(&mut out, "</pre>");
        push_str(&mut out, "</div>");
        assert(out@ =~= self.html());
        out
    }
}

} // verus!
