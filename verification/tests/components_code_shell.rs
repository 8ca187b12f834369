use loom::components::code_shell::{CodeShell, CodeShellChrome, CodeShellLine, CodeShellLineKind, CodeShellTone};
fn lines() -> &'static [CodeShellLine<'static>] {
    &[
        CodeShellLine {
            kind: CodeShellLineKind::Command,
            text: "forge build --json",
        },
        CodeShellLine {
            kind: CodeShellLineKind::Output,
            text: "discipline-strict: 0 findings",
        },
        CodeShellLine {
            kind: CodeShellLineKind::Comment,
            text: "all phases clean.",
        },
    ]
}

#[test]
fn renders_semantic_pre_code() {
    let s = CodeShell {
        title: None,
        prompt: None,
        lines: lines(),
        tone: CodeShellTone::Slate,
        chrome: CodeShellChrome::Minimal,
    }
    .render();
    assert!(s.contains("<pre"));
    assert!(s.contains("<code"));
    assert!(s.contains("font-mono"));
}

#[test]
fn command_line_gets_prompt_prefix() {
    let s = CodeShell {
        title: None,
        prompt: None,
        lines: lines(),
        tone: CodeShellTone::Slate,
        chrome: CodeShellChrome::Minimal,
    }
    .render();
    assert!(s.contains(">$ <"));
    assert!(s.contains(">forge build --json<"));
}

#[test]
fn custom_prompt_replaces_default() {
    let s = CodeShell {
        title: None,
        prompt: Some("›"),
        lines: &[CodeShellLine {
            kind: CodeShellLineKind::Command,
            text: "ls",
        }],
        tone: CodeShellTone::Slate,
        chrome: CodeShellChrome::Minimal,
    }
    .render();
    assert!(s.contains(">› <"));
    assert!(!s.contains(">$ <"));
}

#[test]
fn output_line_indented() {
    let s = CodeShell {
        title: None,
        prompt: None,
        lines: &[CodeShellLine {
            kind: CodeShellLineKind::Output,
            text: "hello world",
        }],
        tone: CodeShellTone::Slate,
        chrome: CodeShellChrome::Minimal,
    }
    .render();
    assert!(s.contains("pl-4"));
    assert!(s.contains(">hello world<"));
}

#[test]
fn comment_line_dimmed_italic_with_hash_prefix() {
    let s = CodeShell {
        title: None,
        prompt: None,
        lines: &[CodeShellLine {
            kind: CodeShellLineKind::Comment,
            text: "all phases clean.",
        }],
        tone: CodeShellTone::Slate,
        chrome: CodeShellChrome::Minimal,
    }
    .render();
    assert!(s.contains("italic"));
    assert!(s.contains("text-slate-500"));
    assert!(s.contains("# all phases clean."));
}

#[test]
fn error_line_takes_warn_color() {
    let s = CodeShell {
        title: None,
        prompt: None,
        lines: &[CodeShellLine {
            kind: CodeShellLineKind::Error,
            text: "error: build failed",
        }],
        tone: CodeShellTone::Slate,
        chrome: CodeShellChrome::Minimal,
    }
    .render();
    assert!(s.contains("text-red-700"));
    assert!(s.contains(">error: build failed<"));
}

#[test]
fn header_chrome_renders_title_when_present() {
    let s = CodeShell {
        title: Some("forge build"),
        prompt: None,
        lines: lines(),
        tone: CodeShellTone::Slate,
        chrome: CodeShellChrome::Header,
    }
    .render();
    assert!(s.contains(">forge build<"));
    // Header gets monospace uppercase tracked treatment.
    assert!(s.contains("font-mono uppercase tracking-widest"));
}

#[test]
fn header_chrome_collapses_when_title_none() {
    let s = CodeShell {
        title: None,
        prompt: None,
        lines: lines(),
        tone: CodeShellTone::Slate,
        chrome: CodeShellChrome::Header,
    }
    .render();
    // No header div should be emitted at all.
    assert!(!s.contains("uppercase tracking-widest"));
}

#[test]
fn minimal_chrome_omits_header_even_with_title() {
    let s = CodeShell {
        title: Some("would-be-header"),
        prompt: None,
        lines: lines(),
        tone: CodeShellTone::Slate,
        chrome: CodeShellChrome::Minimal,
    }
    .render();
    assert!(!s.contains(">would-be-header<"));
}

#[test]
fn amoled_tone_uses_true_black_surface() {
    let s = CodeShell {
        title: Some("h"),
        prompt: None,
        lines: lines(),
        tone: CodeShellTone::Amoled,
        chrome: CodeShellChrome::Header,
    }
    .render();
    assert!(s.contains("bg-black"));
    assert!(s.contains("text-slate-100"));
    // Error red shifts brighter on dark background.
    let with_error = CodeShell {
        title: None,
        prompt: None,
        lines: &[CodeShellLine {
            kind: CodeShellLineKind::Error,
            text: "x",
        }],
        tone: CodeShellTone::Amoled,
        chrome: CodeShellChrome::Minimal,
    }
    .render();
    assert!(with_error.contains("text-red-400"));
    assert!(!with_error.contains("text-red-700"));
}

#[test]
fn code_shell_no_saas_trope_ornaments() {
    // The shape guarantee that distinguishes this primitive from
    // the design-mock-up shell aesthetic: no fake traffic-light
    // circles, no gradient header bar, no copy-button decoration.
    let s = CodeShell {
        title: Some("h"),
        prompt: None,
        lines: lines(),
        tone: CodeShellTone::Slate,
        chrome: CodeShellChrome::Header,
    }
    .render();
    // No traffic-light triplet: red+yellow+green rounded-full
    // glyphs commonly appear together in mock-up shells.
    assert!(!s.contains("rounded-full"));
    // No gradient header.
    assert!(!s.contains("linear-gradient"));
    assert!(!s.contains("bg-gradient"));
    // No animation classes.
    assert!(!s.contains("animate-"));
    // No shadow ornaments.
    assert!(!s.contains("shadow-"));
    // No copy-button data attribute / role.
    assert!(!s.contains("data-copy"));
    assert!(!s.contains("aria-label=\"Copy"));
}

#[test]
fn full_transcript_renders_in_order() {
    let s = CodeShell {
        title: Some("audit"),
        prompt: None,
        lines: lines(),
        tone: CodeShellTone::Slate,
        chrome: CodeShellChrome::Header,
    }
    .render();
    let cmd_idx = s.find("forge build --json").expect("cmd");
    let out_idx = s.find("discipline-strict").expect("out");
    let comment_idx = s.find("all phases clean").expect("comment");
    assert!(cmd_idx < out_idx);
    assert!(out_idx < comment_idx);
}

#[test]
fn prompt_glyph_marked_unselectable() {
    // The prompt prefix should be marked `select-none` so users
    // copying the transcript get the command WITHOUT the prompt.
    let s = CodeShell {
        title: None,
        prompt: None,
        lines: &[CodeShellLine {
            kind: CodeShellLineKind::Command,
            text: "ls",
        }],
        tone: CodeShellTone::Slate,
        chrome: CodeShellChrome::Minimal,
    }
    .render();
    assert!(s.contains("select-none"));
}

#[test]
fn empty_lines_renders_clean() {
    let s = CodeShell {
        title: None,
        prompt: None,
        lines: &[],
        tone: CodeShellTone::Slate,
        chrome: CodeShellChrome::Minimal,
    }
    .render();
    // Still emits the wrapper shell, just empty.
    assert!(s.contains("<pre"));
    assert!(s.contains("</pre>"));
}
