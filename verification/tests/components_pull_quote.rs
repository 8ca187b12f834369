use loom::components::pull_quote::{PullQuote, PullQuoteEmphasis, PullQuoteTone};
#[test]
fn renders_body_and_attribution() {
    let s = PullQuote {
        body: "The substrate cannot ship a hero centered on a single line of marketing copy and call that an answer.",
        attribution: Some("paul, 2026-05-20"),
        cite_url: None,
        emphasis: PullQuoteEmphasis::Display,
        tone: PullQuoteTone::Slate,
    }
    .render();
    assert!(s.contains("<blockquote"));
    assert!(s.contains(">The substrate cannot ship"));
    assert!(s.contains(">— paul, 2026-05-20<"));
    assert!(s.contains("<footer"));
}

#[test]
fn omits_footer_when_no_attribution() {
    let s = PullQuote {
        body: "x",
        attribution: None,
        cite_url: None,
        emphasis: PullQuoteEmphasis::Inline,
        tone: PullQuoteTone::Slate,
    }
    .render();
    assert!(!s.contains("<footer"));
    assert!(!s.contains("— "));
}

#[test]
fn cite_url_emits_cite_attribute() {
    let s = PullQuote {
        body: "x",
        attribution: Some("a"),
        cite_url: Some("https://example.org/source"),
        emphasis: PullQuoteEmphasis::Inline,
        tone: PullQuoteTone::Slate,
    }
    .render();
    assert!(s.contains(r#"cite="https://example.org/source""#));
}

#[test]
fn cite_url_none_omits_cite_attribute() {
    let s = PullQuote {
        body: "x",
        attribution: None,
        cite_url: None,
        emphasis: PullQuoteEmphasis::Inline,
        tone: PullQuoteTone::Slate,
    }
    .render();
    assert!(!s.contains("cite="));
}

#[test]
fn pull_quote_no_saas_trope_ornaments() {
    // The shape guarantee that distinguishes this primitive from
    // testimonial-card SaaS shapes. The preamble specifically
    // calls out avatar circles + "most popular" decorations as
    // tropes to avoid.
    let s = PullQuote {
        body: "Body text here for the trope-check",
        attribution: Some("Name, Role"),
        cite_url: None,
        emphasis: PullQuoteEmphasis::Display,
        tone: PullQuoteTone::Slate,
    }
    .render();
    assert!(!s.contains("rounded-"));
    assert!(!s.contains("shadow-"));
    assert!(!s.contains("bg-primary"));
    // No decorative italic markup — italic is a stylistic opt-in,
    // not a default for pull-quotes.
    assert!(!s.contains("italic"));
    // No giant decorative quote-mark glyphs as a pseudo-element
    // or inline literal.
    assert!(!s.contains("&ldquo;"));
    assert!(!s.contains("&rdquo;"));
    // Uses a left-border editorial rule, NOT a quote-mark decoration.
    assert!(s.contains("border-l-2"));
}

#[test]
fn inline_emphasis_uses_smaller_sizes() {
    let s = PullQuote {
        body: "x",
        attribution: None,
        cite_url: None,
        emphasis: PullQuoteEmphasis::Inline,
        tone: PullQuoteTone::Slate,
    }
    .render();
    assert!(s.contains("text-xl"));
    assert!(s.contains("md:text-2xl"));
    // Must NOT use the display-tier sizes.
    assert!(!s.contains("lg:text-4xl"));
}

#[test]
fn display_emphasis_uses_larger_sizes() {
    let s = PullQuote {
        body: "x",
        attribution: None,
        cite_url: None,
        emphasis: PullQuoteEmphasis::Display,
        tone: PullQuoteTone::Slate,
    }
    .render();
    assert!(s.contains("text-2xl"));
    assert!(s.contains("md:text-3xl"));
    assert!(s.contains("lg:text-4xl"));
}

#[test]
fn amoled_tone_uses_true_black_neighborhood_colors() {
    let s = PullQuote {
        body: "x",
        attribution: Some("a"),
        cite_url: None,
        emphasis: PullQuoteEmphasis::Inline,
        tone: PullQuoteTone::Amoled,
    }
    .render();
    assert!(s.contains("text-slate-100"));
    // The light tone's slate-900 must NOT appear here.
    assert!(!s.contains("text-slate-900"));
    // Border darkens for AMOLED so it reads against true black.
    assert!(s.contains("border-slate-700"));
}

#[test]
fn splits_paragraph_separators_into_separate_p_tags() {
    let s = PullQuote {
        body: "First paragraph.\n\nSecond paragraph.",
        attribution: None,
        cite_url: None,
        emphasis: PullQuoteEmphasis::Inline,
        tone: PullQuoteTone::Slate,
    }
    .render();
    // Two <p> tags expected — count opens.
    let p_open_count = s.matches("<p").count();
    assert_eq!(p_open_count, 2, "expected 2 <p> tags, got {p_open_count}: {s}");
    assert!(s.contains(">First paragraph.<"));
    assert!(s.contains(">Second paragraph.<"));
}

#[test]
fn single_paragraph_emits_one_p() {
    let s = PullQuote {
        body: "Just one.",
        attribution: None,
        cite_url: None,
        emphasis: PullQuoteEmphasis::Inline,
        tone: PullQuoteTone::Slate,
    }
    .render();
    let p_open_count = s.matches("<p").count();
    assert_eq!(p_open_count, 1);
}

#[test]
fn ignores_empty_paragraphs_between_separators() {
    // Triple newlines or leading/trailing whitespace should NOT
    // emit empty <p> tags.
    let s = PullQuote {
        body: "  \n\n  Only paragraph  \n\n  ",
        attribution: None,
        cite_url: None,
        emphasis: PullQuoteEmphasis::Inline,
        tone: PullQuoteTone::Slate,
    }
    .render();
    let p_open_count = s.matches("<p").count();
    assert_eq!(p_open_count, 1);
    assert!(s.contains(">Only paragraph<"));
}
