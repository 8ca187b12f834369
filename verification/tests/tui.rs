use loom::cms::{CmsPage, CmsSection, HeadingLevel, HeroCta};
use loom::tui::{render_page, render_section_lines, wrap_to_lines, Line, TextStyle};

fn page_with(sections: Vec<CmsSection>) -> CmsPage {
    CmsPage { title: "Test Page".to_string(), sections }
}

fn texts(lines: &[Line]) -> Vec<String> {
    lines
        .iter()
        .map(|l| l.spans.iter().map(|s| s.content.as_str()).collect::<String>())
        .collect()
}

#[test]
fn page_title_appears_at_top() {
    let p = page_with(vec![]);
    let text = render_page(&p);
    // First line should be the bold title.
    assert_eq!(text[0].spans[0].content, "Test Page");
}

#[test]
fn heading_renders_with_hash_prefix() {
    let s = CmsSection::Heading { text: "Roadmap".to_string(), level: HeadingLevel::H2 };
    let lines = render_section_lines(&s);
    assert_eq!(lines.len(), 1);
    assert!(format!("{:?}", lines[0]).contains("##"));
    assert!(format!("{:?}", lines[0]).contains("Roadmap"));
}

#[test]
fn paragraph_wraps_long_text() {
    let long = "lorem ipsum ".repeat(40);
    let s = CmsSection::Paragraph { text: long };
    let lines = render_section_lines(&s);
    assert!(lines.len() > 1, "long paragraph should wrap to multiple lines");
}

#[test]
fn pull_quote_includes_attribution() {
    let s = CmsSection::PullQuote {
        body: "Hope is the thing with feathers.".to_string(),
        attribution: Some("Dickinson".to_string()),
    };
    let lines = render_section_lines(&s);
    let last = format!("{:?}", lines.last().unwrap());
    assert!(last.contains("Dickinson"));
}

#[test]
fn divider_renders_horizontal_rule() {
    let s = CmsSection::Divider;
    let lines = render_section_lines(&s);
    assert_eq!(lines.len(), 1);
    assert!(format!("{:?}", lines[0]).contains("─"));
}

#[test]
fn code_emits_fenced_block() {
    let s = CmsSection::Code { body: "fn main(){}".to_string(), lang: "rust".to_string() };
    let lines = render_section_lines(&s);
    let dump = format!("{lines:?}");
    assert!(dump.contains("```rust"));
    assert!(dump.contains("fn main()"));
}

#[test]
fn image_hero_renders_textual_content_only() {
    let s = CmsSection::ImageHero {
        eyebrow: Some("E".to_string()),
        title: "T".to_string(),
        lede: Some("L".to_string()),
        cta: Some(HeroCta { label: "Click".to_string() }),
    };
    let lines = render_section_lines(&s);
    let dump = format!("{lines:?}");
    assert!(dump.contains("E"));
    assert!(dump.contains("T"));
    assert!(dump.contains("L"));
    assert!(dump.contains("Click"));
}

#[test]
fn unknown_variant_emits_bookkeeping_label() {
    let s = CmsSection::Other;
    let lines = render_section_lines(&s);
    // The catch-all arm hits — emit at least one placeholder line.
    assert!(!lines.is_empty());
}

#[test]
fn full_page_render_produces_more_lines_than_sections() {
    let secs = vec![
        CmsSection::Heading { text: "Section A".to_string(), level: HeadingLevel::H2 },
        CmsSection::Paragraph { text: "Body of A.".to_string() },
        CmsSection::Heading { text: "Section B".to_string(), level: HeadingLevel::H2 },
    ];
    let p = page_with(secs);
    let text = render_page(&p);
    // title + blank + headingA + blank + paraA + blank + headingB
    assert!(text.len() >= 7);
}

// -------- exact renderings --------

#[test]
fn page_lines_exactly() {
    let p = page_with(vec![
        CmsSection::Heading { text: "Section A".to_string(), level: HeadingLevel::H3 },
        CmsSection::Paragraph { text: "Body of A.".to_string() },
    ]);
    let lines = render_page(&p);
    assert_eq!(texts(&lines), vec!["Test Page", "", "### Section A", "", "Body of A."]);
    assert_eq!(lines[0].spans[0].style, TextStyle::Bold);
    assert_eq!(lines[2].spans[0].style, TextStyle::Plain);
    assert_eq!(lines[2].spans[1].style, TextStyle::Bold);
}

#[test]
fn wrapping_fills_up_to_78_columns() {
    // 13 six-letter words joined by spaces make 90 characters: 11 words
    // (76 characters) fit, a 12th would make 83.
    let text = vec!["abcdef"; 13].join(" ");
    let lines = wrap_to_lines(&text, TextStyle::Italic);
    let t = texts(&lines);
    assert_eq!(t.len(), 2);
    assert_eq!(t[0], vec!["abcdef"; 11].join(" "));
    assert_eq!(t[1], "abcdef abcdef");
    assert!(lines.iter().all(|l| l.spans[0].style == TextStyle::Italic));
    // Exactly 78 characters stay on one line.
    let exact = format!("{} {}", "a".repeat(38), "b".repeat(39));
    assert_eq!(texts(&wrap_to_lines(&exact, TextStyle::Plain)), vec![exact.clone()]);
    // A word longer than the column is kept whole on its own line.
    let long = format!("x {} y", "w".repeat(100));
    assert_eq!(
        texts(&wrap_to_lines(&long, TextStyle::Plain)),
        vec!["x".to_string(), "w".repeat(100), "y".to_string()]
    );
}

#[test]
fn wrapping_counts_characters_not_bytes() {
    // 61 characters (121 bytes) fit the 78-column width.
    let text = format!("{} {}", "é".repeat(30), "é".repeat(30));
    assert_eq!(texts(&wrap_to_lines(&text, TextStyle::Plain)), vec![text.clone()]);
    // 39 two-byte characters and " a" make 41 characters: one line.
    let text = format!("{} a", "é".repeat(39));
    assert_eq!(texts(&wrap_to_lines(&text, TextStyle::Plain)), vec![text.clone()]);
    // 78 characters fit, 79 do not.
    let word = "é".repeat(76);
    let text = format!("{word} a");
    assert_eq!(texts(&wrap_to_lines(&text, TextStyle::Plain)), vec![text.clone()]);
    let text = format!("{word} ab");
    assert_eq!(texts(&wrap_to_lines(&text, TextStyle::Plain)), vec![word, "ab".to_string()]);
}

#[test]
fn wrapping_starts_a_new_line_at_each_blank_line() {
    let lines = wrap_to_lines("one two\n\nthree\nfour\n\n\n\nfive", TextStyle::Plain);
    assert_eq!(texts(&lines), vec!["one two", "three four", "five"]);
    assert!(wrap_to_lines("   ", TextStyle::Plain).is_empty());
    assert!(wrap_to_lines("", TextStyle::Plain).is_empty());
}

#[test]
fn sub_heading_levels_are_clamped() {
    let line = |level: u8| {
        texts(&render_section_lines(&CmsSection::SubHeading { text: "S".to_string(), level }))
    };
    assert_eq!(line(0), vec!["## S"]);
    assert_eq!(line(4), vec!["#### S"]);
    assert_eq!(line(9), vec!["###### S"]);
}

#[test]
fn quote_family_renderings() {
    let q = render_section_lines(&CmsSection::Quote {
        body: "Body".to_string(),
        attribution: "Ann".to_string(),
    });
    assert_eq!(texts(&q), vec!["Body", "— Ann"]);
    assert_eq!(q[1].spans[0].style, TextStyle::Dim);
    let e = render_section_lines(&CmsSection::Epigraph { body: "E".to_string(), attribution: None });
    assert_eq!(texts(&e), vec!["E"]);
    assert_eq!(e[0].spans[0].style, TextStyle::Italic);
    let p = render_section_lines(&CmsSection::PullQuote {
        body: "P".to_string(),
        attribution: Some("A".to_string()),
    });
    assert_eq!(texts(&p), vec!["P", "    — A"]);
    let m = render_section_lines(&CmsSection::Marginalia { body: "note".to_string() });
    assert_eq!(texts(&m), vec!["  ⁂ note"]);
}

#[test]
fn footnote_citation_caption_lede() {
    assert_eq!(
        texts(&render_section_lines(&CmsSection::Footnote { number: 12, text: "See".to_string() })),
        vec!["[12] See"]
    );
    assert_eq!(
        texts(&render_section_lines(&CmsSection::Citation {
            text: "Claim".to_string(),
            source: "Book".to_string()
        })),
        vec!["Claim (Book)"]
    );
    let c = render_section_lines(&CmsSection::Caption { text: "Cap".to_string() });
    assert_eq!(c[0].spans[0].style, TextStyle::Dim);
    let l = render_section_lines(&CmsSection::Lede { text: "Lede".to_string() });
    assert_eq!(l[0].spans[0].style, TextStyle::Italic);
}

#[test]
fn divider_and_spacer() {
    assert_eq!(texts(&render_section_lines(&CmsSection::Divider)), vec!["─".repeat(40)]);
    let spacer = render_section_lines(&CmsSection::Spacer);
    assert_eq!(spacer.len(), 1);
    assert!(spacer[0].spans.is_empty());
}

#[test]
fn plain_lines_drop_line_breaks() {
    // A plain line holds one span per line of its text.
    let s = CmsSection::Footnote { number: 1, text: "a\nb".to_string() };
    let lines = render_section_lines(&s);
    assert_eq!(lines.len(), 1);
    let spans: Vec<&str> = lines[0].spans.iter().map(|s| s.content.as_str()).collect();
    assert_eq!(spans, vec!["[1] a", "b"]);
    // Blank separator lines have no spans.
    let page = render_page(&page_with(vec![CmsSection::Divider, CmsSection::Divider]));
    assert!(page[1].spans.is_empty());
    assert!(page[3].spans.is_empty());
}

#[test]
fn code_block_keeps_body_lines() {
    let s = CmsSection::Code { body: "a\r\nb\n\nc\n".to_string(), lang: "txt".to_string() };
    let lines = render_section_lines(&s);
    assert_eq!(texts(&lines), vec!["```txt", "a", "b", "", "c", "```"]);
    assert_eq!(lines[0].spans[0].style, TextStyle::Dim);
    assert_eq!(lines[1].spans[0].style, TextStyle::Plain);
}

#[test]
fn picture_and_figure_placeholders() {
    let pic = |alt: &str| {
        texts(&render_section_lines(&CmsSection::Picture {
            src_stem: "hero-1".to_string(),
            alt: alt.to_string(),
        }))
    };
    assert_eq!(pic(""), vec!["[asset: hero-1]"]);
    assert_eq!(pic("A cat"), vec!["[asset: hero-1]"]);
    let p = render_section_lines(&CmsSection::Picture {
        src_stem: "hero-1".to_string(),
        alt: String::new(),
    });
    assert_eq!(p.len(), 1);
    assert_eq!(p[0].spans[0].style, TextStyle::Dim);
    let fig = render_section_lines(&CmsSection::Figure {
        caption: "Cap".to_string(),
        credit: Some("Me".to_string()),
        asset_slug: None,
    });
    assert_eq!(texts(&fig), vec!["[figure no-asset]", "Cap · Me"]);
    let fig = render_section_lines(&CmsSection::Figure {
        caption: "Cap".to_string(),
        credit: None,
        asset_slug: Some("map".to_string()),
    });
    assert_eq!(texts(&fig), vec!["[figure map]", "Cap"]);
}

#[test]
fn hero_lines_in_order() {
    let s = CmsSection::Hero {
        eyebrow: None,
        title: "Title".to_string(),
        lede: Some("Lede text".to_string()),
        cta: Some(HeroCta { label: "Go".to_string() }),
    };
    let lines = render_section_lines(&s);
    assert_eq!(texts(&lines), vec!["Title", "Lede text", "[ Go ]"]);
    assert_eq!(lines[0].spans[0].style, TextStyle::Bold);
    assert_eq!(lines[2].spans[0].style, TextStyle::Underlined);
}

#[test]
fn unshown_kinds_are_labelled() {
    assert_eq!(texts(&render_section_lines(&CmsSection::SplitHero)), vec!["[split_hero]"]);
    assert_eq!(texts(&render_section_lines(&CmsSection::Other)), vec!["[section]"]);
}

#[test]
fn blank_text_sections_yield_one_blank_line() {
    let p = render_section_lines(&CmsSection::Paragraph { text: "  \n\n ".to_string() });
    assert_eq!(p.len(), 1);
    assert!(p[0].spans.is_empty());
    let b = render_section_lines(&CmsSection::Banner { text: String::new() });
    assert_eq!(b.len(), 1);
    assert!(b[0].spans.is_empty());
    // A blank pull quote keeps its blank line and its attribution.
    let q = render_section_lines(&CmsSection::PullQuote {
        body: String::new(),
        attribution: Some("A".to_string()),
    });
    assert_eq!(texts(&q), vec!["", "    — A"]);
    let page = render_page(&page_with(vec![CmsSection::Paragraph { text: " ".to_string() }]));
    assert_eq!(page.len(), 3);
}

#[test]
fn wrapped_lines_keep_the_words_and_fit() {
    let text = "alpha beta\n\n gamma\tdelta  epsilon-zeta ".repeat(12);
    let lines = wrap_to_lines(&text, TextStyle::Plain);
    let t = texts(&lines);
    let words: Vec<&str> = t.iter().flat_map(|l| l.split_whitespace()).collect();
    let expected: Vec<&str> = text.split_whitespace().collect();
    assert_eq!(words, expected);
    assert!(t.iter().all(|l| !l.is_empty() && l.chars().count() <= 78));
}

#[test]
fn page_has_a_line_per_section_and_separators() {
    let p = page_with(vec![
        CmsSection::Divider,
        CmsSection::Caption { text: "c".to_string() },
        CmsSection::Other,
    ]);
    assert_eq!(render_page(&p).len(), 2 * 3 + 1);
}
