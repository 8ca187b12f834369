use loom::cms::{section_kind_label, CmsPage, CmsSection, HeadingLevel, HeroCta};
use loom::gui::{heading_pt, show_page, show_section, LabelLook, Widget};

fn page_with_sections(sections: Vec<CmsSection>) -> CmsPage {
    CmsPage { title: "Test App".to_string(), sections }
}

fn plain() -> LabelLook {
    LabelLook {
        heading: false,
        size: None,
        strong: false,
        italics: false,
        weak: false,
        monospace: false,
        underline: false,
    }
}

fn label_text(w: &Widget) -> Option<&str> {
    match w {
        Widget::Label(t, _) => Some(t.as_str()),
        _ => None,
    }
}

#[test]
fn show_page_does_not_panic_on_empty_page() {
    let page = page_with_sections(vec![]);
    let ws = show_page(&page);
    assert_eq!(ws.len(), 2);
    assert!(matches!(&ws[0], Widget::Heading(t) if t == "Test App"));
    assert!(matches!(ws[1], Widget::Space(8)));
}

#[test]
fn show_page_does_not_panic_on_mixed_sections() {
    let sections = vec![
        CmsSection::Heading { text: "H".to_string(), level: HeadingLevel::H2 },
        CmsSection::Paragraph { text: "P".to_string() },
        CmsSection::Divider,
        CmsSection::ImageHero {
            eyebrow: None,
            title: "T".to_string(),
            lede: Some("L".to_string()),
            cta: Some(HeroCta { label: "Go".to_string() }),
        },
        CmsSection::PullQuote { body: "B".to_string(), attribution: Some("A".to_string()) },
        CmsSection::Code { body: "fn main(){}".to_string(), lang: "rust".to_string() },
        CmsSection::Epigraph { body: "E".to_string(), attribution: None },
    ];
    let page = page_with_sections(sections);
    let ws = show_page(&page);
    // Title, space, then each section with 12 points between them.
    assert!(matches!(ws[2], Widget::Label(..)));
    assert!(matches!(ws[3], Widget::Space(12)));
    let spaces = ws.iter().filter(|w| matches!(w, Widget::Space(12))).count();
    assert_eq!(spaces, 6);
}

#[test]
fn show_section_handles_unknown_variant_without_panic() {
    let s = CmsSection::Other;
    let ws = show_section(&s);
    assert_eq!(ws.len(), 1);
    assert_eq!(label_text(&ws[0]), Some("[section]"));
}

#[test]
fn heading_pt_assigns_decreasing_sizes() {
    assert!(heading_pt(&HeadingLevel::H2) > heading_pt(&HeadingLevel::H3));
    assert!(heading_pt(&HeadingLevel::H3) > heading_pt(&HeadingLevel::H4));
    assert!(heading_pt(&HeadingLevel::H4) > heading_pt(&HeadingLevel::H5));
    assert!(heading_pt(&HeadingLevel::H5) > heading_pt(&HeadingLevel::H6));
}

#[test]
fn section_kind_label_covers_text_bearing_variants() {
    let s = CmsSection::Epigraph { body: "x".to_string(), attribution: None };
    assert_eq!(section_kind_label(&s), "epigraph");
    let s = CmsSection::Paragraph { text: "x".to_string() };
    assert_eq!(section_kind_label(&s), "paragraph");
}

// -------- exact widgets --------

#[test]
fn heading_widget_is_a_strong_sized_heading() {
    let ws = show_section(&CmsSection::Heading { text: "H".to_string(), level: HeadingLevel::H4 });
    match &ws[..] {
        [Widget::Label(t, look)] => {
            assert_eq!(t, "H");
            assert_eq!(*look, LabelLook { heading: true, size: Some(17), strong: true, ..plain() });
        }
        other => panic!("{other:?}"),
    }
    assert_eq!(heading_pt(&HeadingLevel::H2), 22);
    assert_eq!(heading_pt(&HeadingLevel::H6), 14);
}

#[test]
fn quote_and_code_widgets() {
    let ws = show_section(&CmsSection::Quote { body: "B".to_string(), attribution: "A".to_string() });
    assert_eq!(ws.len(), 2);
    assert_eq!(label_text(&ws[1]), Some("— A"));
    assert!(matches!(&ws[1], Widget::Label(_, l) if l.weak));
    let ws = show_section(&CmsSection::Code { body: "x = 1".to_string(), lang: "py".to_string() });
    assert_eq!(
        ws.iter().map(|w| label_text(w).unwrap().to_string()).collect::<Vec<_>>(),
        vec!["```py", "x = 1", "```"]
    );
    assert!(matches!(&ws[1], Widget::Label(_, l) if l.monospace));
}

#[test]
fn hero_widgets_in_order() {
    let ws = show_section(&CmsSection::Hero {
        eyebrow: Some("Eye".to_string()),
        title: "Title".to_string(),
        lede: None,
        cta: Some(HeroCta { label: "Go".to_string() }),
    });
    assert_eq!(
        ws.iter().map(|w| label_text(w).unwrap().to_string()).collect::<Vec<_>>(),
        vec!["Eye", "Title", "[ Go ]"]
    );
    assert!(matches!(&ws[1], Widget::Label(_, l) if l.size == Some(28) && l.heading && l.strong));
    assert!(matches!(&ws[2], Widget::Label(_, l) if l.underline));
}

#[test]
fn divider_spacer_and_placeholders() {
    assert!(matches!(show_section(&CmsSection::Divider)[..], [Widget::Separator]));
    assert!(matches!(show_section(&CmsSection::Spacer)[..], [Widget::Space(12)]));
    let ws = show_section(&CmsSection::Figure {
        caption: "C".to_string(),
        credit: Some("K".to_string()),
        asset_slug: None,
    });
    assert_eq!(label_text(&ws[0]), Some("[figure no-asset]"));
    assert_eq!(label_text(&ws[1]), Some("C · K"));
    let ws = show_section(&CmsSection::Footnote { number: 3, text: "t".to_string() });
    assert_eq!(label_text(&ws[0]), Some("[3] t"));
}
