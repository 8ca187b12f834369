


use loom::components::typography::{BodyText, DefinitionRow, Eyebrow, EyebrowSize, Heading, HeadingLevel, HeadingTone, HeadingVariant, HelperSize, HelperText, Lede};
#[test]
fn h1_emits_h1_tag() {
    let s = Heading {
        text: "Hero",
        level: HeadingLevel::H1,
        variant: HeadingVariant::Display,
        tone: HeadingTone::Ink,
    }
    .render();
    assert!(s.starts_with("<h1"));
    assert!(s.contains(">Hero</h1>"));
}

#[test]
fn h2_section_emits_section_classes() {
    let s = Heading {
        text: "Section",
        level: HeadingLevel::H2,
        variant: HeadingVariant::Section,
        tone: HeadingTone::Ink,
    }
    .render();
    assert!(s.contains("text-3xl"));
    assert!(s.contains("md:text-4xl"));
    assert!(s.contains("text-slate-900"));
}

#[test]
fn h3_card_emits_text_lg() {
    let s = Heading {
        text: "What we shipped",
        level: HeadingLevel::H3,
        variant: HeadingVariant::Card,
        tone: HeadingTone::Ink,
    }
    .render();
    assert!(s.starts_with("<h3"));
    assert!(s.contains("text-lg"));
    // Card variant must NOT also emit a larger size — sub vs card divergence
    assert!(!s.contains("text-xl"));
    assert!(!s.contains("text-3xl"));
    assert!(s.contains(">What we shipped</h3>"));
}

#[test]
fn ondark_tone_emits_text_white() {
    let s = Heading {
        text: "x",
        level: HeadingLevel::H2,
        variant: HeadingVariant::Section,
        tone: HeadingTone::OnDark,
    }
    .render();
    assert!(s.contains("text-white"));
}

#[test]
fn lede_uses_larger_body_text() {
    let s = Lede {
        text: "the lede",
        tone: HeadingTone::Ink,
    }
    .render();
    assert!(s.contains("text-lg"));
    assert!(s.contains("leading-relaxed"));
    assert!(s.contains(">the lede<"));
}

#[test]
fn body_uses_slate_700_on_ink() {
    let s = BodyText {
        text: "x",
        tone: HeadingTone::Ink,
    }
    .render();
    assert!(s.contains("text-slate-700"));
}

#[test]
fn helper_default_size_emits_text_sm() {
    let s = HelperText {
        text: "x",
        size: HelperSize::Default,
        tone: HeadingTone::Ink,
    }
    .render();
    assert!(s.contains("text-sm"));
    assert!(s.contains("text-slate-500"));
}

#[test]
fn helper_tiny_size_emits_text_xs() {
    let s = HelperText {
        text: "fine print",
        size: HelperSize::Tiny,
        tone: HeadingTone::Ink,
    }
    .render();
    assert!(s.contains("text-xs"));
    assert!(s.contains("fine print"));
}

#[test]
fn helper_ondark_uses_slate_400() {
    let s = HelperText {
        text: "x",
        size: HelperSize::Default,
        tone: HeadingTone::OnDark,
    }
    .render();
    assert!(s.contains("text-slate-400"));
}



/// Both sizes must keep the contrast-safe grey. A caller cannot change
/// it, so the only way it regresses is an edit here.
#[test]
fn eyebrows_use_the_contrast_safe_grey() {
    for size in [EyebrowSize::Section, EyebrowSize::Subhead] {
        let s = Eyebrow {
            text: "Method",
            size,
        }
        .render();
        assert!(
            s.contains("text-slate-500"),
            "eyebrow dropped the 4.76:1 grey: {s}"
        );
        assert!(
            !s.contains("text-slate-400") && !s.contains("text-slate-300"),
            "eyebrow uses a grey that cannot reach 4.5:1 at this size: {s}"
        );
        assert!(s.contains("uppercase"), "eyebrow is no longer capitalised");
    }
}

/// The two sizes must stay distinguishable, or there is one primitive
/// pretending to be two.
#[test]
fn the_two_eyebrow_sizes_differ() {
    let a = Eyebrow {
        text: "x",
        size: EyebrowSize::Section,
    }
    .render();
    let b = Eyebrow {
        text: "x",
        size: EyebrowSize::Subhead,
    }
    .render();
    assert_ne!(a, b);
}

/// Subhead must stay a heading. It is often the only heading its block
/// has, so demoting it to a span deletes the block from the document
/// outline — invisible on screen, and the difference between a
/// screen-reader user being able to navigate the page or not.
#[test]
fn subhead_is_a_heading_and_section_is_not() {
    let sub = Eyebrow {
        text: "Worked example",
        size: EyebrowSize::Subhead,
    }
    .render();
    assert!(
        sub.starts_with("<h3"),
        "Subhead left the document outline: {sub}"
    );

    let sec = Eyebrow {
        text: "Method",
        size: EyebrowSize::Section,
    }
    .render();
    assert!(
        sec.starts_with("<span"),
        "Section sits above a real <h2>; a second heading here would \
         duplicate the outline entry: {sec}"
    );
}

/// The description column must span, or every row leaves a dead third
/// column on desktop.
#[test]
fn definition_row_description_spans_the_remaining_columns() {
    let s = DefinitionRow {
        term: "PTES",
        description: "Sets the phases.",
    }
    .render();
    assert!(
        s.contains("md:grid-cols-3"),
        "row is not a three-column grid"
    );
    assert!(s.contains("md:col-span-2"), "description does not span");
    assert!(s.contains("<dt"), "term is not a <dt>");
    assert!(s.contains("<dd"), "description is not a <dd>");
}
