use loom::components::card::{Card, CardElevation, CardHover, CardPadding, CardShape, FeatureCard, FeatureCardStyle, KvPairCard, KvPairDensity, KvPairTone, LinkCard};

#[test]
fn content_card_preserves_body() {
    let body = "<p>hello</p>";
    let s = Card {
        body,
        elevation: CardElevation::Soft,
        padding: CardPadding::Comfortable,
        hover: CardHover::Lift,
        shape: CardShape::default(),
    }
    .render();
    assert!(s.contains("<p>hello</p>"));
    assert!(s.contains("rounded-xl"));
    assert!(s.contains("hover:border-primary/40"));
    // Default shape is Rounded — data attribute reflects that.
    assert!(s.contains(r#"data-loom-card-shape="rounded""#));
}

#[test]
fn feature_card_emits_icon_title_description() {
    let s = FeatureCard {
        icon_svg: "<svg data-test=\"f\"></svg>",
        title: "Confidential email",
        description: "Self-hosted mail with TLS-required transport.",
    }
    .render();
    assert!(s.contains("svg data-test=\"f\""));
    assert!(s.contains(">Confidential email<"));
    assert!(s.contains(">Self-hosted mail"));
}

#[test]
fn link_card_wraps_in_anchor() {
    let body = "<h2>Post title</h2>";
    let s = LinkCard {
        href: "/blog/x",
        body,
    }
    .render();
    assert!(s.contains(r#"<a href="/blog/x" class="group block""#));
    assert!(s.contains("<article"));
    assert!(s.contains("<h2>Post title</h2>"));
}

#[test]
fn padding_levels_produce_distinct_classes() {
    let body = "";
    let tight = Card {
        body,
        elevation: CardElevation::Flat,
        padding: CardPadding::Tight,
        hover: CardHover::Still,
        shape: CardShape::default(),
    }
    .render();
    let roomy = Card {
        body,
        elevation: CardElevation::Flat,
        padding: CardPadding::Roomy,
        hover: CardHover::Still,
        shape: CardShape::default(),
    }
    .render();
    assert!(tight.contains("p-4"));
    assert!(roomy.contains("p-6 md:p-8"));
}

#[test]
fn flat_elevation_has_no_shadow() {
    let body = "";
    let s = Card {
        body,
        elevation: CardElevation::Flat,
        padding: CardPadding::Comfortable,
        hover: CardHover::Still,
        shape: CardShape::default(),
    }
    .render();
    assert!(!s.contains("shadow-"));
}

#[test]
fn card_square_shape_strips_radius() {
    let body = "";
    let s = Card {
        body,
        elevation: CardElevation::Flat,
        padding: CardPadding::Comfortable,
        hover: CardHover::Still,
        shape: CardShape::Square,
    }
    .render();
    assert!(s.contains("rounded-none"));
    assert!(!s.contains("rounded-xl"));
    assert!(s.contains(r#"data-loom-card-shape="square""#));
}

#[test]
fn square_keeps_border_and_surface() {
    // Square only affects radius — border + bg-white stay.
    let body = "";
    let s = Card {
        body,
        elevation: CardElevation::Soft,
        padding: CardPadding::Comfortable,
        hover: CardHover::Still,
        shape: CardShape::Square,
    }
    .render();
    assert!(s.contains("border"));
    assert!(s.contains("bg-white"));
    assert!(s.contains("shadow-sm"));
}

#[test]
fn card_shape_default_is_rounded() {
    assert!(matches!(CardShape::default(), CardShape::Rounded));
}

#[test]
fn feature_card_bold_uses_larger_tile_with_group_hover() {
    let s = FeatureCard {
        icon_svg: "<svg/>",
        title: "T",
        description: "D",
    }
    .render_with_style(FeatureCardStyle::Bold);
    assert!(s.contains("w-14 h-14"));
    assert!(s.contains("bg-primary/5"));
    assert!(s.contains("group-hover:bg-primary"));
    assert!(
        s.contains(" group"),
        "outer card needs `group` for group-hover children"
    );
}

#[test]
fn feature_card_subtle_uses_compact_tile() {
    let s = FeatureCard {
        icon_svg: "<svg/>",
        title: "T",
        description: "D",
    }
    .render_with_style(FeatureCardStyle::Subtle);
    assert!(s.contains("w-12 h-12"));
    assert!(s.contains("bg-primary/10"));
    assert!(!s.contains("group-hover:bg-primary"));
}

#[test]
fn pronounced_elevation_emits_shadow_xl() {
    let body = "";
    let s = Card {
        body,
        elevation: CardElevation::Pronounced,
        padding: CardPadding::Roomy,
        hover: CardHover::Still,
        shape: CardShape::default(),
    }
    .render();
    assert!(s.contains("shadow-xl"));
}

// ----- KvPairCard -----

#[test]
fn kvpair_renders_label_value_no_source() {
    let s = KvPairCard {
        label: "JURISDICTION",
        value: "Federal+47",
        source: None,
        density: KvPairDensity::Comfortable,
        tone: KvPairTone::Slate,
    }
    .render();
    assert!(s.contains(">JURISDICTION<"));
    assert!(s.contains(">Federal+47<"));
    // Label is monospace-uppercase-tracked, never a pill / border-pill.
    assert!(s.contains("font-mono"));
    assert!(s.contains("uppercase"));
    assert!(s.contains("tracking-widest"));
}

#[test]
fn kvpair_renders_source_when_present() {
    let s = KvPairCard {
        label: "STARTED",
        value: "2019",
        source: Some("incorp. CT"),
        density: KvPairDensity::Comfortable,
        tone: KvPairTone::Slate,
    }
    .render();
    assert!(s.contains(">— incorp. CT<"));
}

#[test]
fn kvpair_omits_source_when_none() {
    let s = KvPairCard {
        label: "L",
        value: "V",
        source: None,
        density: KvPairDensity::Comfortable,
        tone: KvPairTone::Slate,
    }
    .render();
    // The em-dash prefix only appears when source is rendered.
    assert!(!s.contains("— "));
}

#[test]
fn kvpair_no_saas_trope_ornaments() {
    // Shape guarantee: no icon tile, no rounded-2xl flourish,
    // no group-hover color flip. Repeating this primitive across
    // a grid must NOT look like FeatureCard.
    let s = KvPairCard {
        label: "L",
        value: "V",
        source: Some("s"),
        density: KvPairDensity::Comfortable,
        tone: KvPairTone::Slate,
    }
    .render();
    assert!(!s.contains("rounded-2xl"));
    assert!(!s.contains("rounded-lg"));
    assert!(!s.contains("bg-primary/10"));
    assert!(!s.contains("bg-primary/5"));
    assert!(!s.contains("group-hover"));
    assert!(!s.contains("w-12 h-12"));
    assert!(!s.contains("w-14 h-14"));
    assert!(!s.contains("shadow-"));
}

#[test]
fn kvpair_compact_density_smaller_gap() {
    let s = KvPairCard {
        label: "L",
        value: "V",
        source: None,
        density: KvPairDensity::Compact,
        tone: KvPairTone::Slate,
    }
    .render();
    assert!(s.contains("gap-1"));
    assert!(s.contains("p-4"));
}

#[test]
fn kvpair_spacious_density_larger_padding() {
    let s = KvPairCard {
        label: "L",
        value: "V",
        source: None,
        density: KvPairDensity::Spacious,
        tone: KvPairTone::Slate,
    }
    .render();
    assert!(s.contains("gap-3"));
    assert!(s.contains("p-6 md:p-8"));
}

#[test]
fn kvpair_amoled_uses_true_black_surface() {
    let s = KvPairCard {
        label: "L",
        value: "V",
        source: None,
        density: KvPairDensity::Comfortable,
        tone: KvPairTone::Amoled,
    }
    .render();
    assert!(s.contains("bg-black"));
    // Slate-100 for value text on dark background per
    // [[dark-theme-amoled-true-black]] palette.
    assert!(s.contains("text-slate-100"));
    // Slate-100 should NOT appear in light tone.
    let light = KvPairCard {
        label: "L",
        value: "V",
        source: None,
        density: KvPairDensity::Comfortable,
        tone: KvPairTone::Slate,
    }
    .render();
    assert!(!light.contains("bg-black"));
    assert!(light.contains("bg-white"));
}

#[test]
fn kvpair_value_dominates_typographically() {
    // The value carries the typographic mass; label + source are
    // subordinate text sizes. Verify the sizes match the design.
    let s = KvPairCard {
        label: "JURISDICTION",
        value: "Federal+47",
        source: Some("extraterr."),
        density: KvPairDensity::Comfortable,
        tone: KvPairTone::Slate,
    }
    .render();
    // Value: text-2xl on mobile, text-3xl on md+.
    assert!(s.contains("text-2xl"));
    assert!(s.contains("md:text-3xl"));
    // Label: small (text-xs).
    assert!(s.contains("text-xs"));
    // Source: medium (text-sm).
    assert!(s.contains("text-sm"));
}
