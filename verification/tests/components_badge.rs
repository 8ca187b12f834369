use loom::components::badge::{Badge, BadgeShape, BadgeSize, BadgeTone};
#[test]
fn primary_md_emits_brand_classes() {
    let s = Badge {
        label: "Field Notes",
        tone: BadgeTone::Primary,
        size: BadgeSize::Md,
        shape: BadgeShape::default(),
    }
    .render();
    assert!(s.contains("bg-primary/10"));
    assert!(s.contains("text-primary"));
    assert!(s.contains(">Field Notes<"));
    // Default shape is Pill — rounded-full.
    assert!(s.contains("rounded-full"));
    assert!(s.contains(r#"data-loom-badge-shape="pill""#));
}

#[test]
fn ondark_uses_white_backdrop() {
    let s = Badge {
        label: "x",
        tone: BadgeTone::OnDark,
        size: BadgeSize::Sm,
        shape: BadgeShape::default(),
    }
    .render();
    assert!(s.contains("bg-white/10"));
    assert!(s.contains("text-white"));
}

#[test]
fn sm_uses_compact_padding() {
    let s = Badge {
        label: "x",
        tone: BadgeTone::Neutral,
        size: BadgeSize::Sm,
        shape: BadgeShape::default(),
    }
    .render();
    assert!(s.contains("text-xs"));
    assert!(s.contains("px-2.5"));
}

#[test]
fn square_shape_softens_radius() {
    let s = Badge {
        label: "x",
        tone: BadgeTone::Primary,
        size: BadgeSize::Md,
        shape: BadgeShape::Square,
    }
    .render();
    assert!(s.contains("rounded-md"));
    assert!(!s.contains("rounded-full"));
    assert!(s.contains(r#"data-loom-badge-shape="square""#));
}

#[test]
fn editorial_kicker_strips_chrome() {
    // The shape that pairs with the editorial composition
    // vocabulary. No border, no rounded, no background surface.
    let s = Badge {
        label: "DISPATCH",
        tone: BadgeTone::Primary,
        size: BadgeSize::Md,
        shape: BadgeShape::EditorialKicker,
    }
    .render();
    assert!(!s.contains("rounded-full"));
    assert!(!s.contains("rounded-md"));
    assert!(!s.contains("border "));
    assert!(!s.contains("bg-primary/10"));
    assert!(!s.contains("bg-white/10"));
    // Editorial-kicker shape uses monospace uppercase tracked.
    assert!(s.contains("font-mono"));
    assert!(s.contains("uppercase"));
    assert!(s.contains("tracking-widest"));
    // Tone color survives (text-primary).
    assert!(s.contains("text-primary"));
    assert!(s.contains(r#"data-loom-badge-shape="editorial-kicker""#));
    assert!(s.contains(">DISPATCH<"));
}

#[test]
fn editorial_kicker_tone_map_does_not_use_brand_surface() {
    // Editorial-kicker primary uses `text-primary` color but
    // NO `bg-primary/10` surface chrome.
    let s = Badge {
        label: "x",
        tone: BadgeTone::Primary,
        size: BadgeSize::Md,
        shape: BadgeShape::EditorialKicker,
    }
    .render();
    assert!(s.contains("text-primary"));
    assert!(!s.contains("bg-primary/10"));
    assert!(!s.contains("border-primary/20"));
}

#[test]
fn editorial_kicker_ondark_uses_slate_300() {
    // On dark surfaces, kicker text is slate-300 (mid-gray ink
    // against dark band), not white.
    let s = Badge {
        label: "x",
        tone: BadgeTone::OnDark,
        size: BadgeSize::Sm,
        shape: BadgeShape::EditorialKicker,
    }
    .render();
    assert!(s.contains("text-slate-300"));
    assert!(!s.contains("backdrop-blur-sm"));
}

#[test]
fn badge_shape_default_is_pill() {
    // Back-compat guarantee: BadgeShape::default() yields the
    // legacy SaaS-pill shape so existing callers via
    // ..Default::default() keep rendering identically.
    assert!(matches!(BadgeShape::default(), BadgeShape::Pill));
}
