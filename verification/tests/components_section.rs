use loom::components::section::{Section, SectionPadding, SectionTheme, SectionWidth};
#[test]
fn dark_theme_uses_slate_900() {
    let body = "<p>x</p>";
    let s = Section::new(body, SectionTheme::Dark)
        .render();
    assert!(s.contains("bg-slate-900"));
    assert!(s.contains("text-white"));
}

#[test]
fn body_is_preserved() {
    let body = "<h1>Hello</h1>";
    let s = Section::new(body, SectionTheme::Light)
        .render();
    assert!(s.contains("<h1>Hello</h1>"));
}

#[test]
fn default_constructor_emits_loose_padding_and_default_width() {
    let body = "";
    let s = Section::new(body, SectionTheme::Light)
        .render();
    assert!(s.contains("py-20"), "default padding lost: {s}");
    assert!(!s.contains("max-w-"), "default width should be open: {s}");
}

#[test]
fn narrow_width_emits_max_w_2xl() {
    let body = "";
    let s = Section {
        body,
        theme: SectionTheme::Light,
        width: SectionWidth::Narrow,
        padding: SectionPadding::Tight,
    }
    .render();
    assert!(s.contains("max-w-2xl"), "narrow width missing: {s}");
    assert!(s.contains("py-12"), "tight padding missing: {s}");
}

#[test]
fn editorial_theme_uses_slate_100_bg() {
    let body = "<p>x</p>";
    let s = Section::new(body, SectionTheme::Editorial)
        .render();
    assert!(s.contains("bg-slate-100"), "editorial bg wrong: {s}");
    assert!(s.contains("text-slate-900"), "editorial text wrong: {s}");
    // Verify it's DISTINCT from Muted (slate-50) and Light (white).
    assert!(!s.contains("bg-slate-50"));
    assert!(!s.contains("bg-white"));
}

#[test]
fn amoled_theme_uses_pure_black_for_oled() {
    // Per memory [[dark-theme-amoled-true-black]] — bg must be
    // `bg-black` (resolves to #000000), not `bg-slate-900`
    // (which is a near-black gray). OLED pixels are OFF only
    // for true black.
    let body = "<p>x</p>";
    let s = Section::new(body, SectionTheme::Amoled)
        .render();
    assert!(s.contains("bg-black"), "amoled bg wrong: {s}");
    // Verify it's NOT bg-slate-900 (that's the Dark variant).
    assert!(!s.contains("bg-slate-900"));
    // Text should be slate-100 (high contrast on black).
    assert!(s.contains("text-slate-100"));
}

#[test]
fn dense_padding_is_py_10() {
    // Dense sits between Compact (py-8) and Tight (py-12).
    // Maps semantically to DensityTier::Dense from loom-tokens.
    let body = "";
    let s = Section {
        body,
        theme: SectionTheme::Light,
        width: SectionWidth::Default,
        padding: SectionPadding::Dense,
    }
    .render();
    assert!(s.contains("py-10"), "dense padding missing: {s}");
    // Verify it's distinct from Compact and Tight.
    assert!(!s.contains("py-8"));
    assert!(!s.contains("py-12"));
}

#[test]
fn every_theme_padding_pair_is_consistent() {
    for theme in [
        SectionTheme::Light,
        SectionTheme::Muted,
        SectionTheme::Dark,
        SectionTheme::Tinted,
        SectionTheme::Editorial,
        SectionTheme::Amoled,
    ] {
        for padding in [
            SectionPadding::Compact,
            SectionPadding::Dense,
            SectionPadding::Tight,
            SectionPadding::Default,
            SectionPadding::Loose,
        ] {
            let body = "";
            let s = Section {
                body,
                theme,
                width: SectionWidth::Default,
                padding,
            }
            .render();
            assert!(
                s.contains("container mx-auto"),
                "container missing at {theme:?} / {padding:?}",
            );
        }
    }
}
