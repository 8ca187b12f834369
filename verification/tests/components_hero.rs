use loom::components::hero::{Hero, HeroBackground, HeroEditorial, HeroEditorialBackground};
#[test]
fn renders_eyebrow_when_present() {
    let s = Hero {
        eyebrow: Some("For law firms"),
        headline_lead: "IT infrastructure",
        headline_accent: Some("you can rest on"),
        subheadline: "Built for the obligation that shapes your practice.",
        cta: None,
        background: HeroBackground::GridLight,
    }
    .render();
    assert!(s.contains(">For law firms<"));
    assert!(s.contains(">IT infrastructure"));
    assert!(s.contains("text-primary"));
    assert!(s.contains(">you can rest on<"));
}

#[test]
fn omits_eyebrow_when_none() {
    let s = Hero {
        eyebrow: None,
        headline_lead: "Hello",
        headline_accent: None,
        subheadline: "World",
        cta: None,
        background: HeroBackground::Plain,
    }
    .render();
    assert!(!s.contains("rounded-full"));
    assert!(s.contains(">Hello"));
}

#[test]
fn plain_background_skips_grid_decoration() {
    let s = Hero {
        eyebrow: None,
        headline_lead: "x",
        headline_accent: None,
        subheadline: "y",
        cta: None,
        background: HeroBackground::Plain,
    }
    .render();
    assert!(!s.contains("linear-gradient"));
    assert!(s.contains("bg-white"));
}

#[test]
fn grid_background_emits_decoration() {
    let s = Hero {
        eyebrow: None,
        headline_lead: "x",
        headline_accent: None,
        subheadline: "y",
        cta: None,
        background: HeroBackground::GridLight,
    }
    .render();
    assert!(s.contains("linear-gradient"));
    assert!(s.contains("bg-slate-50"));
}

#[test]
fn cta_markup_is_preserved() {
    let cta = "<a href=\"/contact\">Schedule</a>";
    let s = Hero {
        eyebrow: None,
        headline_lead: "x",
        headline_accent: None,
        subheadline: "y",
        cta: Some(cta),
        background: HeroBackground::GridLight,
    }
    .render();
    assert!(s.contains(r#"href="/contact""#));
    assert!(s.contains(">Schedule<"));
}

#[test]
fn animation_classes_present() {
    let s = Hero {
        eyebrow: Some("x"),
        headline_lead: "y",
        headline_accent: None,
        subheadline: "z",
        cta: None,
        background: HeroBackground::GridLight,
    }
    .render();
    assert!(s.contains("animate-fade-in-up"));
    assert!(s.contains("delay-1"));
    assert!(s.contains("delay-2"));
}

// ----- HeroEditorial -----

#[test]
fn editorial_renders_kicker_when_present() {
    let s = HeroEditorial {
        kicker: Some("DISPATCH · 2026-05-20"),
        headline: "The substrate carries the page",
        headline_accent: None,
        lede: "Editorial composition replaces the centered SaaS shape.",
        cta: None,
        decoration: None,
        background: HeroEditorialBackground::Slate,
    }
    .render();
    assert!(s.contains(">DISPATCH · 2026-05-20<"));
    assert!(s.contains("font-mono"));
    assert!(s.contains("uppercase"));
    // The kicker is NOT a pill — must not carry rounded-full /
    // bg-primary/10 / border ornaments.
    assert!(!s.contains("rounded-full"));
    assert!(!s.contains("bg-primary/10"));
}

#[test]
fn editorial_omits_kicker_when_none() {
    let s = HeroEditorial {
        kicker: None,
        headline: "Hello",
        headline_accent: None,
        lede: "World",
        cta: None,
        decoration: None,
        background: HeroEditorialBackground::Plain,
    }
    .render();
    assert!(!s.contains("uppercase tracking-widest"));
    assert!(s.contains(">Hello"));
}

#[test]
fn editorial_two_column_when_decoration_present() {
    let deco = "<pre>code shell here</pre>";
    let s = HeroEditorial {
        kicker: None,
        headline: "x",
        headline_accent: None,
        lede: "y",
        cta: None,
        decoration: Some(deco),
        background: HeroEditorialBackground::Slate,
    }
    .render();
    assert!(s.contains("md:grid-cols-[3fr_2fr]"));
    assert!(s.contains(">code shell here<"));
}

#[test]
fn editorial_single_column_without_decoration() {
    let s = HeroEditorial {
        kicker: None,
        headline: "x",
        headline_accent: None,
        lede: "y",
        cta: None,
        decoration: None,
        background: HeroEditorialBackground::Slate,
    }
    .render();
    assert!(s.contains("md:grid-cols-1"));
    assert!(!s.contains("md:grid-cols-[3fr_2fr]"));
}

#[test]
fn editorial_amoled_background_uses_true_black() {
    let s = HeroEditorial {
        kicker: Some("k"),
        headline: "h",
        headline_accent: None,
        lede: "l",
        cta: None,
        decoration: None,
        background: HeroEditorialBackground::Amoled,
    }
    .render();
    assert!(s.contains("bg-black"));
    assert!(s.contains("text-slate-100"));
    // Kicker tone shifts darker for AMOLED contrast.
    assert!(s.contains("text-slate-400"));
}

#[test]
fn editorial_no_fade_in_animations() {
    // The SaaS Hero ships `animate-fade-in-up` with delay-1/2/3;
    // HeroEditorial deliberately omits them so reduced-motion
    // users + editorial design intent win by default.
    let s = HeroEditorial {
        kicker: Some("k"),
        headline: "h",
        headline_accent: Some("accent"),
        lede: "l",
        cta: None,
        decoration: None,
        background: HeroEditorialBackground::Slate,
    }
    .render();
    assert!(!s.contains("animate-fade-in-up"));
    assert!(!s.contains("delay-1"));
}

#[test]
fn editorial_no_gradient_overlay() {
    // The SaaS Hero emits `linear-gradient(...)` and a skewed
    // brand accent band; HeroEditorial must NOT.
    let s = HeroEditorial {
        kicker: None,
        headline: "x",
        headline_accent: None,
        lede: "y",
        cta: None,
        decoration: None,
        background: HeroEditorialBackground::Slate,
    }
    .render();
    assert!(!s.contains("linear-gradient"));
    assert!(!s.contains("skew-x"));
    assert!(!s.contains("from-primary/5"));
}

#[test]
fn editorial_headline_accent_renders_in_primary() {
    let s = HeroEditorial {
        kicker: None,
        headline: "Substrate carries",
        headline_accent: Some("the page"),
        lede: "x",
        cta: None,
        decoration: None,
        background: HeroEditorialBackground::Plain,
    }
    .render();
    assert!(s.contains(">Substrate carries"));
    assert!(s.contains("text-primary"));
    assert!(s.contains(">the page<"));
}

#[test]
fn editorial_cta_markup_preserved() {
    let cta = "<a href=\"/dispatch\">Read the dispatch</a>";
    let s = HeroEditorial {
        kicker: None,
        headline: "x",
        headline_accent: None,
        lede: "y",
        cta: Some(cta),
        decoration: None,
        background: HeroEditorialBackground::Slate,
    }
    .render();
    assert!(s.contains(r#"href="/dispatch""#));
    assert!(s.contains(">Read the dispatch<"));
}

#[test]
fn editorial_lede_uses_max_w_prose_not_max_w_2xl() {
    // SaaS Hero clamps lede width with `max-w-2xl`; the editorial
    // sibling lets prose set its own measure via `max-w-prose`.
    let s = HeroEditorial {
        kicker: None,
        headline: "x",
        headline_accent: None,
        lede: "Long-form editorial prose should set its own measure.",
        cta: None,
        decoration: None,
        background: HeroEditorialBackground::Slate,
    }
    .render();
    assert!(s.contains("max-w-prose"));
    assert!(!s.contains("max-w-2xl"));
}
