use loom::components::link::{TextLink, TextLinkSize, TextLinkVariant};
#[test]
fn primary_variant_emits_text_primary() {
    let s = TextLink::new("x", "/y").render();
    assert!(s.contains("text-primary"));
    assert!(!s.contains("font-semibold"));
    assert!(s.contains(r#"href="/y""#));
    assert!(s.contains(">x</a>"));
}

#[test]
fn primary_bold_emits_semibold() {
    let s = TextLink {
        label: "x",
        href: "/y",
        variant: TextLinkVariant::PrimaryBold,
        size: TextLinkSize::Default,
    }
    .render();
    assert!(s.contains("text-primary font-semibold"));
}

#[test]
fn underlined_emits_underline() {
    let s = TextLink {
        label: "x",
        href: "/y",
        variant: TextLinkVariant::Underlined,
        size: TextLinkSize::Default,
    }
    .render();
    assert!(s.contains("underline"));
}

#[test]
fn subtle_emits_hover_primary() {
    let s = TextLink {
        label: "x",
        href: "/y",
        variant: TextLinkVariant::Subtle,
        size: TextLinkSize::Default,
    }
    .render();
    assert!(s.contains("hover:text-primary"));
    assert!(s.contains("text-slate-600"));
}

#[test]
fn small_size_adds_text_sm() {
    let s = TextLink {
        label: "x",
        href: "/y",
        variant: TextLinkVariant::Underlined,
        size: TextLinkSize::Small,
    }
    .render();
    assert!(s.contains("text-sm"));
}

#[test]
fn default_size_omits_text_sm() {
    let s = TextLink::new("x", "/y").render();
    assert!(!s.contains("text-sm"));
}
