use loom::components::button::{Button, ButtonSize, ButtonType, ButtonVariant, Decoration, IconPosition};
#[test]
fn primary_md_renders_with_expected_classes() {
    let s = Button::new("Get a Quote", ButtonVariant::Primary, ButtonSize::Md)
        .render();
    assert!(s.contains("bg-primary"));
    assert!(s.contains("h-10"));
    assert!(s.contains(">Get a Quote<"));
    assert!(s.contains(r#"aria-label="Get a Quote""#));
}

#[test]
fn outline_success_uses_emerald() {
    let s = Button::new(
        "Encrypted Inquiry",
        ButtonVariant::OutlineSuccess,
        ButtonSize::Sm,
    )
    .render();
    assert!(s.contains("emerald"));
}

#[test]
fn aria_label_overrides_visible_label() {
    let btn = Button {
        label: "→",
        variant: ButtonVariant::Primary,
        size: ButtonSize::Md,
        aria_label: Some("Continue"),
        icon: None,
        decoration: Decoration::Plain,
        button_type: ButtonType::Button,
    };
    let s = btn.render();
    assert!(s.contains(r#"aria-label="Continue""#));
    assert!(s.contains(">→<"));
}

#[test]
fn focus_ring_classes_present_in_every_size() {
    for size in [ButtonSize::Sm, ButtonSize::Md, ButtonSize::Lg] {
        let s = Button::new("x", ButtonVariant::Primary, size)
            .render();
        assert!(
            s.contains("focus-visible:ring-2"),
            "missing focus ring at {size:?}"
        );
    }
}

#[test]
fn icon_before_renders_before_label() {
    let btn = Button {
        label: "Send",
        variant: ButtonVariant::Primary,
        size: ButtonSize::Md,
        aria_label: None,
        icon: Some(("<svg data-test=\"X\"></svg>", IconPosition::Before)),
        decoration: Decoration::Plain,
        button_type: ButtonType::Button,
    };
    let s = btn.render();
    // Anchor on inner-content positions, not the aria-label attribute.
    let svg_pos = s.find("svg data-test=\"X\"").unwrap();
    let inner_label_pos = s.find(">Send<").expect("inner label boundary");
    assert!(
        svg_pos < inner_label_pos,
        "svg pos {svg_pos} not before inner label pos {inner_label_pos}"
    );
}

#[test]
fn icon_after_renders_after_label() {
    let btn = Button {
        label: "Next",
        variant: ButtonVariant::Primary,
        size: ButtonSize::Md,
        aria_label: None,
        icon: Some(("<svg data-test=\"Y\"></svg>", IconPosition::After)),
        decoration: Decoration::Plain,
        button_type: ButtonType::Button,
    };
    let s = btn.render();
    let svg_pos = s.find("svg data-test=\"Y\"").unwrap();
    let inner_label_pos = s.find(">Next<").expect("inner label boundary");
    assert!(
        inner_label_pos < svg_pos,
        "inner label pos {inner_label_pos} not before svg pos {svg_pos}"
    );
}

#[test]
fn soft_shadow_decoration_emits_shadow_classes() {
    let btn = Button {
        label: "x",
        variant: ButtonVariant::Primary,
        size: ButtonSize::Lg,
        aria_label: None,
        icon: None,
        decoration: Decoration::SoftShadow,
        button_type: ButtonType::Button,
    };
    let s = btn.render();
    assert!(s.contains("shadow-lg"));
    assert!(s.contains("shadow-primary/20"));
}

#[test]
fn no_decoration_emits_no_shadow() {
    let s = Button::new("x", ButtonVariant::Primary, ButtonSize::Md)
        .render();
    assert!(!s.contains("shadow-lg"));
}

#[test]
fn default_button_type_renders_type_button() {
    let s = Button::new("x", ButtonVariant::Primary, ButtonSize::Md)
        .render();
    assert!(s.contains(r#"type="button""#));
}

#[test]
fn submit_button_renders_type_submit() {
    let btn = Button {
        label: "Send",
        variant: ButtonVariant::Primary,
        size: ButtonSize::Lg,
        aria_label: None,
        icon: None,
        decoration: Decoration::SoftShadow,
        button_type: ButtonType::Submit,
    };
    let s = btn.render();
    assert!(
        s.contains(r#"type="submit""#),
        "submit form-action button missing type=submit: {s}"
    );
}

#[test]
fn reset_button_renders_type_reset() {
    let btn = Button {
        label: "Clear",
        variant: ButtonVariant::Outline,
        size: ButtonSize::Md,
        aria_label: None,
        icon: None,
        decoration: Decoration::Plain,
        button_type: ButtonType::Reset,
    };
    let s = btn.render();
    assert!(s.contains(r#"type="reset""#));
}
