use loom::icons::{all, arrow_right, phone, Icon};
use std::collections::HashSet;

#[test]
fn render_substitutes_class() {
    let s = phone().render();
    assert!(s.contains(r#"class="w-6 h-6 text-primary""#));
    assert!(s.contains("<svg"));
    assert!(!s.contains("__CLS__"));
}

#[test]
fn render_with_class_overrides() {
    let s = phone().render_with_class("w-4 h-4 text-white");
    assert!(s.contains(r#"class="w-4 h-4 text-white""#));
    assert!(!s.contains("text-primary"));
}

#[test]
fn ids_are_unique() {
    let mut seen = HashSet::new();
    for ico in all() {
        assert!(seen.insert(ico.id), "duplicate id: {}", ico.id);
    }
}

#[test]
fn every_icon_has_svg_body() {
    for ico in all() {
        assert!(ico.template.contains("<svg"), "{} missing svg open", ico.id);
        assert!(ico.template.contains("</svg>"), "{} missing svg close", ico.id);
        assert!(ico.template.contains("__CLS__"), "{} missing class slot", ico.id);
    }
}

#[test]
fn registry_size_meets_minimum() {
    assert!(all().len() >= 13, "registry shrunk below minimum");
}

#[test]
fn render_is_template_with_slot_filled() {
    let ico: Icon = arrow_right();
    assert_eq!(
        ico.render(),
        ico.template.replace("__CLS__", "w-4 h-4"),
    );
    assert_eq!(ico.id, "arrow-right");
}
