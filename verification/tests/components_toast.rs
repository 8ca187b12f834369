use loom::components::toast::{Toast, ToastDuration, ToastElevation, ToastShape, ToastTone};
fn fixture<'a>() -> Toast<'a> {
    Toast {
        title: "Saved",
        body: None,
        tone: ToastTone::Info,
        duration: ToastDuration::Default,
        shape: ToastShape::default(),
        elevation: ToastElevation::default(),
    }
}

#[test]
fn info_uses_polite_status_role() {
    let s = fixture().render();
    assert!(s.contains(r#"role="status""#));
    assert!(s.contains(r#"aria-live="polite""#));
}

#[test]
fn danger_uses_assertive_alert_role() {
    let s = Toast {
        title: "Failed",
        body: Some("Something broke"),
        tone: ToastTone::Danger,
        duration: ToastDuration::Sticky,
        shape: ToastShape::default(),
        elevation: ToastElevation::default(),
    }
    .render();
    assert!(s.contains(r#"role="alert""#));
    assert!(s.contains(r#"aria-live="assertive""#));
    assert!(s.contains("Something broke"));
    assert!(s.contains(r#"data-toast-duration="sticky""#));
}

#[test]
fn body_is_optional() {
    let s = Toast {
        title: "Saved",
        body: None,
        tone: ToastTone::Success,
        duration: ToastDuration::Short,
        shape: ToastShape::default(),
        elevation: ToastElevation::default(),
    }
    .render();
    assert!(s.contains("Saved"));
    // Without body, the second <p> should not appear.
    assert_eq!(s.matches("<p ").count(), 1);
}

#[test]
fn tone_drives_color_classes() {
    let warn = Toast {
        title: "Heads up",
        body: None,
        tone: ToastTone::Warning,
        duration: ToastDuration::Default,
        shape: ToastShape::default(),
        elevation: ToastElevation::default(),
    }
    .render();
    assert!(warn.contains("amber"));
    let danger = Toast {
        title: "Failure",
        body: None,
        tone: ToastTone::Danger,
        duration: ToastDuration::Sticky,
        shape: ToastShape::default(),
        elevation: ToastElevation::default(),
    }
    .render();
    assert!(danger.contains("red"));
}

#[test]
fn default_shape_rounded_with_shadow_md() {
    let s = fixture().render();
    assert!(s.contains("rounded-lg"));
    assert!(s.contains("shadow-md"));
    assert!(s.contains(r#"data-loom-toast-shape="rounded""#));
    assert!(s.contains(r#"data-loom-toast-elevation="soft""#));
}

#[test]
fn toast_square_shape_strips_radius() {
    let s = Toast {
        shape: ToastShape::Square,
        ..fixture()
    }
    .render();
    assert!(s.contains("rounded-none"));
    assert!(!s.contains("rounded-lg"));
    assert!(s.contains(r#"data-loom-toast-shape="square""#));
}

#[test]
fn flat_elevation_strips_shadow() {
    let s = Toast {
        elevation: ToastElevation::Flat,
        ..fixture()
    }
    .render();
    assert!(!s.contains("shadow-md"));
    assert!(s.contains(r#"data-loom-toast-elevation="flat""#));
}

#[test]
fn editorial_combo_square_and_flat() {
    let s = Toast {
        shape: ToastShape::Square,
        elevation: ToastElevation::Flat,
        ..fixture()
    }
    .render();
    assert!(s.contains("rounded-none"));
    assert!(!s.contains("shadow"));
}

#[test]
fn shape_and_elevation_defaults_back_compat() {
    assert!(matches!(ToastShape::default(), ToastShape::Rounded));
    assert!(matches!(ToastElevation::default(), ToastElevation::Soft));
}
