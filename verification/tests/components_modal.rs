use loom::components::modal::{Modal, ModalElevation, ModalShape, ModalSize};
fn fixture<'a>() -> Modal<'a> {
    Modal {
        id: "test-modal",
        title: "Confirm",
        body: "<p>Are you sure?</p>".to_string(),
        footer: "<button>OK</button>".to_string(),
        size: ModalSize::Md,
        close_label: "Close confirm dialog",
        shape: ModalShape::default(),
        elevation: ModalElevation::default(),
    }
}

#[test]
fn renders_native_dialog_with_aria_label() {
    let s = fixture().render();
    assert!(s.contains("<dialog"));
    assert!(s.contains(r#"aria-labelledby="test-modal-title""#));
    assert!(s.contains(r#"id="test-modal-title""#));
}

#[test]
fn close_button_uses_dialog_form_method() {
    let s = fixture().render();
    assert!(s.contains(r#"method="dialog""#));
    assert!(s.contains(r#"aria-label="Close confirm dialog""#));
}

#[test]
fn size_maps_to_max_width_class() {
    let small = Modal {
        size: ModalSize::Sm,
        ..fixture()
    }
    .render();
    assert!(small.contains("max-w-sm"));
    let large = Modal {
        size: ModalSize::Lg,
        ..fixture()
    }
    .render();
    assert!(large.contains("max-w-2xl"));
}

#[test]
fn default_shape_is_rounded_with_shadow_2xl() {
    let s = fixture().render();
    assert!(s.contains("rounded-xl"));
    assert!(s.contains("shadow-2xl"));
    assert!(s.contains(r#"data-loom-modal-shape="rounded""#));
    assert!(s.contains(r#"data-loom-modal-elevation="pronounced""#));
}

#[test]
fn square_shape_strips_rounded_corners() {
    let s = Modal {
        shape: ModalShape::Square,
        ..fixture()
    }
    .render();
    assert!(s.contains("rounded-none"));
    assert!(!s.contains("rounded-xl"));
    assert!(s.contains(r#"data-loom-modal-shape="square""#));
}

#[test]
fn square_shape_cascades_to_close_button() {
    // Close button radius follows modal shape.
    let s = Modal {
        shape: ModalShape::Square,
        ..fixture()
    }
    .render();
    // Close-button area shouldn't carry rounded-md either.
    assert!(!s.contains("rounded-md"));
}

#[test]
fn flat_elevation_emits_no_shadow() {
    let s = Modal {
        elevation: ModalElevation::Flat,
        ..fixture()
    }
    .render();
    assert!(!s.contains("shadow-2xl"));
    assert!(!s.contains("shadow-lg"));
    assert!(s.contains(r#"data-loom-modal-elevation="flat""#));
}

#[test]
fn soft_elevation_uses_shadow_lg() {
    let s = Modal {
        elevation: ModalElevation::Soft,
        ..fixture()
    }
    .render();
    assert!(s.contains("shadow-lg"));
    assert!(!s.contains("shadow-2xl"));
    assert!(s.contains(r#"data-loom-modal-elevation="soft""#));
}

#[test]
fn editorial_modal_combines_square_and_flat() {
    // The composition: editorial dialog with no rounded corners
    // and no shadow — a flat typographic panel.
    let s = Modal {
        shape: ModalShape::Square,
        elevation: ModalElevation::Flat,
        ..fixture()
    }
    .render();
    assert!(s.contains("rounded-none"));
    assert!(!s.contains("shadow"));
    assert!(s.contains(r#"data-loom-modal-shape="square""#));
    assert!(s.contains(r#"data-loom-modal-elevation="flat""#));
}

#[test]
fn modal_shape_default_is_rounded() {
    assert!(matches!(ModalShape::default(), ModalShape::Rounded));
}

#[test]
fn modal_elevation_default_is_pronounced() {
    assert!(matches!(
        ModalElevation::default(),
        ModalElevation::Pronounced
    ));
}
