use loom::components::form::{FormDensity, FormStyle, InputType, Select, SelectOption, TextArea, TextInput};
#[test]
fn text_input_binds_label_to_id() {
    let i = TextInput {
        id: "contact-email",
        name: "email",
        label: "Email Address",
        input_type: InputType::Email,
        placeholder: Some("you@example.com"),
        max_length: Some(200),
        required: true,
        style: FormStyle::default(),
        density: FormDensity::default(),
    };
    let s = i.render();
    assert!(s.contains(r#"for="contact-email""#));
    assert!(s.contains(r#"id="contact-email""#));
    assert!(s.contains(r#"name="email""#));
    assert!(s.contains(r#"type="email""#));
    assert!(s.contains(r#"placeholder="you@example.com""#));
    assert!(s.contains(r#"maxlength="200""#));
    assert!(s.contains("required"));
    assert!(s.contains(">Email Address<"));
    // Default style is Rounded — rounded-md class present.
    assert!(s.contains("rounded-md"));
    assert!(s.contains("bg-slate-50"));
    assert!(s.contains(r#"data-loom-form-style="rounded""#));
}

#[test]
fn text_input_optional_attrs_omitted_when_none() {
    let i = TextInput {
        id: "x",
        name: "x",
        label: "X",
        input_type: InputType::Text,
        placeholder: None,
        max_length: None,
        required: false,
        style: FormStyle::default(),
        density: FormDensity::default(),
    };
    let s = i.render();
    assert!(!s.contains("placeholder"));
    assert!(!s.contains("maxlength"));
    assert!(!s.contains(" required"));
}

#[test]
fn text_input_editorial_style_strips_rounded_and_bg() {
    let i = TextInput {
        id: "x",
        name: "x",
        label: "X",
        input_type: InputType::Text,
        placeholder: None,
        max_length: None,
        required: false,
        style: FormStyle::Editorial,
        density: FormDensity::default(),
    };
    let s = i.render();
    // Editorial style: no rounded, no slate-50 bg.
    assert!(!s.contains("rounded-md"));
    assert!(!s.contains("bg-slate-50"));
    assert!(s.contains("rounded-none"));
    assert!(s.contains("border-b"));
    assert!(s.contains("bg-transparent"));
    assert!(s.contains(r#"data-loom-form-style="editorial""#));
}

#[test]
fn text_input_minimal_style_no_resting_border() {
    let i = TextInput {
        id: "x",
        name: "x",
        label: "X",
        input_type: InputType::Text,
        placeholder: None,
        max_length: None,
        required: false,
        style: FormStyle::Minimal,
        density: FormDensity::default(),
    };
    let s = i.render();
    assert!(s.contains("border-transparent"));
    assert!(s.contains("focus-visible:border-slate-400"));
    assert!(s.contains(r#"data-loom-form-style="minimal""#));
}

#[test]
fn text_input_compact_density_uses_h9() {
    let i = TextInput {
        id: "x",
        name: "x",
        label: "X",
        input_type: InputType::Text,
        placeholder: None,
        max_length: None,
        required: false,
        style: FormStyle::default(),
        density: FormDensity::Compact,
    };
    let s = i.render();
    assert!(s.contains("h-9"));
    assert!(!s.contains("h-12"));
}

#[test]
fn text_input_comfortable_density_uses_h12() {
    let i = TextInput {
        id: "x",
        name: "x",
        label: "X",
        input_type: InputType::Text,
        placeholder: None,
        max_length: None,
        required: false,
        style: FormStyle::default(),
        density: FormDensity::Comfortable,
    };
    let s = i.render();
    assert!(s.contains("h-12"));
    assert!(!s.contains("h-9"));
}

#[test]
fn textarea_renders_with_required() {
    let t = TextArea {
        id: "msg",
        name: "message",
        label: "Message",
        placeholder: Some("Your message..."),
        max_length: Some(5000),
        required: true,
        style: FormStyle::default(),
        density: FormDensity::default(),
    };
    let s = t.render();
    assert!(s.contains("<textarea"));
    assert!(s.contains(r#"for="msg""#));
    assert!(s.contains(r#"id="msg""#));
    assert!(s.contains(r#"maxlength="5000""#));
    assert!(s.contains("required"));
    // Textarea uses min-h-[150px] regardless of density.
    assert!(s.contains("min-h-[150px]"));
    assert!(s.contains("resize-none"));
}

#[test]
fn textarea_editorial_style_strips_pill_chrome() {
    let t = TextArea {
        id: "x",
        name: "x",
        label: "X",
        placeholder: None,
        max_length: None,
        required: false,
        style: FormStyle::Editorial,
        density: FormDensity::default(),
    };
    let s = t.render();
    assert!(!s.contains("rounded-md"));
    assert!(s.contains("rounded-none"));
    assert!(s.contains("border-b"));
    assert!(s.contains("bg-transparent"));
}

#[test]
fn select_renders_options_in_order() {
    let opts = [
        SelectOption {
            value: "",
            label: "Pick one",
        },
        SelectOption {
            value: "a",
            label: "Alpha",
        },
        SelectOption {
            value: "b",
            label: "Beta",
        },
    ];
    let sel = Select {
        id: "service",
        name: "service",
        label: "Service",
        options: &opts,
        style: FormStyle::default(),
        density: FormDensity::default(),
    };
    let s = sel.render();
    assert!(s.contains(r#"<select id="service""#));
    let pick_pos = s.find("Pick one").unwrap();
    let alpha_pos = s.find("Alpha").unwrap();
    let beta_pos = s.find("Beta").unwrap();
    assert!(pick_pos < alpha_pos);
    assert!(alpha_pos < beta_pos);
}

#[test]
fn select_editorial_style_strips_pill_chrome() {
    let opts = [SelectOption { value: "a", label: "Alpha" }];
    let sel = Select {
        id: "x",
        name: "x",
        label: "X",
        options: &opts,
        style: FormStyle::Editorial,
        density: FormDensity::default(),
    };
    let s = sel.render();
    assert!(!s.contains("rounded-md"));
    assert!(!s.contains("bg-slate-50"));
    assert!(s.contains("rounded-none"));
    assert!(s.contains("border-b"));
}

#[test]
fn form_style_default_is_rounded() {
    // Back-compat guarantee: code that omits the style field via
    // FormStyle::default() gets the legacy SaaS shape.
    assert!(matches!(FormStyle::default(), FormStyle::Rounded));
    assert!(matches!(FormDensity::default(), FormDensity::Comfortable));
}

#[test]
fn input_type_emits_correct_html_attr() {
    for (it, expected) in [
        (InputType::Text, "text"),
        (InputType::Email, "email"),
        (InputType::Tel, "tel"),
        (InputType::Url, "url"),
    ] {
        assert_eq!(it.html(), expected);
    }
}
