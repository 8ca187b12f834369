use loom::tokens::icons::{lucide_icon_inner, lucide_icon_svg, lucide_icons};

#[test]
fn vendor_set_is_non_empty() {
    assert!(lucide_icons().len() >= 30, "starter set should have ≥30 icons");
}

#[test]
fn vendor_set_has_no_duplicate_names() {
    let mut names: Vec<&str> = lucide_icons().iter().map(|(n, _)| *n).collect();
    names.sort_unstable();
    let dedup_len = {
        let mut v = names.clone();
        v.dedup();
        v.len()
    };
    assert_eq!(names.len(), dedup_len, "duplicate names in LUCIDE_ICONS");
}

#[test]
fn vendor_set_names_are_kebab_case_lowercase_alphanumeric() {
    for (name, _) in lucide_icons() {
        for c in name.chars() {
            assert!(
                c.is_ascii_lowercase() || c.is_ascii_digit() || c == '-',
                "icon {name:?} has invalid char {c:?}"
            );
        }
        assert!(!name.is_empty(), "empty icon name");
        assert!(!name.starts_with('-'), "icon {name:?} starts with -");
        assert!(!name.ends_with('-'), "icon {name:?} ends with -");
    }
}

#[test]
fn lucide_icon_inner_known() {
    let svg = lucide_icon_inner("arrow-right").expect("arrow-right");
    assert!(svg.contains(r#"<path"#));
}

#[test]
fn lucide_icon_inner_unknown_returns_none() {
    assert!(lucide_icon_inner("not-a-real-icon").is_none());
}

#[test]
fn lucide_icon_svg_with_label_has_role_img() {
    let s = lucide_icon_svg("search", 24, Some("Search the site")).unwrap();
    assert!(s.contains(r#"role="img""#));
    assert!(s.contains(r#"aria-label="Search the site""#));
    assert!(!s.contains(r#"aria-hidden="true""#));
    assert!(s.contains("lucide-search"));
}

#[test]
fn lucide_icon_svg_without_label_is_decorative_aria_hidden() {
    let s = lucide_icon_svg("heart", 16, None).unwrap();
    assert!(s.contains(r#"aria-hidden="true""#));
    assert!(!s.contains(r#"role="img""#));
    assert!(!s.contains(r#"aria-label="#));
}

#[test]
fn lucide_icon_svg_size_emitted_as_width_height() {
    let s = lucide_icon_svg("plus", 32, None).unwrap();
    assert!(s.contains(r#"width="32""#));
    assert!(s.contains(r#"height="32""#));
    assert!(s.contains(r#"viewBox="0 0 24 24""#));
}

#[test]
fn lucide_icon_svg_unknown_returns_none() {
    assert!(lucide_icon_svg("bogus", 16, None).is_none());
}

#[test]
fn lucide_icon_svg_aria_label_xss_safe() {
    let s = lucide_icon_svg("info", 16, Some(r#"</svg><script>alert(1)</script>"#)).unwrap();
    assert!(!s.contains("<script>"));
    assert!(s.contains("&lt;script&gt;"));
}

#[test]
fn lucide_icon_svg_uses_currentcolor_for_themability() {
    let s = lucide_icon_svg("star", 24, None).unwrap();
    assert!(s.contains(r#"stroke="currentColor""#));
    assert!(s.contains(r#"fill="none""#));
}

#[test]
fn every_vendored_icon_renders_a_complete_svg() {
    for (name, _) in lucide_icons() {
        let s = lucide_icon_svg(name, 24, None).expect(name);
        assert!(s.starts_with("<svg "), "{name}: bad svg start");
        assert!(s.ends_with("</svg>"), "{name}: bad svg end");
        assert!(s.contains(r#"viewBox="0 0 24 24""#), "{name}: missing viewBox");
    }
}
