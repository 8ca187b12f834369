use loom::lint::css::{
    css_file_is_linted, css_findings_given, css_patterns, lint_css_file, run_css, run_css_default,
    CssViolationKind,
};
use loom::lint::rust::{
    class_literal_violations, display_class, is_allowed_line, rust_file_is_linted, run,
    run_default, LintError,
};

const ROOT: &str = "/tmp/.tmpQ7rLx2";

/// The files of a walked directory, each path under the walk root.
fn tree(files: &[(&str, &str)]) -> Vec<(String, String)> {
    files
        .iter()
        .map(|(rel, content)| (format!("{ROOT}/{rel}"), content.to_string()))
        .collect()
}

#[test]
fn flags_chained_utilities_in_view() {
    let files = tree(&[(
        "src/views/home.rs",
        r#"fn x() { let _ = "flex items-center gap-2 px-4"; }"#,
    )]);
    let v = run_default(&files).unwrap();
    assert!(!v.is_empty(), "expected violation");
}

#[test]
fn allowlist_skips_components_crate() {
    let files = tree(&[(
        "loom-components/src/x.rs",
        r#"fn x() { let _ = "flex items-center gap-2 px-4 py-2"; }"#,
    )]);
    let v = run_default(&files).unwrap();
    assert!(v.is_empty(), "components crate should be allowlisted");
}

#[test]
fn single_token_strings_are_not_flagged() {
    let files = tree(&[("src/views/home.rs", r#"fn x() { let _ = "hidden"; }"#)]);
    let v = run_default(&files).unwrap();
    assert!(v.is_empty(), "single utility shouldn't fire");
}

#[test]
fn allowlist_skips_layout_rs() {
    let files = tree(&[(
        "src/views/layout.rs",
        r#"fn x() { let _ = "flex items-center gap-4 px-4"; }"#,
    )]);
    let v = run_default(&files).unwrap();
    assert!(v.is_empty(), "layout.rs should be allowlisted");
}

#[test]
fn loom_allow_marker_skips_line() {
    let files = tree(&[(
        "src/views/example.rs",
        "fn x() { let _ = \"flex items-center gap-2 px-4\"; } // loom-allow: test-assertion literal\n",
    )]);
    let v = run_default(&files).unwrap();
    assert!(v.is_empty(), "loom-allow marker should suppress: got {v:?}");
}

#[test]
fn loom_allow_marker_only_skips_marked_line() {
    let files = tree(&[(
        "src/views/example.rs",
        "fn a() { let _ = \"flex items-center gap-2 px-4\"; } // loom-allow: ok\nfn b() { let _ = \"grid items-center px-4\"; }\n",
    )]);
    let v = run_default(&files).unwrap();
    assert_eq!(v.len(), 1, "marker should not blanket-allow file: {v:?}");
    assert_eq!(v[0].line, 2, "violation should be on the unmarked line");
}

#[test]
fn css_raw_hex_colour_flagged() {
    let files = tree(&[("src/style.css", ".btn { color: #ff0000; }\n")]);
    let v = run_css_default(&files).unwrap();
    assert!(
        v.iter().any(|cv| matches!(cv.kind, CssViolationKind::RawColour)),
        "missing RawColour: {v:?}",
    );
}

#[test]
fn css_raw_spacing_flagged() {
    let files = tree(&[("src/style.css", ".btn { padding: 12px; }\n")]);
    let v = run_css_default(&files).unwrap();
    assert!(
        v.iter().any(|cv| matches!(cv.kind, CssViolationKind::RawSpacing)),
        "missing RawSpacing: {v:?}",
    );
}

#[test]
fn css_var_loom_skipped() {
    let files = tree(&[(
        "src/style.css",
        ".btn { color: var(--loom-color-primary); padding: var(--loom-space-4); }\n",
    )]);
    let v = run_css_default(&files).unwrap();
    assert!(v.is_empty(), "tokenised line should pass: {v:?}");
}

#[test]
fn css_root_block_is_token_source_skipped() {
    let files = tree(&[(
        "src/style.css",
        ":root {\n  --primary: #ff0000;\n  --pad: 12px;\n}\n.btn { background: var(--primary); padding: var(--pad); }\n",
    )]);
    let v = run_css_default(&files).unwrap();
    assert!(v.is_empty(), ":root block should be exempt: {v:?}");
}

#[test]
fn css_loom_tokens_path_skipped() {
    let files = tree(&[(
        "static/loom-tokens.css",
        ".raw-stuff { color: #ff0000; padding: 12px; }\n",
    )]);
    let v = run_css_default(&files).unwrap();
    assert!(v.is_empty(), "loom-tokens.css should be path-exempt: {v:?}");
}

#[test]
fn css_loom_allow_marker_skips() {
    let files = tree(&[(
        "src/style.css",
        ".btn { color: #ff0000; } /* loom-allow: third-party-required */\n",
    )]);
    let v = run_css_default(&files).unwrap();
    assert!(v.is_empty(), "loom-allow marker should suppress: {v:?}");
}

#[test]
fn css_node_modules_skipped() {
    let owned: Vec<(String, String)> = (0..3)
        .map(|i| {
            (
                format!("{ROOT}/node_modules/pkg{i}/dist.css"),
                ".x { color: #ff0000; }\n".to_string(),
            )
        })
        .collect();
    let v = run_css_default(&owned).unwrap();
    assert!(v.is_empty(), "node_modules should be ignored: {v:?}");
}

// -------- further cases --------

#[test]
fn rust_violation_reports_path_line_and_class_string() {
    let files = tree(&[(
        "src/views/home.rs",
        "fn a() {}\nfn x() { let _ = \"flex items-center gap-2 px-4\"; }\n",
    )]);
    let v = run_default(&files).unwrap();
    assert_eq!(v.len(), 1);
    assert_eq!(v[0].path, format!("{ROOT}/src/views/home.rs"));
    assert_eq!(v[0].line, 2);
    assert_eq!(v[0].class_string, "flex items-center gap-2 px-4");
}

#[test]
fn rust_two_literals_on_one_line_give_two_violations() {
    let files = tree(&[(
        "src/views/home.rs",
        r#"let a = "flex items-center gap-2"; let b = "grid px-4 py-2";"#,
    )]);
    let v = run_default(&files).unwrap();
    assert_eq!(v.len(), 2);
    assert_eq!(v[0].class_string, "flex items-center gap-2");
    assert_eq!(v[1].class_string, "grid px-4 py-2");
}

#[test]
fn rust_tests_and_target_dirs_and_other_extensions_skipped() {
    let body = r#"fn x() { let _ = "flex items-center gap-2 px-4"; }"#;
    let files = tree(&[
        ("crate/tests/a.rs", body),
        ("crate/target/debug/b.rs", body),
        ("src/views/c.txt", body),
        ("src/views/.rs", body),
    ]);
    let v = run_default(&files).unwrap();
    assert!(v.is_empty(), "{v:?}");
}

#[test]
fn rust_custom_allowlist_is_honoured() {
    let body = r#"fn x() { let _ = "flex items-center gap-2 px-4"; }"#;
    let files = tree(&[("src/views/home.rs", body), ("src/admin/page.rs", body)]);
    let v = run(&files, &["admin/"]).unwrap();
    assert_eq!(v.len(), 1);
    assert!(v[0].path.ends_with("src/views/home.rs"));
}

#[test]
fn rust_short_literals_are_not_class_strings() {
    // Seven characters between the quotes: below the literal length floor.
    let files = tree(&[("src/views/home.rs", r#"let a = "p-4 m-2";"#)]);
    let v = run_default(&files).unwrap();
    assert!(v.is_empty(), "{v:?}");
}

#[test]
fn rust_breakpoint_prefixed_utilities_count() {
    let files = tree(&[("src/views/home.rs", r#"let a = "md:flex hover:bg-red-500";"#)]);
    let v = run_default(&files).unwrap();
    assert_eq!(v.len(), 1);
}

#[test]
fn long_class_strings_are_cut_to_117_characters_and_dots() {
    let long = "px-4 ".repeat(30);
    let shown = display_class(&long);
    assert_eq!(shown.chars().count(), 120);
    assert!(shown.ends_with("..."));
    assert_eq!(&shown[..117], &long[..117]);
    assert_eq!(display_class("flex px-4"), "flex px-4");
    let exactly = "x".repeat(120);
    assert_eq!(display_class(&exactly), exactly);
}

#[test]
fn long_class_string_is_cut_by_characters_never_inside_one() {
    // 116 ASCII characters, a two-byte character, then ten more.
    let s = format!("{}é{}", "a".repeat(116), "b".repeat(10));
    assert_eq!(display_class(&s), format!("{}é...", "a".repeat(116)));
    // 120 characters but more bytes: shown whole.
    let wide = "é".repeat(120);
    assert_eq!(display_class(&wide), wide);
    // Inside a flagged literal the run reports it, cut at 117 characters.
    let literal = format!("px-4 py-2 {}é{}", "a".repeat(106), "b".repeat(10));
    let text = format!("let _ = \"{literal}\";");
    let files = tree(&[("src/v.rs", text.as_str())]);
    let v = run(&files, &[]).unwrap();
    assert_eq!(v.len(), 1);
    assert_eq!(v[0].line, 1);
    assert!(v[0].class_string.chars().count() <= 120);
    assert_eq!(v[0].class_string, format!("{}...", literal.chars().take(117).collect::<String>()));
}

#[test]
fn loom_allow_marker_needs_a_reason() {
    let files = tree(&[(
        "src/views/a.rs",
        "let _ = \"flex items-center gap-2 px-4\"; // loom-allow:\n",
    )]);
    let v = run(&files, &[]).unwrap();
    assert_eq!(v.len(), 1, "{v:?}");
    assert_eq!(v[0].line, 1);
    let files = tree(&[(
        "src/views/b.rs",
        "let _ = \"flex items-center gap-2 px-4\"; // loom-allow:   \n",
    )]);
    assert_eq!(run(&files, &[]).unwrap().len(), 1);
    assert!(is_allowed_line("x // loom-allow: reason"));
    assert!(!is_allowed_line("x // loom-allow:"));
    assert!(!is_allowed_line("x"));
}

#[test]
fn class_literal_violations_follow_the_given_counts() {
    let caps = vec![
        vec![Some("\"flex px-4\"".to_string()), Some("flex px-4".to_string())],
        vec![Some("\"hidden x\"".to_string()), Some("hidden x".to_string())],
        vec![Some("\"grid p-2 m-1\"".to_string()), Some("grid p-2 m-1".to_string())],
    ];
    let v = class_literal_violations("a.rs", 4, &caps, &vec![2, 1, 3]).unwrap();
    assert_eq!(v.len(), 2);
    assert_eq!(v[0].class_string, "flex px-4");
    assert_eq!(v[1].class_string, "grid p-2 m-1");
    assert!(v.iter().all(|x| x.line == 4 && x.path == "a.rs"));
    let missing = vec![vec![Some("\"x\"".to_string())]];
    assert!(matches!(
        class_literal_violations("a.rs", 4, &missing, &vec![5]),
        Err(LintError::MissingGroup { line: 4, .. })
    ));
}

#[test]
fn css_findings_follow_the_given_matches() {
    let caps = |n: &str, u: &str| vec![Some(format!("{n}{u}")), Some(n.to_string()), Some(u.to_string())];
    let line = "  margin: 12px;  ";
    let v = css_findings_given("a.css", 3, line, false, &vec![caps("12", "px")], false).unwrap();
    assert_eq!(v.len(), 1);
    assert_eq!(v[0].kind, CssViolationKind::RawSpacing);
    assert_eq!(v[0].matched, "margin: 12px;");
    // A border-like declaration, or lengths all below the floor, are not spacing.
    assert!(css_findings_given("a.css", 3, line, false, &vec![caps("12", "px")], true).unwrap().is_empty());
    assert!(css_findings_given("a.css", 3, line, false, &vec![caps("3", "px"), caps("0.2", "rem")], false)
        .unwrap()
        .is_empty());
    // A colour match alone gives a colour violation.
    let v = css_findings_given("a.css", 3, line, true, &vec![], false).unwrap();
    assert_eq!(v.len(), 1);
    assert_eq!(v[0].kind, CssViolationKind::RawColour);
    // A number that is not digits[.digits] is refused.
    assert!(matches!(
        css_findings_given("a.css", 3, line, false, &vec![caps("1e5", "px")], false),
        Err(LintError::IrregularNumber { line: 3, .. })
    ));
    assert!(matches!(
        css_findings_given("a.css", 3, line, false, &vec![vec![Some("4px".to_string())]], false),
        Err(LintError::MissingGroup { line: 3, .. })
    ));
}

#[test]
fn css_border_width_and_sub_token_lines_pass() {
    let files = tree(&[("src/a.css", "  border-width: 12px;\n  margin: 2px;\n")]);
    assert!(run_css(&files, &[]).unwrap().is_empty());
}

#[test]
fn rust_file_filter() {
    assert!(rust_file_is_linted("/r/src/views/home.rs", &[]));
    assert!(!rust_file_is_linted("/r/src/views/home.rs", &["views/"]));
    assert!(!rust_file_is_linted("/r/tests/it.rs", &[]));
    assert!(!rust_file_is_linted("/r/src/lib.rsx", &[]));
}

#[test]
fn css_file_filter() {
    assert!(css_file_is_linted("/r/src/style.css", &[]));
    assert!(css_file_is_linted("/r/src/style.scss", &[]));
    assert!(!css_file_is_linted("/r/src/style.less", &[]));
    assert!(!css_file_is_linted("/r/dist/style.css", &[]));
    assert!(!css_file_is_linted("/r/target/style.css", &[]));
    assert!(!css_file_is_linted("/r/static/index-abc123.css", &[]));
    assert!(!css_file_is_linted("/r/design-tokens/base.css", &[]));
    assert!(!css_file_is_linted("/r/src/snapshots/x.css", &["/snapshots/"]));
}

#[test]
fn css_snapshot_dir_skipped_by_default() {
    let files = tree(&[("src/snapshots/style.css", ".x { color: #ff0000; }\n")]);
    assert!(run_css_default(&files).unwrap().is_empty());
    assert_eq!(run_css(&files, &[]).unwrap().len(), 1);
}

#[test]
fn css_violation_reports_trimmed_line() {
    let files = tree(&[("src/style.css", "a {}\n    .btn { color: #abc; }   \n")]);
    let v = run_css_default(&files).unwrap();
    assert_eq!(v.len(), 1);
    assert_eq!(v[0].line, 2);
    assert_eq!(v[0].kind, CssViolationKind::RawColour);
    assert_eq!(v[0].matched, ".btn { color: #abc; }");
}

#[test]
fn css_matched_line_is_cut_to_120_characters() {
    let line = format!(".btn {{ color: #ff0000; }} /* {} */", "é".repeat(200));
    let v = run_css_default(&tree(&[("src/style.css", line.as_str())])).unwrap();
    assert_eq!(v.len(), 1);
    assert_eq!(v[0].matched.chars().count(), 120);
    assert!(line.starts_with(&v[0].matched));
}

#[test]
fn css_colour_and_spacing_on_one_line_give_two_violations() {
    let v = run_css_default(&tree(&[("src/a.css", ".x { color: rgba(0, 0, 0, 0.5); margin: 1rem; }")]))
        .unwrap();
    assert_eq!(v.len(), 2);
    assert_eq!(v[0].kind, CssViolationKind::RawColour);
    assert_eq!(v[1].kind, CssViolationKind::RawSpacing);
}

#[test]
fn css_sub_token_lengths_are_not_spacing() {
    for line in [
        ".x { margin: 3px; }",
        ".x { margin: 0.2rem; }",
        ".x { margin: 0.24em; }",
        ".x { margin: 3.9999998px; }",
        ".x { margin: 0.2499999925rem; }",
        ".x { margin: 1px 2px 3px; }",
    ] {
        let v = run_css_default(&tree(&[("src/a.css", line)])).unwrap();
        assert!(v.is_empty(), "{line}: {v:?}");
    }
}

#[test]
fn css_lengths_at_the_floor_are_spacing() {
    for line in [
        ".x { margin: 4px; }",
        ".x { margin: 0.25rem; }",
        ".x { margin: 0.25em; }",
        ".x { margin: 3.9999999px; }",
        ".x { margin: 0.24999999255rem; }",
        ".x { margin: 1px 2px 16px; }",
        ".x { margin: 0004px; }",
        ".x { margin: 123456789012345678901234567890px; }",
    ] {
        let v = run_css_default(&tree(&[("src/a.css", line)])).unwrap();
        assert_eq!(v.len(), 1, "{line}");
        assert_eq!(v[0].kind, CssViolationKind::RawSpacing, "{line}");
    }
}

#[test]
fn css_border_like_properties_are_not_spacing() {
    for line in [
        "border: 12px solid var(--x);",
        "  outline-offset: 8px;",
        "line-height: 24px;",
        "letter-spacing: 0.5em;",
        "border-radius: 16px;",
    ] {
        let v = run_css_default(&tree(&[("src/a.css", line)])).unwrap();
        assert!(v.is_empty(), "{line}: {v:?}");
    }
    let v = run_css_default(&tree(&[("src/a.css", "border: 1px solid #000;")])).unwrap();
    assert_eq!(v.len(), 1);
    assert_eq!(v[0].kind, CssViolationKind::RawColour);
}

#[test]
fn css_comment_and_custom_property_lines_skipped() {
    let content = "// margin: 12px\n/* color: #fff */\n * padding: 8px\n--pad: 12px;\n";
    let v = run_css_default(&tree(&[("src/a.css", content)])).unwrap();
    assert!(v.is_empty(), "{v:?}");
}

#[test]
fn css_token_blocks_end_at_their_closing_brace() {
    let content = "@keyframes spin {\n  from { margin: 12px; }\n  to { color: #fff; }\n}\n.x { padding: 12px; }\n";
    let v = run_css_default(&tree(&[("src/a.css", content)])).unwrap();
    assert_eq!(v.len(), 1, "{v:?}");
    assert_eq!(v[0].line, 5);
    assert_eq!(v[0].kind, CssViolationKind::RawSpacing);
}

#[test]
fn css_one_line_token_block_ends_on_that_line() {
    let content = ":root { --a: #fff; }\n.x { color: #000; }\n";
    let v = run_css_default(&tree(&[("src/a.css", content)])).unwrap();
    assert_eq!(v.len(), 1, "{v:?}");
    assert_eq!(v[0].line, 2);
}

#[test]
fn css_file_lint_keeps_block_state_across_crlf_lines() {
    let v = lint_css_file("a.css", "@font-face {\r\n  src: url(x);\r\n}\r\n.y { gap: 2rem; }", &css_patterns().unwrap())
        .unwrap();
    assert_eq!(v.len(), 1);
    assert_eq!(v[0].line, 4);
    assert_eq!(v[0].matched, ".y { gap: 2rem; }");
}

#[test]
fn css_files_outside_filter_are_not_read() {
    let files = tree(&[
        ("src/a.css", ".x { color: #fff; }"),
        ("src/b.txt", ".x { color: #fff; }"),
        ("src/c.scss", ".x { color: #fff; }"),
    ]);
    let v = run_css_default(&files).unwrap();
    assert_eq!(v.len(), 2);
    assert!(v[0].path.ends_with("a.css"));
    assert!(v[1].path.ends_with("c.scss"));
}
