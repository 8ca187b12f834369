use loom::components::composer::{Composer, ComposerAvatar, ComposerSize, PromptAction, is_safe_url};
fn render_to_string(c: &Composer<'_>) -> String {
    c.render()
}

#[test]
fn safe_url_accepts_same_origin_paths() {
    assert!(is_safe_url("/post"));
    assert!(is_safe_url("/post/skill?id=42"));
    assert!(is_safe_url("/"));
}

#[test]
fn safe_url_accepts_https() {
    assert!(is_safe_url("https://example.com/x"));
}

#[test]
fn safe_url_rejects_protocol_relative() {
    assert!(!is_safe_url("//evil.example.com/x"));
}

#[test]
fn safe_url_rejects_javascript_scheme() {
    assert!(!is_safe_url("javascript:alert(1)"));
}

#[test]
fn safe_url_rejects_http() {
    assert!(!is_safe_url("http://example.com/x"));
}

#[test]
fn safe_url_rejects_crlf_smuggling() {
    assert!(!is_safe_url("/post\r\nLocation: /evil"));
    assert!(!is_safe_url("/post\nfoo"));
}

#[test]
fn safe_url_rejects_empty() {
    assert!(!is_safe_url(""));
}

#[test]
fn renders_prompt_with_endpoint() {
    let c = Composer {
        prompt: "What did you nail today?",
        submit_endpoint: "/post-skill",
        actions: vec![],
        avatar: ComposerAvatar::Absent,
        size: ComposerSize::Comfortable,
    };
    let html = render_to_string(&c);
    assert!(html.contains("What did you nail today?"));
    assert!(html.contains(r#"href="/post-skill""#));
    assert!(html.contains(r#"data-size="comfortable""#));
}

#[test]
fn invalid_endpoint_substitutes_placeholder() {
    let c = Composer {
        prompt: "x",
        submit_endpoint: "javascript:alert(1)",
        actions: vec![],
        avatar: ComposerAvatar::Absent,
        size: ComposerSize::Compact,
    };
    let html = render_to_string(&c);
    assert!(html.contains(r#"data-invalid="true""#));
    assert!(html.contains(r##"href="#invalid-endpoint""##));
    assert!(!html.contains("javascript:alert"));
}

#[test]
fn caps_actions_at_three() {
    let c = Composer {
        prompt: "x",
        submit_endpoint: "/x",
        actions: vec![
            PromptAction::UploadClip,
            PromptAction::ChallengeOpponent,
            PromptAction::GoLive,
            PromptAction::PhotoOnly,
        ],
        avatar: ComposerAvatar::Absent,
        size: ComposerSize::Comfortable,
    };
    let html = render_to_string(&c);
    // "Photo" should be the 4th action and excluded.
    assert!(html.contains("Upload clip"));
    assert!(html.contains("Challenge"));
    assert!(html.contains("Live"));
    assert!(!html.contains(">Photo<"));
}

#[test]
fn empty_actions_omits_nav() {
    let c = Composer {
        prompt: "x",
        submit_endpoint: "/x",
        actions: vec![],
        avatar: ComposerAvatar::Absent,
        size: ComposerSize::Comfortable,
    };
    let html = render_to_string(&c);
    assert!(!html.contains("loom-composer__actions"));
}

#[test]
fn avatar_initials_renders_letters() {
    let c = Composer {
        prompt: "x",
        submit_endpoint: "/x",
        actions: vec![],
        avatar: ComposerAvatar::Initials("DA"),
        size: ComposerSize::Comfortable,
    };
    let html = render_to_string(&c);
    assert!(html.contains(r#"data-avatar="initials""#));
    assert!(html.contains(">DA<"));
}

#[test]
fn avatar_image_emits_img_with_dims() {
    let c = Composer {
        prompt: "x",
        submit_endpoint: "/x",
        actions: vec![],
        avatar: ComposerAvatar::Image {
            src: "/u/42.jpg",
            alt: "Dax",
        },
        size: ComposerSize::Comfortable,
    };
    let html = render_to_string(&c);
    assert!(html.contains(r#"src="/u/42.jpg""#));
    assert!(html.contains(r#"alt="Dax""#));
    assert!(html.contains(r#"width="40""#));
    assert!(html.contains(r#"height="40""#));
    assert!(html.contains(r#"loading="lazy""#));
}

#[test]
fn avatar_image_invalid_url_falls_back_to_placeholder() {
    let c = Composer {
        prompt: "x",
        submit_endpoint: "/x",
        actions: vec![],
        avatar: ComposerAvatar::Image {
            src: "javascript:alert(1)",
            alt: "evil",
        },
        size: ComposerSize::Comfortable,
    };
    let html = render_to_string(&c);
    assert!(html.contains(r#"data-avatar="invalid-image""#));
    assert!(!html.contains("javascript:alert"));
}

#[test]
fn action_carries_backend_attribute() {
    let c = Composer {
        prompt: "x",
        submit_endpoint: "/x",
        actions: vec![PromptAction::UploadClip],
        avatar: ComposerAvatar::Absent,
        size: ComposerSize::Comfortable,
    };
    let html = render_to_string(&c);
    assert!(html.contains(r#"data-backend="post-skill""#));
}

#[test]
fn action_aria_label_present() {
    let c = Composer {
        prompt: "x",
        submit_endpoint: "/x",
        actions: vec![PromptAction::ChallengeOpponent],
        avatar: ComposerAvatar::Absent,
        size: ComposerSize::Comfortable,
    };
    let html = render_to_string(&c);
    assert!(html.contains(r#"aria-label="Challenge""#));
}

#[test]
fn icon_svg_is_path_only_no_script() {
    for action in [
        PromptAction::UploadClip,
        PromptAction::ChallengeOpponent,
        PromptAction::GoLive,
        PromptAction::PhotoOnly,
    ] {
        let svg = action.icon_svg();
        assert!(!svg.contains("<script"), "icon contains script: {action:?}");
        assert!(!svg.contains("<style"), "icon contains style: {action:?}");
        assert!(!svg.contains("xlink:href"), "icon contains <use>: {action:?}");
    }
}

#[test]
fn classes_are_loom_namespaced() {
    let c = Composer {
        prompt: "x",
        submit_endpoint: "/x",
        actions: vec![PromptAction::UploadClip],
        avatar: ComposerAvatar::Initials("DA"),
        size: ComposerSize::Comfortable,
    };
    let html = render_to_string(&c);
    // Every class= must contain only loom-* tokens.
    for class_match in regex_lite_class_iter(&html) {
        for tok in class_match.split_whitespace() {
            assert!(
                tok.is_empty() || tok.starts_with("loom-"),
                "non-loom class token: {tok} in {html}"
            );
        }
    }
}

fn regex_lite_class_iter(s: &str) -> Vec<String> {
    // Tiny class= extractor — avoids pulling in regex crate
    // for this assertion.
    let mut out = vec![];
    let mut cursor = 0usize;
    while let Some(idx) = s[cursor..].find(r#"class=""#) {
        let start = cursor + idx + r#"class=""#.len();
        if let Some(end) = s[start..].find('"') {
            out.push(s[start..start + end].to_owned());
            cursor = start + end + 1;
        } else {
            break;
        }
    }
    out
}
