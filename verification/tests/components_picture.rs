use loom::components::picture::{Picture, PictureFit, PictureLoading, PicturePriority};
fn render_to_string(p: &Picture<'_>) -> String {
    p.render()
}

#[test]
fn renders_three_format_chain_in_order() {
    let p = Picture {
        src_stem: "hero/dragon",
        alt: "A dragon",
        width: 1280,
        height: 720,
        loading: PictureLoading::Eager,
        priority: PicturePriority::High,
        fit: PictureFit::Cover,
    };
    let html = render_to_string(&p);
    let avif_pos = html.find("/assets/hero/dragon.avif").expect("avif present");
    let webp_pos = html.find("/assets/hero/dragon.webp").expect("webp present");
    let jpg_pos = html.find("/assets/hero/dragon.jpg").expect("jpg present");
    assert!(avif_pos < webp_pos, "avif must precede webp");
    assert!(webp_pos < jpg_pos, "webp must precede jpg");
}

#[test]
fn emits_intrinsic_dimensions_for_cls() {
    let p = Picture {
        src_stem: "x",
        alt: "x",
        width: 800,
        height: 600,
        loading: PictureLoading::Lazy,
        priority: PicturePriority::Auto,
        fit: PictureFit::Default,
    };
    let html = render_to_string(&p);
    assert!(html.contains(r#"width="800""#));
    assert!(html.contains(r#"height="600""#));
}

#[test]
fn lazy_loading_is_default_explicit() {
    let p = Picture {
        src_stem: "x",
        alt: "x",
        width: 1,
        height: 1,
        loading: PictureLoading::Lazy,
        priority: PicturePriority::Auto,
        fit: PictureFit::Default,
    };
    let html = render_to_string(&p);
    assert!(html.contains(r#"loading="lazy""#));
    assert!(html.contains(r#"decoding="async""#));
}

#[test]
fn eager_loading_serializes_as_eager() {
    let p = Picture {
        src_stem: "x",
        alt: "x",
        width: 1,
        height: 1,
        loading: PictureLoading::Eager,
        priority: PicturePriority::High,
        fit: PictureFit::Default,
    };
    let html = render_to_string(&p);
    assert!(html.contains(r#"loading="eager""#));
    assert!(html.contains(r#"fetchpriority="high""#));
}

#[test]
fn priority_auto_omits_attribute() {
    let p = Picture {
        src_stem: "x",
        alt: "x",
        width: 1,
        height: 1,
        loading: PictureLoading::Lazy,
        priority: PicturePriority::Auto,
        fit: PictureFit::Default,
    };
    let html = render_to_string(&p);
    assert!(!html.contains("fetchpriority"), "auto must omit attr");
}

#[test]
fn priority_low_serializes_as_low() {
    let p = Picture {
        src_stem: "x",
        alt: "x",
        width: 1,
        height: 1,
        loading: PictureLoading::Lazy,
        priority: PicturePriority::Low,
        fit: PictureFit::Default,
    };
    let html = render_to_string(&p);
    assert!(html.contains(r#"fetchpriority="low""#));
}

#[test]
fn empty_alt_for_decorative() {
    let p = Picture {
        src_stem: "x",
        alt: "",
        width: 1,
        height: 1,
        loading: PictureLoading::Lazy,
        priority: PicturePriority::Auto,
        fit: PictureFit::Default,
    };
    let html = render_to_string(&p);
    // The alt attribute must still be present (empty string),
    // not absent — that's the WCAG-compliant decorative shape.
    assert!(html.contains(r#"alt="""#));
}

#[test]
fn fit_cover_emits_modifier_class() {
    let p = Picture {
        src_stem: "x",
        alt: "x",
        width: 1,
        height: 1,
        loading: PictureLoading::Lazy,
        priority: PicturePriority::Auto,
        fit: PictureFit::Cover,
    };
    let html = render_to_string(&p);
    assert!(html.contains("loom-picture--cover"));
    assert!(html.contains("loom-picture "));
}

#[test]
fn fit_contain_emits_modifier_class() {
    let p = Picture {
        src_stem: "x",
        alt: "x",
        width: 1,
        height: 1,
        loading: PictureLoading::Lazy,
        priority: PicturePriority::Auto,
        fit: PictureFit::Contain,
    };
    let html = render_to_string(&p);
    assert!(html.contains("loom-picture--contain"));
}

#[test]
fn fit_default_emits_only_base_class() {
    let p = Picture {
        src_stem: "x",
        alt: "x",
        width: 1,
        height: 1,
        loading: PictureLoading::Lazy,
        priority: PicturePriority::Auto,
        fit: PictureFit::Default,
    };
    let html = render_to_string(&p);
    assert!(html.contains(r#"class="loom-picture""#));
    assert!(!html.contains("loom-picture--"));
}

#[test]
fn picture_element_wraps_sources_and_img() {
    let p = Picture {
        src_stem: "x",
        alt: "x",
        width: 1,
        height: 1,
        loading: PictureLoading::Lazy,
        priority: PicturePriority::Auto,
        fit: PictureFit::Default,
    };
    let html = render_to_string(&p);
    let p_open = html.find("<picture>").expect("opens picture");
    let p_close = html.rfind("</picture>").expect("closes picture");
    let img_pos = html.find("<img").expect("img present");
    let avif_pos = html.find(r#"type="image/avif""#).expect("avif type");
    assert!(p_open < avif_pos);
    assert!(avif_pos < img_pos);
    assert!(img_pos < p_close);
}

#[test]
fn type_attributes_match_sources() {
    let p = Picture {
        src_stem: "x",
        alt: "x",
        width: 1,
        height: 1,
        loading: PictureLoading::Lazy,
        priority: PicturePriority::Auto,
        fit: PictureFit::Default,
    };
    let html = render_to_string(&p);
    assert!(html.contains(r#"type="image/avif""#));
    assert!(html.contains(r#"type="image/webp""#));
}
