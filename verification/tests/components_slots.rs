use loom::components::card::{KvPairCard, KvPairDensity, KvPairTone};
use loom::components::code_shell::{CodeShell, CodeShellChrome, CodeShellTone};
use loom::components::picture::{Picture, PictureFit, PictureLoading, PicturePriority};
use loom::components::pull_quote::{PullQuote, PullQuoteEmphasis, PullQuoteTone};
use loom::components::slots::{EditorialSlot};
fn kv_slot<'a>() -> EditorialSlot<'a> {
    EditorialSlot::KvPair(KvPairCard {
        label: "JURISDICTION",
        value: "Federal+47",
        source: Some("extraterritorial"),
        density: KvPairDensity::Comfortable,
        tone: KvPairTone::Slate,
    })
}

fn pq_slot<'a>() -> EditorialSlot<'a> {
    EditorialSlot::PullQuote(PullQuote {
        body: "Substrate carries the page.",
        attribution: Some("paul, 2026-05-20"),
        cite_url: None,
        emphasis: PullQuoteEmphasis::Display,
        tone: PullQuoteTone::Slate,
    })
}

fn cs_slot<'a>() -> EditorialSlot<'a> {
    EditorialSlot::CodeShell(CodeShell {
        title: Some("forge build"),
        prompt: None,
        lines: &[],
        tone: CodeShellTone::Slate,
        chrome: CodeShellChrome::Header,
    })
}

fn pic_slot<'a>() -> EditorialSlot<'a> {
    EditorialSlot::Picture(Picture {
        src_stem: "hero/dispatch",
        alt: "Editorial dispatch image",
        width: 1280,
        height: 720,
        loading: PictureLoading::Lazy,
        priority: PicturePriority::Auto,
        fit: PictureFit::Cover,
    })
}

#[test]
fn kv_pair_slot_kind_is_kv_pair() {
    assert_eq!(kv_slot().kind(), "kv-pair");
}

#[test]
fn pull_quote_slot_kind_is_pull_quote() {
    assert_eq!(pq_slot().kind(), "pull-quote");
}

#[test]
fn code_shell_slot_kind_is_code_shell() {
    assert_eq!(cs_slot().kind(), "code-shell");
}

#[test]
fn picture_slot_kind_is_picture() {
    assert_eq!(pic_slot().kind(), "picture");
}

#[test]
fn raw_slot_kind_is_raw() {
    let slot = EditorialSlot::Raw("<div>x</div>".to_string());
    assert_eq!(slot.kind(), "raw");
}

#[test]
fn typed_slots_report_is_typed_primitive_true() {
    assert!(kv_slot().is_typed_primitive());
    assert!(pq_slot().is_typed_primitive());
    assert!(cs_slot().is_typed_primitive());
    assert!(pic_slot().is_typed_primitive());
}

#[test]
fn raw_slot_reports_is_typed_primitive_false() {
    let slot = EditorialSlot::Raw("<p>raw</p>".to_string());
    assert!(!slot.is_typed_primitive());
}

#[test]
fn kv_pair_slot_renders_underlying_card() {
    let html = kv_slot().render();
    // KvPairCard emits monospace uppercase label.
    assert!(html.contains(">JURISDICTION<"));
    assert!(html.contains(">Federal+47<"));
    assert!(html.contains("font-mono"));
}

#[test]
fn pull_quote_slot_renders_underlying_blockquote() {
    let html = pq_slot().render();
    assert!(html.contains("<blockquote"));
    assert!(html.contains(">Substrate carries the page.<"));
    assert!(html.contains(">— paul, 2026-05-20<"));
}

#[test]
fn code_shell_slot_renders_underlying_pre_code() {
    let html = cs_slot().render();
    assert!(html.contains("<pre"));
    assert!(html.contains("<code"));
    assert!(html.contains(">forge build<"));
}

#[test]
fn picture_slot_renders_underlying_picture_element() {
    let html = pic_slot().render();
    assert!(html.contains("<picture>"));
    assert!(html.contains(r#"alt="Editorial dispatch image""#));
    assert!(html.contains(r#"width="1280""#));
}

#[test]
fn raw_slot_renders_pre_escaped_markup() {
    let inner = "<aside>raw-aside-content</aside>";
    let slot = EditorialSlot::Raw(inner.to_string());
    let html = slot.render();
    assert!(html.contains("<aside>raw-aside-content</aside>"));
}

#[test]
fn kind_strings_are_stable_kebab_case() {
    // Stable wire / telemetry contract — these strings get
    // indexed by the editorial-uplift audit. Renaming requires
    // a Cat-3 migration.
    let stable_kinds = ["kv-pair", "pull-quote", "code-shell", "picture", "raw"];
    for k in stable_kinds {
        assert!(
            k.chars().all(|c| c.is_ascii_lowercase() || c == '-'),
            "slot kind not kebab-case: {k}"
        );
    }
}
