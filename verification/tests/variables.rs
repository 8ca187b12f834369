use loom::variables::{substitute, TenantVariables};

fn pairs(items: &[(&str, &str)]) -> Vec<(String, String)> {
    items.iter().map(|(k, v)| (k.to_string(), v.to_string())).collect()
}

fn fixture() -> TenantVariables {
    let v = pairs(&[("BRAND_NAME", "Acme"), ("YEAR", "2026")]);
    let p = pairs(&[("fg", "#0a0a0a"), ("accent", "#3a7afe")]);
    let a = pairs(&[("hero-bg", "/static/hero.webp"), ("logo", "/static/logo.svg")]);
    TenantVariables::from_parts(v, p, a)
}

#[test]
fn substitutes_simple_variable() {
    let out = substitute("Welcome to {{ BRAND_NAME }}", &fixture());
    assert_eq!(out, "Welcome to Acme");
}

#[test]
fn substitutes_without_whitespace() {
    let out = substitute("Year {{YEAR}}.", &fixture());
    assert_eq!(out, "Year 2026.");
}

#[test]
fn substitutes_palette_via_dotted_access() {
    let out = substitute("color: {{ PALETTE.accent }};", &fixture());
    assert_eq!(out, "color: #3a7afe;");
}

#[test]
fn substitutes_asset_slug() {
    let out = substitute("<img src=\"@hero-bg\">", &fixture());
    assert_eq!(out, "<img src=\"/static/hero.webp\">");
}

#[test]
fn asset_slug_stops_at_punctuation() {
    let out = substitute("see @logo.", &fixture());
    assert_eq!(out, "see /static/logo.svg.");
}

#[test]
fn missing_variable_preserved_verbatim() {
    let out = substitute("hi {{ UNBOUND }} there", &fixture());
    assert_eq!(out, "hi {{ UNBOUND }} there");
}

#[test]
fn missing_asset_preserved_verbatim() {
    let out = substitute("see @ghost end", &fixture());
    assert_eq!(out, "see @ghost end");
}

#[test]
fn empty_table_returns_unchanged() {
    let out = substitute("{{ X }} and @y", &TenantVariables::default());
    assert_eq!(out, "{{ X }} and @y");
}

#[test]
fn fast_path_no_braces_no_at() {
    let out = substitute("nothing to do here", &fixture());
    assert_eq!(out, "nothing to do here");
}

#[test]
fn unicode_passthrough() {
    let out = substitute("café — {{ BRAND_NAME }} → ✓", &fixture());
    assert_eq!(out, "café — Acme → ✓");
}

#[test]
fn empty_braces_are_not_substituted() {
    let out = substitute("a {{ }} b", &fixture());
    assert_eq!(out, "a {{ }} b");
}

#[test]
fn later_pair_overrides_earlier_one() {
    let vars = TenantVariables::from_parts(pairs(&[("K", "one"), ("K", "two")]), vec![], vec![]);
    assert_eq!(substitute("{{K}}", &vars), "two");
}

#[test]
fn unclosed_braces_are_kept() {
    assert_eq!(substitute("a {{ BRAND_NAME", &fixture()), "a {{ BRAND_NAME");
}

#[test]
fn palette_prefix_only_reads_palette() {
    // `PALETTE.fg` is not looked up in the variables table.
    let vars = TenantVariables::from_parts(pairs(&[("PALETTE.fg", "wrong")]), vec![], vec![]);
    assert_eq!(substitute("{{ PALETTE.fg }}", &vars), "{{ PALETTE.fg }}");
}

#[test]
fn lone_at_sign_is_kept() {
    assert_eq!(substitute("mail me @ home", &fixture()), "mail me @ home");
}

#[test]
fn is_empty_reports_all_tables() {
    assert!(TenantVariables::new().is_empty());
    assert!(!fixture().is_empty());
}

#[test]
fn from_parts_keeps_each_key_once_in_ascending_order() {
    let vars = TenantVariables::from_parts(
        pairs(&[("b", "1"), ("a", "2"), ("b", "3"), ("ab", "4"), ("é", "5"), ("Z", "6")]),
        pairs(&[("fg", "x"), ("fg", "y")]),
        vec![],
    );
    assert_eq!(vars.variables, pairs(&[("Z", "6"), ("a", "2"), ("ab", "4"), ("b", "3"), ("é", "5")]));
    assert_eq!(vars.palette, pairs(&[("fg", "y")]));
    assert!(vars.assets.is_empty());
}

#[test]
fn tables_with_the_same_bindings_are_equal() {
    let one = TenantVariables::from_parts(
        pairs(&[("YEAR", "2026"), ("BRAND_NAME", "Acme")]),
        pairs(&[("accent", "#3a7afe"), ("fg", "#0a0a0a")]),
        pairs(&[("logo", "/static/logo.svg"), ("hero-bg", "/old.webp"), ("hero-bg", "/static/hero.webp")]),
    );
    assert_eq!(one, fixture());
    assert_ne!(one, TenantVariables::new());
}
