use loom::tokens::gradient_pool::{
    gradient_pool, select_for_identity, select_for_identity_mood, GradientMood,
};

#[test]
fn pool_has_expected_breadth() {
    assert!(gradient_pool().len() >= 20, "pool should ship at least 20 pairs per substrate reframe spec");
}

#[test]
fn pool_names_are_unique() {
    let mut names: Vec<&str> = gradient_pool().iter().map(|p| p.name).collect();
    names.sort_unstable();
    let count_before = names.len();
    names.dedup();
    assert_eq!(names.len(), count_before, "pool names must be unique");
}

#[test]
fn pool_covers_every_mood_except_solid() {
    for mood in [
        GradientMood::Cool,
        GradientMood::Warm,
        GradientMood::Monochrome,
        GradientMood::Duotone,
        GradientMood::Neutral,
        GradientMood::Photographic,
    ] {
        assert!(gradient_pool().iter().any(|p| p.mood == mood), "pool missing mood: {mood:?}");
    }
}

#[test]
fn selection_is_deterministic() {
    let a = select_for_identity("alpha-site", "tenant-x", &[]);
    let b = select_for_identity("alpha-site", "tenant-x", &[]);
    assert_eq!(a.name, b.name);
}

#[test]
fn different_identities_can_land_on_different_pairs() {
    let picks: std::collections::BTreeSet<&str> = (0..20)
        .map(|i| {
            let site = format!("site-{i}");
            select_for_identity(&site, "tenant-x", &[]).name
        })
        .collect();
    assert!(picks.len() > 1, "20 distinct site ids should land on >1 gradient");
}

#[test]
fn recently_used_skipped_when_alternative_exists() {
    let first = select_for_identity("repeat-site", "tenant-x", &[]).name;
    let second = select_for_identity("repeat-site", "tenant-x", &[first]).name;
    assert_ne!(second, first);
}

#[test]
fn mood_filter_restricts_to_requested_mood() {
    let pair = select_for_identity_mood("site-y", "tenant-x", GradientMood::Warm, &[]);
    assert_eq!(pair.mood, GradientMood::Warm);
}

#[test]
fn css_value_emits_linear_gradient_for_non_solid() {
    let pool = gradient_pool();
    let pair = &pool[0];
    let css = pair.to_css_value();
    assert!(css.starts_with("linear-gradient("));
    assert!(css.contains(pair.a));
    assert!(css.contains(pair.b));
    assert_eq!(css, format!("linear-gradient({}deg, {}, {})", pair.direction_deg, pair.a, pair.b));
}

#[test]
fn css_value_emits_solid_for_solid_mood() {
    let pool = gradient_pool();
    let solid = pool.iter().find(|p| p.mood == GradientMood::Solid).expect("pool must include a solid option");
    let css = solid.to_css_value();
    assert!(!css.starts_with("linear-gradient("));
    assert_eq!(css, solid.a);
}

#[test]
fn every_recent_pick_is_avoided_while_alternatives_remain() {
    let mut recent: Vec<&str> = Vec::new();
    for _ in 0..5 {
        let pick = select_for_identity("walk-site", "tenant-z", &recent).name;
        assert!(!recent.contains(&pick), "{pick} was recently used");
        recent.push(pick);
    }
}
