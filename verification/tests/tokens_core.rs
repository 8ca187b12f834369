use loom::tokens::axes::{
    AestheticTuple, ColorEnergy, ColorMood, Density, Formality, GridCharacter, MotionIntensity,
    Texture, TypePersonality,
};
use loom::tokens::color::{css_color_shape, hsl_fields, parse_hex, Color, ColorRole, CssColorShape};
use loom::tokens::density::DensityTier;
use loom::tokens::polish::{PolishCategory, PolishSet, PolishToken};
use loom::tokens::radius::Radius;
use loom::tokens::scale::{Breakpoint, FontSize, Spacing};
use loom::tokens::style_packs::StylePack;
use std::collections::HashSet;

// ---- axes ----

#[test]
fn defaults_compose_the_reference_tuple() {
    let dflt = AestheticTuple::default();
    assert_eq!(dflt, AestheticTuple::reference());
}

#[test]
fn cardinality_matches_doc_claim() {
    let density_n = 3;
    let formality_n = 4;
    let motion_n = 4;
    let texture_n = 4;
    let type_n = 5;
    let grid_n = 4;
    let mood_n = 7;
    let energy_n = 4;
    assert_eq!(
        density_n * formality_n * motion_n * texture_n * type_n * grid_n * mood_n * energy_n,
        107_520
    );
}

#[test]
fn every_variant_is_copy() {
    fn assert_copy<T: Copy>() {}
    assert_copy::<Density>();
    assert_copy::<Formality>();
    assert_copy::<MotionIntensity>();
    assert_copy::<Texture>();
    assert_copy::<TypePersonality>();
    assert_copy::<GridCharacter>();
    assert_copy::<ColorMood>();
    assert_copy::<ColorEnergy>();
    assert_copy::<AestheticTuple>();
}

// ---- color ----

#[test]
fn primary_role_present() {
    let r = ColorRole::by_name("primary").expect("primary role exists");
    assert_eq!(r.color.tailwind, "primary");
}

#[test]
fn unknown_role_returns_none() {
    assert!(ColorRole::by_name("vermillion-electric").is_none());
}

#[test]
fn role_names_are_unique() {
    let mut seen = HashSet::new();
    for r in ColorRole::all() {
        assert!(seen.insert(r.role), "duplicate role: {}", r.role);
    }
}

#[test]
fn role_names_are_meaning_not_appearance() {
    for r in ColorRole::all() {
        for forbidden in &["blue", "red", "green", "yellow", "purple"] {
            assert!(
                !r.role.contains(forbidden),
                "role {} appearance-named, use a meaning name",
                r.role
            );
        }
    }
}

#[test]
fn dark_palette_parity() {
    let light: HashSet<_> = ColorRole::all().iter().map(|r| r.role).collect();
    let dark: HashSet<_> = ColorRole::dark_all().iter().map(|r| r.role).collect();
    assert_eq!(light, dark, "dark palette must mirror light palette role-for-role");
}

#[test]
fn dark_lookup_returns_dark_color() {
    let light = ColorRole::by_name("surface").expect("surface light");
    let dark = ColorRole::dark_by_name("surface").expect("surface dark");
    assert_ne!(light.color.tailwind, dark.color.tailwind);
    assert_eq!(dark.color.tailwind, "slate-950");
}

#[test]
fn color_rgb_parses_hex_and_hsl() {
    let white = Color { name: "x", tailwind: "x", css: "#ffffff" };
    assert_eq!(white.css_shape(), CssColorShape::Hex(Some((255, 255, 255))));
    let red = Color { name: "x", tailwind: "x", css: "hsl(0 100% 50%)" };
    assert_eq!(red.css_shape(), CssColorShape::Hsl("0 100% 50%".to_string()));
    let primary = Color { name: "x", tailwind: "x", css: "hsl(220 90% 28%)" };
    assert_eq!(primary.css_shape(), CssColorShape::Hsl("220 90% 28%".to_string()));
}

#[test]
fn parse_hex_accepts_short_long_and_alpha_forms() {
    assert_eq!(parse_hex("fff"), Some((255, 255, 255)));
    assert_eq!(parse_hex("0a0b0c"), Some((10, 11, 12)));
    assert_eq!(parse_hex("0a0b0cff"), Some((10, 11, 12)));
    assert_eq!(parse_hex("12345"), None);
    assert_eq!(parse_hex("zzz"), None);
    assert_eq!(parse_hex("ééé"), None);
}

#[test]
fn parse_hex_refuses_every_other_shape() {
    // The alpha digits are checked too.
    assert_eq!(parse_hex("ffffffzz"), None);
    assert_eq!(parse_hex("ffffff+f"), None);
    // Sign-prefixed digit pairs are not hex digits.
    assert_eq!(parse_hex("+f+f+f"), None);
    assert_eq!(parse_hex("é1"), None);
    assert_eq!(css_color_shape("#ffffffzz"), CssColorShape::Hex(None));
}

#[test]
fn css_color_shape_trims_and_rejects_other_shapes() {
    assert_eq!(css_color_shape("  #000  "), CssColorShape::Hex(Some((0, 0, 0))));
    assert_eq!(css_color_shape("rgb(1, 2, 3)"), CssColorShape::Unrecognized);
    assert_eq!(css_color_shape("#nothex"), CssColorShape::Hex(None));
}

#[test]
fn every_role_has_a_recognised_colour() {
    for r in ColorRole::all().iter().chain(ColorRole::dark_all().iter()) {
        if r.color.css == "transparent" {
            assert_eq!(r.color.css_shape(), CssColorShape::Unrecognized);
            continue;
        }
        assert!(
            !matches!(r.color.css_shape(), CssColorShape::Unrecognized | CssColorShape::Hex(None)),
            "{} has an unreadable colour",
            r.role
        );
    }
}

// ---- density ----

#[test]
fn default_is_comfortable() {
    assert_eq!(DensityTier::default(), DensityTier::Comfortable);
}

#[test]
fn all_tiers_have_unique_slugs() {
    let slugs: Vec<_> = DensityTier::all().iter().map(|t| t.slug()).collect();
    let mut sorted = slugs.clone();
    sorted.sort_unstable();
    sorted.dedup();
    assert_eq!(slugs.len(), sorted.len(), "duplicate slugs across tiers");
}

#[test]
fn slug_is_stable_kebab_case() {
    for tier in DensityTier::all() {
        let s = tier.slug();
        assert!(
            s.chars().all(|c| c.is_ascii_lowercase() || c == '-'),
            "tier slug not kebab-case: {s:?}"
        );
    }
}

#[test]
fn css_class_prefix_is_loom_density() {
    for tier in DensityTier::all() {
        assert!(
            tier.css_class().starts_with("loom-density-"),
            "tier css_class not loom-density-prefixed: {}",
            tier.css_class()
        );
    }
}

#[test]
fn char_per_1000sqpx_bands_are_monotonic_increasing() {
    let bands: Vec<(u32, u32)> = DensityTier::all().iter().map(|t| t.char_per_1000sqpx()).collect();
    for w in bands.windows(2) {
        let (_, prev_high) = w[0];
        let (next_low, _) = w[1];
        assert!(next_low >= prev_high, "tier bands overlap: {prev_high} >= {next_low}");
    }
}

#[test]
fn extreme_band_is_open_ended() {
    let (_, hi) = DensityTier::Extreme.char_per_1000sqpx();
    assert_eq!(hi, u32::MAX, "Extreme tier should be open-ended");
}

#[test]
fn classify_returns_expected_tier_at_known_values() {
    assert_eq!(DensityTier::classify(0), DensityTier::Sparse);
    assert_eq!(DensityTier::classify(50), DensityTier::Sparse);
    assert_eq!(DensityTier::classify(80), DensityTier::Sparse);
    assert_eq!(DensityTier::classify(81), DensityTier::Comfortable);
    assert_eq!(DensityTier::classify(180), DensityTier::Comfortable);
    assert_eq!(DensityTier::classify(181), DensityTier::Dense);
    assert_eq!(DensityTier::classify(400), DensityTier::Dense);
    assert_eq!(DensityTier::classify(401), DensityTier::Extreme);
    assert_eq!(DensityTier::classify(10_000), DensityTier::Extreme);
}

#[test]
fn ord_matches_density_intuition() {
    assert!(DensityTier::Sparse < DensityTier::Comfortable);
    assert!(DensityTier::Comfortable < DensityTier::Dense);
    assert!(DensityTier::Dense < DensityTier::Extreme);
}

#[test]
fn classify_lands_in_its_own_band() {
    for v in [0u32, 79, 80, 81, 179, 180, 181, 399, 400, 401, u32::MAX] {
        let tier = DensityTier::classify(v);
        let (lo, hi) = tier.char_per_1000sqpx();
        assert!(v <= hi, "{v} above the ceiling {hi}");
        assert!(tier == DensityTier::Sparse || lo < v, "{v} not above the floor {lo}");
    }
}

// ---- polish ----

const ALL_POLISH: [PolishToken; 12] = [
    PolishToken::DotGrid,
    PolishToken::LinearMesh,
    PolishToken::Topographic,
    PolishToken::EditorialRule,
    PolishToken::InsetFrame,
    PolishToken::BlueprintCorner,
    PolishToken::SoftGlow,
    PolishToken::BrandHalo,
    PolishToken::AmoledRim,
    PolishToken::SlowReveal,
    PolishToken::PageTurn,
    PolishToken::CursorTilt,
];

#[test]
fn every_variant_has_unique_slug() {
    let mut slugs: Vec<&'static str> = ALL_POLISH.iter().map(|v| v.slug()).collect();
    slugs.sort_unstable();
    let len_before = slugs.len();
    slugs.dedup();
    assert_eq!(slugs.len(), len_before, "duplicate slug detected; each variant must have a unique slug");
}

#[test]
fn slug_is_kebab_case() {
    for v in [
        PolishToken::DotGrid,
        PolishToken::LinearMesh,
        PolishToken::EditorialRule,
        PolishToken::BlueprintCorner,
        PolishToken::SoftGlow,
        PolishToken::BrandHalo,
        PolishToken::AmoledRim,
        PolishToken::SlowReveal,
        PolishToken::PageTurn,
        PolishToken::CursorTilt,
    ] {
        let slug = v.slug();
        assert!(slug.chars().all(|c| c.is_ascii_lowercase() || c == '-'), "non-kebab-case slug: {slug}");
        assert!(!slug.starts_with('-'));
        assert!(!slug.ends_with('-'));
    }
}

#[test]
fn css_class_prefix() {
    assert_eq!(PolishToken::DotGrid.css_class(), "loom-polish-dot-grid");
    assert_eq!(PolishToken::EditorialRule.css_class(), "loom-polish-editorial-rule");
    assert_eq!(PolishToken::SoftGlow.css_class(), "loom-polish-soft-glow");
}

#[test]
fn category_groups_match_doctrine() {
    let by_cat = |cat: PolishCategory| -> usize { ALL_POLISH.iter().filter(|t| t.category() == cat).count() };
    assert_eq!(by_cat(PolishCategory::Background), 3);
    assert_eq!(by_cat(PolishCategory::Border), 3);
    assert_eq!(by_cat(PolishCategory::Glow), 3);
    assert_eq!(by_cat(PolishCategory::Motion), 3);
}

#[test]
fn is_motion_only_true_for_motion_category() {
    assert!(PolishToken::SlowReveal.is_motion());
    assert!(PolishToken::PageTurn.is_motion());
    assert!(PolishToken::CursorTilt.is_motion());
    assert!(!PolishToken::DotGrid.is_motion());
    assert!(!PolishToken::EditorialRule.is_motion());
    assert!(!PolishToken::SoftGlow.is_motion());
}

#[test]
fn polish_set_default_is_empty() {
    let set = PolishSet::default();
    assert!(set.is_empty());
    assert_eq!(set.len(), 0);
    assert_eq!(set.css_classes(), "");
}

#[test]
fn polish_set_from_slice_preserves_tokens() {
    let set = PolishSet::from_slice(&[PolishToken::DotGrid, PolishToken::EditorialRule]);
    assert_eq!(set.len(), 2);
    assert!(!set.is_empty());
}

#[test]
fn polish_set_css_classes_joined_sorted_deduped() {
    let set = PolishSet::from_slice(&[PolishToken::EditorialRule, PolishToken::DotGrid, PolishToken::DotGrid]);
    let s = set.css_classes();
    assert_eq!(s, "loom-polish-dot-grid loom-polish-editorial-rule");
}

#[test]
fn polish_set_has_motion_true_when_motion_token_present() {
    let with_motion = PolishSet::from_slice(&[PolishToken::DotGrid, PolishToken::SlowReveal]);
    assert!(with_motion.has_motion());
    let without = PolishSet::from_slice(&[PolishToken::DotGrid, PolishToken::EditorialRule]);
    assert!(!without.has_motion());
    assert!(!PolishSet::new().has_motion());
}

#[test]
fn empty_polish_set_emits_empty_css_string() {
    let set = PolishSet::new();
    assert_eq!(set.css_classes(), "");
}

#[test]
fn polish_token_total_count_matches_documented_twelve() {
    assert_eq!(ALL_POLISH.len(), 12);
}

#[test]
fn css_classes_ignore_order_and_repeats() {
    let a = PolishSet::from_slice(&[PolishToken::SlowReveal, PolishToken::DotGrid, PolishToken::SlowReveal]);
    let b = PolishSet::from_slice(&[PolishToken::DotGrid, PolishToken::SlowReveal]);
    assert_eq!(a.css_classes(), b.css_classes());
}

// ---- radius / scale ----

#[test]
fn all_lengths_match_variants() {
    let n_variants = [Radius::Zero, Radius::Sm, Radius::Md, Radius::Lg, Radius::Xl, Radius::Full].len();
    assert_eq!(Radius::all().len(), n_variants);
}

#[test]
fn radius_css_sizes_follow_the_scale() {
    assert_eq!(Radius::Zero.tailwind(), "none");
    assert_eq!(Radius::Zero.css_size(), "0");
    assert_eq!(Radius::Md.css_size(), "0.5rem");
    assert_eq!(Radius::Full.css_size(), "9999px");
}

#[test]
fn spacing_step_4_is_what_we_expect() {
    assert_eq!(Spacing::S4.tailwind(), "4");
}

#[test]
fn spacing_px_is_four_times_the_step() {
    assert_eq!(Spacing::S4.px(), 16);
    assert_eq!(Spacing::S4.rem_text(), "1");
    for sp in Spacing::all() {
        let step: u32 = sp.tailwind().parse().unwrap();
        assert_eq!(sp.px(), 4 * step);
    }
}

#[test]
fn breakpoints_in_ascending_pixel_order() {
    let mut prev = 0;
    for bp in Breakpoint::all() {
        assert!(bp.px() > prev, "breakpoint regressed at {bp:?}");
        prev = bp.px();
    }
}

#[test]
fn font_sizes_are_unique_tailwind_strings() {
    let mut seen = HashSet::new();
    for fs in FontSize::all() {
        assert!(seen.insert(fs.tailwind()), "duplicate fs tailwind: {fs:?}");
    }
}

// ---- style packs ----

#[test]
fn all_packs_have_unique_slugs() {
    let slugs: HashSet<&'static str> = StylePack::all().iter().map(|p| p.slug()).collect();
    assert_eq!(slugs.len(), StylePack::all().len(), "slugs must be unique");
}

#[test]
fn all_packs_have_unique_aesthetic_tuples() {
    let tuples: HashSet<AestheticTuple> = StylePack::all().iter().map(|p| p.aesthetic()).collect();
    assert_eq!(tuples.len(), StylePack::all().len());
}

#[test]
fn swiss_editorial_is_monochromatic_muted_humanist() {
    let t = StylePack::SwissEditorial.aesthetic();
    assert_eq!(t.color_mood, ColorMood::Monochromatic);
    assert_eq!(t.color_energy, ColorEnergy::Muted);
    assert_eq!(t.type_personality, TypePersonality::Humanist);
    assert_eq!(t.grid_character, GridCharacter::Asymmetric);
}

#[test]
fn brutalist_is_mono_broken_duotone() {
    let t = StylePack::Brutalist.aesthetic();
    assert_eq!(t.type_personality, TypePersonality::Mono);
    assert_eq!(t.grid_character, GridCharacter::Broken);
    assert_eq!(t.color_mood, ColorMood::Duotone);
    assert_eq!(t.motion_intensity, MotionIntensity::Still);
}

#[test]
fn memphis_is_playful_pastel_triadic() {
    let t = StylePack::MemphisRevival.aesthetic();
    assert_eq!(t.formality, Formality::Playful);
    assert_eq!(t.color_energy, ColorEnergy::Pastel);
    assert_eq!(t.color_mood, ColorMood::Triadic);
}

#[test]
fn nineties_zine_is_kinetic_polychrome_grainy() {
    let t = StylePack::NinetiesZine.aesthetic();
    assert_eq!(t.motion_intensity, MotionIntensity::Kinetic);
    assert_eq!(t.color_mood, ColorMood::Polychrome);
    assert_eq!(t.texture, Texture::Grainy);
}

#[test]
fn all_iterates_twelve_packs() {
    assert_eq!(StylePack::all().len(), 12);
}

#[test]
fn label_is_distinct_per_pack() {
    let labels: HashSet<&'static str> = StylePack::all().iter().map(|p| p.label()).collect();
    assert_eq!(labels.len(), StylePack::all().len());
}

#[test]
fn dieter_rams_is_flat_humanist_muted_airy() {
    let t = StylePack::DieterRams.aesthetic();
    assert_eq!(t.texture, Texture::Flat);
    assert_eq!(t.type_personality, TypePersonality::Humanist);
    assert_eq!(t.color_energy, ColorEnergy::Muted);
    assert_eq!(t.density, Density::Airy);
}

#[test]
fn hsl_fields_split_at_commas_and_spaces() {
    let f = |s: &str| hsl_fields(s).map(|(h, s, l)| (h, s, l));
    assert_eq!(
        f("220 90% 28%"),
        Some(("220".to_string(), "90".to_string(), "28".to_string()))
    );
    assert_eq!(
        f(" 12, 40%%,  7% / 0.5"),
        Some(("12".to_string(), "40".to_string(), "7".to_string()))
    );
    assert_eq!(f("1,,2"), None);
    assert_eq!(f(""), None);
    // Only trailing percent signs go.
    assert_eq!(
        f("%5 %6% 7"),
        Some(("%5".to_string(), "%6".to_string(), "7".to_string()))
    );
}

#[test]
fn every_palette_hsl_body_has_three_fields() {
    for role in ColorRole::all().into_iter().chain(ColorRole::dark_all()) {
        if let CssColorShape::Hsl(inner) = css_color_shape(role.color.css) {
            assert!(hsl_fields(&inner).is_some(), "{}", role.role);
        }
    }
}
