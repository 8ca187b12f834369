use loom::tokens::color::ColorRole;
use loom::tokens::color::Color;
use loom::tokens::emit::{emit_color_const, tokens_css, tokens_egui_with};
use loom::tokens::radius::Radius;
use loom::tokens::scale::{Breakpoint, FontSize, Spacing};
use loom::tokens::skins::{skin_overlay, SkinLayer, SKIN_NAMES};

fn const_name(role: &str) -> String {
    role.to_uppercase().replace('-', "_")
}

/// The egui emitter with every colour at a fixed value; the colour
/// values themselves come from the HSL conversion done by callers.
fn egui_sample() -> String {
    let light: Vec<(ColorRole, Option<(u8, u8, u8)>)> = ColorRole::all().into_iter().map(|r| (r, Some((1, 2, 3)))).collect();
    let dark: Vec<(ColorRole, Option<(u8, u8, u8)>)> =
        ColorRole::dark_all().into_iter().map(|r| (r, Some((4, 5, 6)))).collect();
    tokens_egui_with(&light, &dark)
}

#[test]
fn every_advertised_skin_resolves() {
    for name in SKIN_NAMES {
        let got = skin_overlay(name);
        assert!(got.is_ok(), "advertised skin {name:?} does not resolve");
        if name != "base" {
            assert!(got.unwrap().is_some(), "{name:?} must carry an overlay");
        }
    }
    assert!(skin_overlay("nope").is_err(), "unknown names must not fall back");
}

#[test]
fn every_skin_takes_palette_safety() {
    for name in SKIN_NAMES.iter().filter(|n| **n != "base") {
        let layers = skin_overlay(name).unwrap().unwrap();
        assert_eq!(layers[0], SkinLayer::PaletteSafety, "{name} must take palette safety as its floor");
    }
}

#[test]
fn only_skins_that_remove_fills_take_the_flat_repair() {
    for name in ["editorial", "technical", "civic"] {
        let layers = skin_overlay(name).unwrap().unwrap();
        assert!(layers.contains(&SkinLayer::FlatForegrounds), "{name} removes fills but is missing the foreground repair");
    }
    let warm = skin_overlay("warm").unwrap().unwrap();
    assert!(!warm.contains(&SkinLayer::FlatForegrounds), "warm keeps its fills, so the flat repair must not be applied");
}

#[test]
fn base_skin_has_no_overlay() {
    assert_eq!(skin_overlay("base"), Ok(None));
    assert_eq!(
        skin_overlay("warm"),
        Ok(Some(vec![SkinLayer::PaletteSafety, SkinLayer::Warm]))
    );
}

#[test]
fn token_surface_is_at_least_minimum() {
    assert!(ColorRole::all().len() >= 8, "palette shrunk");
    assert!(Spacing::all().len() >= 10, "spacing scale shrunk");
    assert!(Breakpoint::all().len() >= 4, "breakpoints shrunk");
    assert!(FontSize::all().len() >= 7, "font scale shrunk");
    assert!(Radius::all().len() >= 4, "radius scale shrunk");
}

#[test]
fn css_emitter_covers_every_role_in_root() {
    let css = tokens_css();
    for role in ColorRole::all() {
        let prop = format!("--loom-color-{}:", role.role);
        assert!(css.contains(&prop), "missing {prop} in :root");
    }
    assert!(css.contains(":root[data-theme=\"dark\"]"));
}

#[test]
fn css_emitter_covers_every_spacing_step() {
    let css = tokens_css();
    for sp in Spacing::all() {
        let prop = format!("--loom-space-{}:", sp.tailwind());
        assert!(css.contains(&prop), "missing {prop}");
    }
}

#[test]
fn css_emitter_exact_lines() {
    let css = tokens_css();
    assert!(css.starts_with("/* Generated by loom-tokens"));
    assert!(css.contains("  --loom-space-4: 1rem;\n"));
    assert!(css.contains("  --loom-radius-full: 9999px;\n"));
    assert!(css.contains("  --loom-color-primary: hsl(220 90% 28%);\n"));
    assert!(css.ends_with("  }\n}\n"));
}

#[test]
fn egui_emitter_emits_color_const_per_role() {
    let rs = egui_sample();
    for role in ColorRole::all() {
        let name = const_name(role.role);
        assert!(
            rs.contains(&format!("pub const {name}: Color32 = Color32::from_rgb")),
            "missing Color32 const {name}",
        );
    }
}

#[test]
fn egui_emitter_compiles_to_valid_rust_lookalike() {
    let rs = egui_sample();
    for line in rs.lines() {
        let s = line.trim_start();
        if s.is_empty() || s.starts_with("//") || s.starts_with("/*") {
            continue;
        }
        let ok = s.starts_with("pub mod")
            || s.starts_with("pub const")
            || s.starts_with("use ")
            || s.starts_with("#![")
            || s == "}"
            || s.starts_with("pub use")
            || s.starts_with("///")
            || s.starts_with("//!");
        assert!(ok, "unexpected line: {line:?}");
    }
}

#[test]
fn egui_emitter_color_consts_are_color32_literals() {
    let rs = egui_sample();
    for role in ColorRole::all() {
        let needle = format!("pub const {}: Color32 = Color32::from_rgb(", const_name(role.role));
        assert!(rs.contains(&needle), "missing Color32 literal for {}", role.role);
    }
    assert!(rs.contains("pub const PRIMARY: Color32 = Color32::from_rgb(1, 2, 3);"));
    assert!(rs.contains("pub const S4_PX: u32 = 16;"));
}

#[test]
fn egui_constant_names_are_upper_cased_beyond_ascii() {
    let role = ColorRole {
        role: "é-straße",
        color: Color { name: "x", tailwind: "bg-x", css: "#fff" },
    };
    let mut out = String::from("// head\n");
    emit_color_const(&mut out, &role, Some((255, 0, 9)));
    assert_eq!(
        out,
        "// head\n    /// `é-straße` — bg-x — `#fff`\n    pub const É_STRASSE: Color32 = Color32::from_rgb(255, 0, 9);\n"
    );
    assert_eq!(const_name(role.role), "É_STRASSE");
}

#[test]
fn unparsed_colours_are_emitted_magenta() {
    let role = ColorRole {
        role: "focus-ring",
        color: Color { name: "focus-ring", tailwind: "ring-focus", css: "transparent" },
    };
    let mut out = String::new();
    emit_color_const(&mut out, &role, None);
    assert_eq!(
        out,
        "    /// `focus-ring` — ring-focus — `transparent`\n    pub const FOCUS_RING: Color32 = Color32::from_rgb(255, 0, 255);\n"
    );
}
