//! Skins: per-tenant expression overlays appended after the base skin.
//!
//! An overlay is assembled from CSS layers: every overlay starts with the
//! palette-safety repairs; skins that remove the base's filled backgrounds
//! also take the flat-foreground repair; then the skin's own rules follow.

use vstd::prelude::*;
use crate::text::str_eq;

verus! {

/// One CSS layer of a skin overlay, in the order layers are concatenated.
#[derive(Debug, Clone, Copy, PartialEq, Eq, Structural)]
pub enum SkinLayer {
    /// Repairs every skin needs (colours expressed as fixed alpha over an
    /// unknown background).
    PaletteSafety,
    /// Foreground repair for skins that remove the base's filled backgrounds.
    FlatForegrounds,
    /// `editorial` — no containers, type-driven hierarchy, asymmetric, serif.
    Editorial,
    /// `technical` — dense, monospaced furniture, shared-border cells, square.
    Technical,
    /// `civic` — centred and symmetric, stacked rules, numbered sections.
    Civic,
    /// `warm` — containers, large radii, soft shadows, generous type.
    Warm,
}

/// Skin names a tenant may select; `"base"` is the default and adds no
/// overlay.
pub const SKIN_NAMES: [&'static str; 5] = ["base", "editorial", "technical", "civic", "warm"];

/// The overlay layers of a skin name: `Ok(None)` for `base`, `Ok(Some(..))`
/// for a known skin, `Err(())` for an unknown name.
pub open spec fn skin_overlay_spec(name: Seq<char>) -> Result<Option<Seq<SkinLayer>>, ()> {
    if name == "base"@ {
        Ok(None)
    } else if name == "editorial"@ {
        Ok(Some(seq![SkinLayer::PaletteSafety, SkinLayer::FlatForegrounds, SkinLayer::Editorial]))
    } else if name == "technical"@ {
        Ok(Some(seq![SkinLayer::PaletteSafety, SkinLayer::FlatForegrounds, SkinLayer::Technical]))
    } else if name == "civic"@ {
        Ok(Some(seq![SkinLayer::PaletteSafety, SkinLayer::FlatForegrounds, SkinLayer::Civic]))
    } else if name == "warm"@ {
        Ok(Some(seq![SkinLayer::PaletteSafety, SkinLayer::Warm]))
    } else {
        Err(())
    }
}

/// The expression overlay for `name`, as its ordered CSS layers; `None` for
/// the default skin. An unknown name is an error rather than a silent
/// fallback to the base skin.
pub fn skin_overlay(name: &str) -> (r: Result<Option<Vec<SkinLayer>>, ()>)
    ensures
        match (r, skin_overlay_spec(name@)) {
            (Ok(None), Ok(None)) => true,
            (Ok(Some(v)), Ok(Some(s))) => v@ == s,
            (Err(()), Err(())) => true,
            _ => false,
        },
{
    if str_eq(name, "base") {
        Ok(None)
    } else if str_eq(name, "editorial") {
        Ok(Some(vec![SkinLayer::PaletteSafety, SkinLayer::FlatForegrounds, SkinLayer::Editorial]))
    } else if str_eq(name, "technical") {
        Ok(Some(vec![SkinLayer::PaletteSafety, SkinLayer::FlatForegrounds, SkinLayer::Technical]))
    } else if str_eq(name, "civic") {
        Ok(Some(vec![SkinLayer::PaletteSafety, SkinLayer::FlatForegrounds, SkinLayer::Civic]))
    } else if str_eq(name, "warm") {
        Ok(Some(vec![SkinLayer::PaletteSafety, SkinLayer::Warm]))
    } else {
        Err(())
    }
}

/// Every overlay starts with the palette-safety layer, and carries the
/// flat-foreground repair exactly when it is not `warm`.
pub proof fn overlays_start_with_palette_safety(name: Seq<char>)
    ensures
        skin_overlay_spec(name) matches Ok(Some(layers)) ==> {
            &&& layers.len() > 0
            &&& layers[0] == SkinLayer::PaletteSafety
            &&& layers.contains(SkinLayer::FlatForegrounds) <==> name != "warm"@
        },
{
    reveal_strlit("base");
    reveal_strlit("editorial");
    reveal_strlit("technical");
    reveal_strlit("civic");
    reveal_strlit("warm");
    if let Ok(Some(layers)) = skin_overlay_spec(name) {
        if name == "warm"@ {
            assert("warm"@[0] != "base"@[0]);
            assert("warm"@.len() != "editorial"@.len());
            assert("warm"@.len() != "technical"@.len());
            assert("warm"@.len() != "civic"@.len());
            assert(!layers.contains(SkinLayer::FlatForegrounds)) by {
                assert(layers =~= seq![SkinLayer::PaletteSafety, SkinLayer::Warm]);
            }
        } else {
            assert(layers[1] == SkinLayer::FlatForegrounds);
        }
    }
}

} // verus!
