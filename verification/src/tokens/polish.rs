//! `polish` — refinement-tier decoration tokens that primitives opt into.
//! Each token maps to a CSS class `loom-polish-<slug>`; a [`PolishSet`]
//! composes 0..N of them on one primitive.

use vstd::prelude::*;
use crate::text::{join, push_char, push_str};

verus! {

/// A single polish token.
#[derive(Debug, Clone, Copy, PartialEq, Eq, Hash, Structural)]
pub enum PolishToken {
    /// Subtle 1px dot grid — the substrate's signature texture.
    DotGrid,
    /// Diagonal linear-gradient mesh, brand-tinted.
    LinearMesh,
    /// Topographic contour-line background.
    Topographic,
    /// Thin top-border in brand color marking an editorial section transition.
    EditorialRule,
    /// Inset frame — 4-side 1px border offset 8px inward.
    InsetFrame,
    /// Blueprint-corner — small angle marks at the 4 corners.
    BlueprintCorner,
    /// Soft brand-tinted halo.
    SoftGlow,
    /// Brand-halo — saturated brand color, used on hero CTAs.
    BrandHalo,
    /// AMOLED-rim — 1px brand-edge glow on dark surfaces.
    AmoledRim,
    /// Slow-reveal — 600ms opacity fade-in on first paint.
    SlowReveal,
    /// Page-turn — horizontal slide between routes.
    PageTurn,
    /// Cursor-tilt — element rotates 1-2deg following cursor.
    CursorTilt,
}

/// Top-level polish category.
#[derive(Debug, Clone, Copy, PartialEq, Eq, Hash, Structural)]
pub enum PolishCategory {
    /// Background textures.
    Background,
    /// Border / frame decoration.
    Border,
    /// Glow / halo decoration.
    Glow,
    /// Motion / transition decoration.
    Motion,
}

impl PolishToken {
    /// Kebab-case slug of a token.
    pub open spec fn slug_spec(self) -> Seq<char> {
        match self {
            PolishToken::DotGrid => "dot-grid"@,
            PolishToken::LinearMesh => "linear-mesh"@,
            PolishToken::Topographic => "topographic"@,
            PolishToken::EditorialRule => "editorial-rule"@,
            PolishToken::InsetFrame => "inset-frame"@,
            PolishToken::BlueprintCorner => "blueprint-corner"@,
            PolishToken::SoftGlow => "soft-glow"@,
            PolishToken::BrandHalo => "brand-halo"@,
            PolishToken::AmoledRim => "amoled-rim"@,
            PolishToken::SlowReveal => "slow-reveal"@,
            PolishToken::PageTurn => "page-turn"@,
            PolishToken::CursorTilt => "cursor-tilt"@,
        }
    }

    /// CSS class of a token: `loom-polish-<slug>`.
    pub open spec fn css_class_spec(self) -> Seq<char> {
        "loom-polish-"@ + self.slug_spec()
    }

    /// Category of a token.
    pub open spec fn category_spec(self) -> PolishCategory {
        match self {
            PolishToken::DotGrid => PolishCategory::Background,
            PolishToken::LinearMesh => PolishCategory::Background,
            PolishToken::Topographic => PolishCategory::Background,
            PolishToken::EditorialRule => PolishCategory::Border,
            PolishToken::InsetFrame => PolishCategory::Border,
            PolishToken::BlueprintCorner => PolishCategory::Border,
            PolishToken::SoftGlow => PolishCategory::Glow,
            PolishToken::BrandHalo => PolishCategory::Glow,
            PolishToken::AmoledRim => PolishCategory::Glow,
            PolishToken::SlowReveal => PolishCategory::Motion,
            PolishToken::PageTurn => PolishCategory::Motion,
            PolishToken::CursorTilt => PolishCategory::Motion,
        }
    }

    /// Every token, ordered by slug (the order their classes sort in).
    pub open spec fn slug_order() -> Seq<PolishToken> {
        seq![
            PolishToken::AmoledRim,
            PolishToken::BlueprintCorner,
            PolishToken::BrandHalo,
            PolishToken::CursorTilt,
            PolishToken::DotGrid,
            PolishToken::EditorialRule,
            PolishToken::InsetFrame,
            PolishToken::LinearMesh,
            PolishToken::PageTurn,
            PolishToken::SlowReveal,
            PolishToken::SoftGlow,
            PolishToken::Topographic,
        ]
    }

    /// Kebab-case slug used in the CSS class name + the wire format.
    pub fn slug(self) -> (r: &'static str)
        ensures
            r@ == self.slug_spec(),
    {
        match self {
            PolishToken::DotGrid => "dot-grid",
            PolishToken::LinearMesh => "linear-mesh",
            PolishToken::Topographic => "topographic",
            PolishToken::EditorialRule => "editorial-rule",
            PolishToken::InsetFrame => "inset-frame",
            PolishToken::BlueprintCorner => "blueprint-corner",
            PolishToken::SoftGlow => "soft-glow",
            PolishToken::BrandHalo => "brand-halo",
            PolishToken::AmoledRim => "amoled-rim",
            PolishToken::SlowReveal => "slow-reveal",
            PolishToken::PageTurn => "page-turn",
            PolishToken::CursorTilt => "cursor-tilt",
        }
    }

    /// CSS class skin.css targets to apply the polish.
    pub fn css_class(self) -> (r: String)
        ensures
            r@ == self.css_class_spec(),
    {
        let mut s = String::new();
        push_str(&mut s, "loom-polish-");
        push_str(&mut s, self.slug());
        s
    }

    /// Polish category.
    pub fn category(self) -> (r: PolishCategory)
        ensures
            r == self.category_spec(),
    {
        match self {
            PolishToken::DotGrid => PolishCategory::Background,
            PolishToken::LinearMesh => PolishCategory::Background,
            PolishToken::Topographic => PolishCategory::Background,
            PolishToken::EditorialRule => PolishCategory::Border,
            PolishToken::InsetFrame => PolishCategory::Border,
            PolishToken::BlueprintCorner => PolishCategory::Border,
            PolishToken::SoftGlow => PolishCategory::Glow,
            PolishToken::BrandHalo => PolishCategory::Glow,
            PolishToken::AmoledRim => PolishCategory::Glow,
            PolishToken::SlowReveal => PolishCategory::Motion,
            PolishToken::PageTurn => PolishCategory::Motion,
            PolishToken::CursorTilt => PolishCategory::Motion,
        }
    }

    /// `true` iff this polish involves motion.
    pub fn is_motion(self) -> (r: bool)
        ensures
            r == (self.category_spec() == PolishCategory::Motion),
    {
        match self.category() {
            PolishCategory::Motion => true,
            _ => false,
        }
    }
}

/// The classes of the tokens of `order` that occur in `present`, in the
/// order of `order`, each once.
pub open spec fn class_list(order: Seq<PolishToken>, present: Seq<PolishToken>) -> Seq<Seq<char>>
    decreases order.len(),
{
    if order.len() == 0 {
        Seq::empty()
    } else {
        let rest = class_list(order.drop_last(), present);
        if present.contains(order.last()) {
            rest.push(order.last().css_class_spec())
        } else {
            rest
        }
    }
}

/// A composed polish set — 0..N tokens on a single primitive instance.
#[derive(Debug, Clone, PartialEq, Eq)]
pub struct PolishSet(pub Vec<PolishToken>);

impl Default for PolishSet {
    /// The empty set.
    fn default() -> (r: Self)
        ensures
            r.0@ == Seq::<PolishToken>::empty(),
    {
        PolishSet(Vec::new())
    }
}

/// The joined class string of a token list: the class of every token that
/// occurs, sorted by slug, each once, separated by single spaces.
pub open spec fn css_classes_spec(tokens: Seq<PolishToken>) -> Seq<char> {
    join(class_list(PolishToken::slug_order(), tokens), " "@)
}

fn contains_token(v: &Vec<PolishToken>, t: PolishToken) -> (r: bool)
    ensures
        r == v@.contains(t),
{
    let mut i: usize = 0;
    while i < v.len()
        invariant
            i <= v.len(),
            forall|k: int| 0 <= k < i ==> v@[k] != t,
        decreases v.len() - i,
    {
        if v[i] == t {
            return true;
        }
        i = i + 1;
    }
    false
}

fn slug_order_vec() -> (r: Vec<PolishToken>)
    ensures
        r@ == PolishToken::slug_order(),
{
    vec![

        PolishToken::AmoledRim,
        PolishToken::BlueprintCorner,
        PolishToken::BrandHalo,
        PolishToken::CursorTilt,
        PolishToken::DotGrid,
        PolishToken::EditorialRule,
        PolishToken::InsetFrame,
        PolishToken::LinearMesh,
        PolishToken::PageTurn,
        PolishToken::SlowReveal,
        PolishToken::SoftGlow,
        PolishToken::Topographic,
    ]
}

impl PolishSet {
    /// Empty polish set.
    pub fn new() -> (r: Self)
        ensures
            r.0@ == Seq::<PolishToken>::empty(),
    {
        PolishSet(Vec::new())
    }

    /// Build a set from a slice of tokens, keeping their order.
    pub fn from_slice(tokens: &[PolishToken]) -> (r: Self)
        ensures
            r.0@ == tokens@,
    {
        let mut v: Vec<PolishToken> = Vec::new();
        let mut i: usize = 0;
        while i < tokens.len()
            invariant
                i <= tokens.len(),
                v@ == tokens@.take(i as int),
            decreases tokens.len() - i,
        {
            v.push(tokens[i]);
            i = i + 1;
        }
        assert(tokens@.take(tokens.len() as int) =~= tokens@);
        PolishSet(v)
    }

    /// Compose the joined CSS class string: every present token's class,
    /// sorted, without duplicates, space-separated. Empty for an empty set.
    pub fn css_classes(&self) -> (r: String)
        ensures
            r@ == css_classes_spec(self.0@),
    {
        let order = slug_order_vec();
        let mut out = String::new();
        let mut k: usize = 0;
        let mut any = false;
        while k < order.len()
            invariant
                order@ == PolishToken::slug_order(),
                k <= order.len(),
                any == (class_list(order@.take(k as int), self.0@).len() > 0),
                out@ == join(class_list(order@.take(k as int), self.0@), " "@),
            decreases order.len() - k,
        {
            let t = order[k];
            proof {
                assert(order@.take(k + 1).drop_last() =~= order@.take(k as int));
                assert(order@.take(k + 1).last() == t);
            }
            let ghost before = class_list(order@.take(k as int), self.0@);
            if contains_token(&self.0, t) {
                if any {
                    push_char(&mut out, ' ');
                    proof {
                        reveal_strlit(" ");
                        assert(" "@ =~= seq![' ']);
                    }
                }
                let c = t.css_class();
                push_str(&mut out, c.as_str());
                proof {
                    let after = before.push(t.css_class_spec());
                    assert(after.drop_last() =~= before);
                    if before.len() == 0 {
                        assert(out@ =~= join(after, " "@));
                    } else {
                        assert(out@ =~= join(after, " "@));
                    }
                }
                any = true;
            }
            k = k + 1;
        }
        assert(order@.take(order.len() as int) =~= order@);
        out
    }

    /// `true` iff the set is empty.
    pub fn is_empty(&self) -> (r: bool)
        ensures
            r == (self.0@.len() == 0),
    {
        self.0.len() == 0
    }

    /// Number of tokens in the set.
    pub fn len(&self) -> (r: usize)
        ensures
            r == self.0@.len(),
    {
        self.0.len()
    }

    /// `true` iff the set contains at least one motion-tier polish.
    pub fn has_motion(&self) -> (r: bool)
        ensures
            r == exists|i: int| 0 <= i < self.0@.len() && self.0@[i].category_spec() == PolishCategory::Motion,
    {
        let mut i: usize = 0;
        while i < self.0.len()
            invariant
                i <= self.0.len(),
                forall|k: int| 0 <= k < i ==> self.0@[k].category_spec() != PolishCategory::Motion,
            decreases self.0.len() - i,
        {
            if self.0[i].is_motion() {
                return true;
            }
            i = i + 1;
        }
        false
    }
}

/// The class list depends only on which tokens are present, not on their
/// order or repetition in the set.
pub proof fn class_list_depends_on_membership(order: Seq<PolishToken>, a: Seq<PolishToken>, b: Seq<PolishToken>)
    requires
        forall|t: PolishToken| a.contains(t) <==> b.contains(t),
    ensures
        class_list(order, a) == class_list(order, b),
    decreases order.len(),
{
    if order.len() > 0 {
        class_list_depends_on_membership(order.drop_last(), a, b);
    }
}

/// Two polish sets with the same tokens (in any order, with any repeats)
/// produce the same class string.
pub proof fn css_classes_ignore_order_and_repeats(a: Seq<PolishToken>, b: Seq<PolishToken>)
    requires
        forall|t: PolishToken| a.contains(t) <==> b.contains(t),
    ensures
        css_classes_spec(a) == css_classes_spec(b),
{
    class_list_depends_on_membership(PolishToken::slug_order(), a, b);
}

/// Each category holds exactly three tokens.
pub proof fn three_tokens_per_category(t: PolishToken)
    ensures
        PolishToken::slug_order().filter(|u: PolishToken| u.category_spec() == t.category_spec()).len() == 3,
{
    reveal_with_fuel(Seq::filter, 13);
}

} // verus!
