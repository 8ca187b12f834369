//! Gradient pool — curated brand-grade gradient pairs with deterministic,
//! identity-aware selection: the same site identity always lands on the
//! same pair, and recently used pairs are skipped while an alternative
//! exists.

use vstd::prelude::*;
use sha2::{Digest, Sha256};
use vstd::string::StringSliceAdditionalSpecFns;
use crate::text::{decimal, push_decimal, push_str, str_eq};

verus! {

/// Aesthetic mood tag for a gradient pair.
#[derive(Debug, Clone, Copy, PartialEq, Eq, Hash, Structural)]
pub enum GradientMood {
    /// Cool tones (blue, purple, teal).
    Cool,
    /// Warm tones (orange, red, amber).
    Warm,
    /// Same hue at different lightnesses.
    Monochrome,
    /// Two contrasting hues.
    Duotone,
    /// Near-neutral tones.
    Neutral,
    /// Emulates a sky / sunset / sea gradient.
    Photographic,
    /// Solid color, no gradient.
    Solid,
}

/// One gradient pair entry in the curated pool.
#[derive(Debug, Clone, Copy, PartialEq, Eq)]
pub struct GradientPair {
    /// Stable wire identifier (kebab-case).
    pub name: &'static str,
    /// First endpoint as a CSS color literal.
    pub a: &'static str,
    /// Second endpoint as a CSS color literal.
    pub b: &'static str,
    /// Direction in degrees.
    pub direction_deg: u16,
    /// Aesthetic mood tag.
    pub mood: GradientMood,
}

impl GradientPair {
    /// The CSS value of a pair: its first endpoint for a solid pair, else
    /// `linear-gradient(<deg>deg, <a>, <b>)`.
    pub open spec fn css_value_spec(self) -> Seq<char> {
        if self.mood == GradientMood::Solid {
            self.a@
        } else {
            "linear-gradient("@ + decimal(self.direction_deg as nat) + "deg, "@ + self.a@ + ", "@
                + self.b@ + ")"@
        }
    }

    /// Emit the CSS `linear-gradient(...)` value string.
    pub fn to_css_value(&self) -> (r: String)
        ensures
            r@ == self.css_value_spec(),
    {
        let mut s = String::new();
        if self.mood == GradientMood::Solid {
            push_str(&mut s, self.a);
        } else {
            push_str(&mut s, "linear-gradient(");
            push_decimal(&mut s, self.direction_deg as u64);
            push_str(&mut s, "deg, ");
            push_str(&mut s, self.a);
            push_str(&mut s, ", ");
            push_str(&mut s, self.b);
            push_str(&mut s, ")");
        }
        s
    }
}

/// The curated pool, in its stable order (removing or reordering pairs
/// changes which pair an identity lands on).
pub open spec fn pool_spec() -> Seq<GradientPair> {
    seq![
        GradientPair { name: "cool-indigo-violet", a: "#4F46E5", b: "#7C3AED", direction_deg: 135, mood: GradientMood::Cool },
        GradientPair { name: "cool-teal-cyan", a: "#0F766E", b: "#0891B2", direction_deg: 120, mood: GradientMood::Cool },
        GradientPair { name: "cool-slate-blue", a: "#1E293B", b: "#1D4ED8", direction_deg: 110, mood: GradientMood::Cool },
        GradientPair { name: "cool-aqua-mint", a: "#06B6D4", b: "#10B981", direction_deg: 100, mood: GradientMood::Cool },
        GradientPair { name: "warm-amber-rust", a: "#F59E0B", b: "#B91C1C", direction_deg: 135, mood: GradientMood::Warm },
        GradientPair { name: "warm-peach-coral", a: "#FED7AA", b: "#EA580C", direction_deg: 120, mood: GradientMood::Warm },
        GradientPair { name: "warm-rose-magenta", a: "#E11D48", b: "#A21CAF", direction_deg: 135, mood: GradientMood::Warm },
        GradientPair { name: "warm-sand-terracotta", a: "#FBBF24", b: "#9A3412", direction_deg: 125, mood: GradientMood::Warm },
        GradientPair { name: "mono-slate-fade", a: "#0F172A", b: "#475569", direction_deg: 180, mood: GradientMood::Monochrome },
        GradientPair { name: "mono-cream-fade", a: "#FAF7F2", b: "#D6CFC2", direction_deg: 180, mood: GradientMood::Monochrome },
        GradientPair { name: "mono-indigo-fade", a: "#312E81", b: "#6366F1", direction_deg: 180, mood: GradientMood::Monochrome },
        GradientPair { name: "mono-emerald-fade", a: "#064E3B", b: "#34D399", direction_deg: 180, mood: GradientMood::Monochrome },
        GradientPair { name: "duo-violet-pink", a: "#7C3AED", b: "#EC4899", direction_deg: 135, mood: GradientMood::Duotone },
        GradientPair { name: "duo-emerald-yellow", a: "#059669", b: "#FCD34D", direction_deg: 135, mood: GradientMood::Duotone },
        GradientPair { name: "duo-blue-orange", a: "#1D4ED8", b: "#F97316", direction_deg: 110, mood: GradientMood::Duotone },
        GradientPair { name: "duo-cyan-magenta", a: "#06B6D4", b: "#D946EF", direction_deg: 135, mood: GradientMood::Duotone },
        GradientPair { name: "neutral-stone-paper", a: "#F5F5F4", b: "#A8A29E", direction_deg: 180, mood: GradientMood::Neutral },
        GradientPair { name: "neutral-graphite", a: "#27272A", b: "#52525B", direction_deg: 180, mood: GradientMood::Neutral },
        GradientPair { name: "neutral-bone-ash", a: "#FAFAF9", b: "#78716C", direction_deg: 165, mood: GradientMood::Neutral },
        GradientPair { name: "photo-dawn", a: "#FB923C", b: "#7C3AED", direction_deg: 200, mood: GradientMood::Photographic },
        GradientPair { name: "photo-dusk", a: "#1E1B4B", b: "#F472B6", direction_deg: 200, mood: GradientMood::Photographic },
        GradientPair { name: "photo-ocean", a: "#0C4A6E", b: "#7DD3FC", direction_deg: 200, mood: GradientMood::Photographic },
        GradientPair { name: "photo-forest", a: "#14532D", b: "#FACC15", direction_deg: 200, mood: GradientMood::Photographic },
        GradientPair { name: "solid-ink", a: "#0F172A", b: "#0F172A", direction_deg: 0, mood: GradientMood::Solid },
    ]
}

/// Curated pool of brand-grade gradient pairs.
pub fn gradient_pool() -> (r: Vec<GradientPair>)
    ensures
        r@ == pool_spec(),
{
    vec![
        GradientPair { name: "cool-indigo-violet", a: "#4F46E5", b: "#7C3AED", direction_deg: 135, mood: GradientMood::Cool },
        GradientPair { name: "cool-teal-cyan", a: "#0F766E", b: "#0891B2", direction_deg: 120, mood: GradientMood::Cool },
        GradientPair { name: "cool-slate-blue", a: "#1E293B", b: "#1D4ED8", direction_deg: 110, mood: GradientMood::Cool },
        GradientPair { name: "cool-aqua-mint", a: "#06B6D4", b: "#10B981", direction_deg: 100, mood: GradientMood::Cool },
        GradientPair { name: "warm-amber-rust", a: "#F59E0B", b: "#B91C1C", direction_deg: 135, mood: GradientMood::Warm },
        GradientPair { name: "warm-peach-coral", a: "#FED7AA", b: "#EA580C", direction_deg: 120, mood: GradientMood::Warm },
        GradientPair { name: "warm-rose-magenta", a: "#E11D48", b: "#A21CAF", direction_deg: 135, mood: GradientMood::Warm },
        GradientPair { name: "warm-sand-terracotta", a: "#FBBF24", b: "#9A3412", direction_deg: 125, mood: GradientMood::Warm },
        GradientPair { name: "mono-slate-fade", a: "#0F172A", b: "#475569", direction_deg: 180, mood: GradientMood::Monochrome },
        GradientPair { name: "mono-cream-fade", a: "#FAF7F2", b: "#D6CFC2", direction_deg: 180, mood: GradientMood::Monochrome },
        GradientPair { name: "mono-indigo-fade", a: "#312E81", b: "#6366F1", direction_deg: 180, mood: GradientMood::Monochrome },
        GradientPair { name: "mono-emerald-fade", a: "#064E3B", b: "#34D399", direction_deg: 180, mood: GradientMood::Monochrome },
        GradientPair { name: "duo-violet-pink", a: "#7C3AED", b: "#EC4899", direction_deg: 135, mood: GradientMood::Duotone },
        GradientPair { name: "duo-emerald-yellow", a: "#059669", b: "#FCD34D", direction_deg: 135, mood: GradientMood::Duotone },
        GradientPair { name: "duo-blue-orange", a: "#1D4ED8", b: "#F97316", direction_deg: 110, mood: GradientMood::Duotone },
        GradientPair { name: "duo-cyan-magenta", a: "#06B6D4", b: "#D946EF", direction_deg: 135, mood: GradientMood::Duotone },
        GradientPair { name: "neutral-stone-paper", a: "#F5F5F4", b: "#A8A29E", direction_deg: 180, mood: GradientMood::Neutral },
        GradientPair { name: "neutral-graphite", a: "#27272A", b: "#52525B", direction_deg: 180, mood: GradientMood::Neutral },
        GradientPair { name: "neutral-bone-ash", a: "#FAFAF9", b: "#78716C", direction_deg: 165, mood: GradientMood::Neutral },
        GradientPair { name: "photo-dawn", a: "#FB923C", b: "#7C3AED", direction_deg: 200, mood: GradientMood::Photographic },
        GradientPair { name: "photo-dusk", a: "#1E1B4B", b: "#F472B6", direction_deg: 200, mood: GradientMood::Photographic },
        GradientPair { name: "photo-ocean", a: "#0C4A6E", b: "#7DD3FC", direction_deg: 200, mood: GradientMood::Photographic },
        GradientPair { name: "photo-forest", a: "#14532D", b: "#FACC15", direction_deg: 200, mood: GradientMood::Photographic },
        GradientPair { name: "solid-ink", a: "#0F172A", b: "#0F172A", direction_deg: 0, mood: GradientMood::Solid },
    ]
}

/// The SHA-256 digest of `data` (what `sha2::Sha256::digest` returns).
pub uninterp spec fn sha256_digest(data: Seq<u8>) -> Seq<u8>;

/// SHA-256 of `data` through `sha2::Sha256::digest`. The digest is named
/// by [`sha256_digest`]; its length, 32 bytes, is fixed by the algorithm.
#[verifier::external_body]
fn sha256(data: &[u8]) -> (r: Vec<u8>)
    ensures
        r@ == sha256_digest(data@),
        r@.len() == 32,
{
    Sha256::digest(data).to_vec()
}

/// Big-endian value of a byte string.
pub open spec fn be_value(bytes: Seq<u8>) -> nat
    decreases bytes.len(),
{
    if bytes.len() == 0 {
        0
    } else {
        be_value(bytes.drop_last()) * 256 + bytes.last() as nat
    }
}

/// The pool index a digest selects among `n` entries: its first eight
/// bytes read big-endian as a `u64`, cast to `usize`, reduced mod `n`.
pub open spec fn digest_index(digest: Seq<u8>, n: nat) -> nat
    recommends
        n > 0,
{
    (((be_value(digest.take(8)) as u64) as usize) as nat) % n
}

proof fn be_value_bound(bytes: Seq<u8>)
    ensures
        be_value(bytes) < pow256(bytes.len()),
    decreases bytes.len(),
{
    if bytes.len() > 0 {
        be_value_bound(bytes.drop_last());
        let p = pow256((bytes.len() - 1) as nat);
        assert(be_value(bytes.drop_last()) * 256 + (bytes.last() as nat) < p * 256) by (nonlinear_arith)
            requires
                be_value(bytes.drop_last()) < p,
                (bytes.last() as nat) < 256,
        ;
    }
}

spec fn pow256(n: nat) -> nat
    decreases n,
{
    if n == 0 {
        1
    } else {
        pow256((n - 1) as nat) * 256
    }
}

fn index_from_digest(digest: &Vec<u8>, n: usize) -> (r: usize)
    requires
        n > 0,
        digest@.len() >= 8,
    ensures
        r == digest_index(digest@, n as nat),
        r < n,
{
    let mut x: u64 = 0;
    let mut i: usize = 0;
    while i < 8
        invariant
            i <= 8 <= digest@.len(),
            x as nat == be_value(digest@.take(i as int)),
        decreases 8 - i,
    {
        proof {
            be_value_bound(digest@.take(i as int));
            assert(pow256(i as nat) <= pow256(7)) by {
                lemma_pow256_monotone(i as nat, 7);
            }
            assert(pow256(7) == 72057594037927936) by {
                reveal_with_fuel(pow256, 8);
            }
            assert(digest@.take(i + 1).drop_last() =~= digest@.take(i as int));
        }
        x = x * 256 + digest[i] as u64;
        i = i + 1;
    }
    (x as usize) % n
}

proof fn lemma_pow256_monotone(a: nat, b: nat)
    requires
        a <= b,
    ensures
        pow256(a) <= pow256(b),
    decreases b,
{
    if a < b {
        lemma_pow256_monotone(a, (b - 1) as nat);
    }
}

/// `recent` holds a string equal to `name`.
pub open spec fn is_recent(recent: Seq<&str>, name: Seq<char>) -> bool {
    exists|i: int| 0 <= i < recent.len() && recent[i]@ == name
}

/// Walk forward (wrapping) from `start + offset` to the first pair whose
/// name is not recent; `start` itself when every pair is recent.
pub open spec fn walk(pool: Seq<GradientPair>, recent: Seq<&str>, start: nat, offset: nat) -> nat
    decreases pool.len() - offset,
{
    if offset >= pool.len() {
        start
    } else {
        let i = (start + offset) % pool.len();
        if !is_recent(recent, pool[i as int].name@) {
            i
        } else {
            walk(pool, recent, start, offset + 1)
        }
    }
}

/// The position chosen in `pool` from the hashed position `start`: `start`
/// itself when nothing is recent, else the walk.
pub open spec fn choose_position(pool: Seq<GradientPair>, recent: Seq<&str>, start: nat) -> nat {
    if recent.len() == 0 {
        start
    } else {
        walk(pool, recent, start, 0)
    }
}

fn is_recent_exec(recent: &[&str], name: &str) -> (r: bool)
    ensures
        r == is_recent(recent@, name@),
{
    let mut i: usize = 0;
    while i < recent.len()
        invariant
            i <= recent.len(),
            forall|k: int| 0 <= k < i ==> recent@[k]@ != name@,
        decreases recent.len() - i,
    {
        if str_eq(recent[i], name) {
            return true;
        }
        i = i + 1;
    }
    false
}

/// Choose from `pool`, starting at the hashed position `start`, the first
/// pair (wrapping) whose name is not in `recently_used`; `start` when every
/// pair is recent or nothing is.
pub fn choose_from(pool: &Vec<GradientPair>, start: usize, recently_used: &[&str]) -> (r: usize)
    requires
        start < pool.len(),
    ensures
        r == choose_position(pool@, recently_used@, start as nat),
        r < pool.len(),
{
    if recently_used.len() == 0 {
        return start;
    }
    let n = pool.len();
    let mut offset: usize = 0;
    while offset < n
        invariant
            n == pool.len(),
            start < n,
            offset <= n,
            recently_used@.len() > 0,
            walk(pool@, recently_used@, start as nat, 0) == walk(pool@, recently_used@, start as nat, offset as nat),
        decreases n - offset,
    {
        let i = if start >= n - offset {
            start - (n - offset)
        } else {
            start + offset
        };
        assert(i == (start + offset) % (n as int)) by {
            if start + offset >= n {
                vstd::arithmetic::div_mod::lemma_mod_sub_multiples_vanish((start + offset) as int, n as int);
                vstd::arithmetic::div_mod::lemma_small_mod((start + offset - n) as nat, n as nat);
            } else {
                vstd::arithmetic::div_mod::lemma_small_mod((start + offset) as nat, n as nat);
            }
        }
        if !is_recent_exec(recently_used, pool[i].name) {
            assert(walk(pool@, recently_used@, start as nat, offset as nat) == i);
            return i;
        }
        offset = offset + 1;
    }
    start
}

/// The message hashed for a site identity: `prefix`, the tenant, a NUL
/// byte, the site id.
pub open spec fn identity_message(prefix: Seq<u8>, site_id: &str, tenant: &str) -> Seq<u8> {
    prefix + tenant.spec_bytes() + seq![0u8] + site_id.spec_bytes()
}

fn identity_bytes(prefix: &str, site_id: &str, tenant: &str) -> (r: Vec<u8>)
    ensures
        r@ == identity_message(prefix.spec_bytes(), site_id, tenant),
{
    let mut v: Vec<u8> = Vec::new();
    append_bytes(&mut v, prefix.as_bytes());
    append_bytes(&mut v, tenant.as_bytes());
    v.push(0u8);
    append_bytes(&mut v, site_id.as_bytes());
    v
}

fn append_bytes(v: &mut Vec<u8>, b: &[u8])
    ensures
        final(v)@ == old(v)@ + b@,
{
    let ghost start = v@;
    let mut i: usize = 0;
    while i < b.len()
        invariant
            i <= b.len(),
            v@ == start + b@.take(i as int),
        decreases b.len() - i,
    {
        v.push(b[i]);
        assert(b@.take(i + 1) =~= b@.take(i as int).push(b@[i as int]));
        i = i + 1;
    }
    assert(b@.take(b.len() as int) =~= b@);
}

/// The pair a digest selects from `pool` given the recently used names.
pub open spec fn select_from_digest_spec(pool: Seq<GradientPair>, digest: Seq<u8>, recent: Seq<&str>) -> GradientPair {
    pool[choose_position(pool, recent, digest_index(digest, pool.len())) as int]
}

/// Select from the whole pool with a given SHA-256 digest of the site
/// identity: the hashed position, or the first pair after it (wrapping)
/// that is not recently used.
pub fn select_from_digest(digest: &Vec<u8>, recently_used: &[&str]) -> (r: GradientPair)
    requires
        digest@.len() >= 8,
    ensures
        r == select_from_digest_spec(pool_spec(), digest@, recently_used@),
{
    let pool = gradient_pool();
    let h = index_from_digest(digest, pool.len());
    let i = choose_from(&pool, h, recently_used);
    pool[i]
}

/// The pair a site identity lands on (prefix `gradient-pool/v1\0`).
pub open spec fn select_for_identity_spec(site_id: &str, tenant: &str, recent: Seq<&str>) -> GradientPair {
    select_from_digest_spec(
        pool_spec(),
        sha256_digest(identity_message(pool_prefix(), site_id, tenant)),
        recent,
    )
}

/// Bytes of the hashing prefix for unrestricted selection.
pub open spec fn pool_prefix() -> Seq<u8> {
    "gradient-pool/v1\0".spec_bytes()
}

/// Bytes of the hashing prefix for mood-restricted selection.
pub open spec fn mood_prefix() -> Seq<u8> {
    "gradient-pool-mood/v1\0".spec_bytes()
}

/// Deterministic identity-aware selection from the pool: SHA-256 of
/// `gradient-pool/v1\0` + tenant + `\0` + site id picks the start, and
/// recently used pairs are skipped while an unused one remains.
pub fn select_for_identity(site_id: &str, tenant: &str, recently_used: &[&str]) -> (r: GradientPair)
    ensures
        r == select_for_identity_spec(site_id, tenant, recently_used@),
{
    let msg = identity_bytes("gradient-pool/v1\0", site_id, tenant);
    let digest = sha256(msg.as_slice());
    select_from_digest(&digest, recently_used)
}

/// The pool entries with mood `mood`, in pool order.
pub open spec fn with_mood(pool: Seq<GradientPair>, mood: GradientMood) -> Seq<GradientPair> {
    pool.filter(|p: GradientPair| p.mood == mood)
}

fn filter_mood(pool: &Vec<GradientPair>, mood: GradientMood) -> (r: Vec<GradientPair>)
    ensures
        r@ == with_mood(pool@, mood),
{
    let mut out: Vec<GradientPair> = Vec::new();
    let mut i: usize = 0;
    while i < pool.len()
        invariant
            i <= pool.len(),
            out@ == with_mood(pool@.take(i as int), mood),
        decreases pool.len() - i,
    {
        proof {
            reveal(Seq::filter);
            assert(pool@.take(i + 1).drop_last() =~= pool@.take(i as int));
        }
        if pool[i].mood == mood {
            out.push(pool[i]);
        }
        i = i + 1;
    }
    assert(pool@.take(pool.len() as int) =~= pool@);
    out
}

/// The pair a site identity lands on within one mood; the unrestricted
/// selection when the pool has no pair of that mood.
pub open spec fn select_for_identity_mood_spec(site_id: &str, tenant: &str, mood: GradientMood, recent: Seq<&str>) -> GradientPair {
    let filtered = with_mood(pool_spec(), mood);
    if filtered.len() == 0 {
        select_for_identity_spec(site_id, tenant, recent)
    } else {
        select_from_digest_spec(
            filtered,
            sha256_digest(identity_message(mood_prefix(), site_id, tenant)),
            recent,
        )
    }
}

/// Mood-restricted selection: the same walk over only the pairs of `mood`,
/// hashed with the `gradient-pool-mood/v1\0` prefix.
pub fn select_for_identity_mood(site_id: &str, tenant: &str, mood: GradientMood, recently_used: &[&str]) -> (r: GradientPair)
    ensures
        r == select_for_identity_mood_spec(site_id, tenant, mood, recently_used@),
{
    let pool = gradient_pool();
    let filtered = filter_mood(&pool, mood);
    if filtered.len() == 0 {
        return select_for_identity(site_id, tenant, recently_used);
    }
    let msg = identity_bytes("gradient-pool-mood/v1\0", site_id, tenant);
    let digest = sha256(msg.as_slice());
    let h = index_from_digest(&digest, filtered.len());
    let i = choose_from(&filtered, h, recently_used);
    filtered[i]
}

/// The pair `k` steps after `start` (wrapping) is not recent.
pub open spec fn free_at(pool: Seq<GradientPair>, recent: Seq<&str>, start: nat, k: nat) -> bool {
    !is_recent(recent, pool[((start + k) % pool.len()) as int].name@)
}

/// The walk lands on a pool position; and when some pair at or after the
/// current offset is not recent, it lands on a pair that is not recent.
pub proof fn walk_avoids_recent(pool: Seq<GradientPair>, recent: Seq<&str>, start: nat, offset: nat)
    requires
        start < pool.len(),
    ensures
        walk(pool, recent, start, offset) < pool.len(),
        (exists|k: nat| offset <= k < pool.len() && #[trigger] free_at(pool, recent, start, k))
            ==> !is_recent(recent, pool[walk(pool, recent, start, offset) as int].name@),
    decreases pool.len() - offset,
{
    if offset < pool.len() {
        let i = (start + offset) % pool.len();
        if is_recent(recent, pool[i as int].name@) {
            walk_avoids_recent(pool, recent, start, offset + 1);
            if exists|k: nat| offset <= k < pool.len() && #[trigger] free_at(pool, recent, start, k) {
                let k = choose|k: nat| offset <= k < pool.len() && #[trigger] free_at(pool, recent, start, k);
                assert(offset + 1 <= k < pool.len() && free_at(pool, recent, start, k));
                assert(k != offset);
            }
        }
    }
}

/// Selection avoids every recently used pair whenever the pool still has a
/// pair that is not recently used; it always returns a pool entry.
pub proof fn selection_avoids_recent_when_possible(pool: Seq<GradientPair>, digest: Seq<u8>, recent: Seq<&str>)
    requires
        pool.len() > 0,
        recent.len() > 0,
        exists|j: int| 0 <= j < pool.len() && !is_recent(recent, pool[j].name@),
    ensures
        pool.contains(select_from_digest_spec(pool, digest, recent)),
        !is_recent(recent, select_from_digest_spec(pool, digest, recent).name@),
        forall|i: int|
            0 <= i < recent.len() ==> (#[trigger] recent[i])@ != select_from_digest_spec(
                pool,
                digest,
                recent,
            ).name@,
{
    let start = digest_index(digest, pool.len());
    let j = choose|j: int| 0 <= j < pool.len() && !is_recent(recent, pool[j].name@);
    let n = pool.len() as int;
    let k: nat = ((j - start as int) % n) as nat;
    assert(((start + k) % pool.len()) as int == j) by {
        vstd::arithmetic::div_mod::lemma_mod_bound(j - start as int, n);
        vstd::arithmetic::div_mod::lemma_small_mod(start, n as nat);
        vstd::arithmetic::div_mod::lemma_mod_twice(j - start as int, n);
        vstd::arithmetic::div_mod::lemma_add_mod_noop(start as int, j - start as int, n);
        vstd::arithmetic::div_mod::lemma_small_mod(j as nat, n as nat);
    }
    assert(free_at(pool, recent, start, k));
    walk_avoids_recent(pool, recent, start, 0);
}

/// A name is recent exactly when one of the recently used strings equals
/// it, wherever in the list that string stands.
pub proof fn is_recent_is_membership(recent: Seq<&str>, name: Seq<char>)
    ensures
        is_recent(recent, name) == recent.map_values(|s: &str| s@).contains(name),
{
    let v = recent.map_values(|s: &str| s@);
    if v.contains(name) {
        let i = choose|i: int| 0 <= i < v.len() && v[i] == name;
        assert(recent[i]@ == name);
    }
    if is_recent(recent, name) {
        let i = choose|i: int| 0 <= i < recent.len() && recent[i]@ == name;
        assert(v[i] == name);
    }
}

/// Selection for a site identity returns a pool pair whose name is none of
/// the recently used names, whenever some pool pair's name is not among
/// them.
pub proof fn identity_selection_avoids_recent(site_id: &str, tenant: &str, recent: Seq<&str>)
    requires
        exists|j: int|
            #![trigger pool_spec()[j]]
            0 <= j < pool_spec().len() && forall|i: int|
                0 <= i < recent.len() ==> (#[trigger] recent[i])@ != pool_spec()[j].name@,
    ensures
        pool_spec().contains(select_for_identity_spec(site_id, tenant, recent)),
        forall|i: int|
            0 <= i < recent.len() ==> (#[trigger] recent[i])@ != select_for_identity_spec(
                site_id,
                tenant,
                recent,
            ).name@,
{
    let pool = pool_spec();
    let d = sha256_digest(identity_message(pool_prefix(), site_id, tenant));
    let j = choose|j: int|
        #![trigger pool[j]]
        0 <= j < pool.len() && forall|i: int| 0 <= i < recent.len() ==> (#[trigger] recent[i])@ != pool[j].name@;
    assert(!is_recent(recent, pool[j].name@));
    if recent.len() > 0 {
        selection_avoids_recent_when_possible(pool, d, recent);
    } else {
        let start = digest_index(d, pool.len());
        assert(start < pool.len());
        assert(pool.contains(pool[start as int]));
    }
}

/// Selection by mood returns a pool pair of that mood whose name is none
/// of the recently used names, whenever some pair of that mood has a name
/// not among them.
pub proof fn mood_selection_avoids_recent(site_id: &str, tenant: &str, mood: GradientMood, recent: Seq<&str>)
    requires
        exists|j: int|
            #![trigger pool_spec()[j]]
            0 <= j < pool_spec().len() && pool_spec()[j].mood == mood && forall|i: int|
                0 <= i < recent.len() ==> (#[trigger] recent[i])@ != pool_spec()[j].name@,
    ensures
        pool_spec().contains(select_for_identity_mood_spec(site_id, tenant, mood, recent)),
        select_for_identity_mood_spec(site_id, tenant, mood, recent).mood == mood,
        forall|i: int|
            0 <= i < recent.len() ==> (#[trigger] recent[i])@ != select_for_identity_mood_spec(
                site_id,
                tenant,
                mood,
                recent,
            ).name@,
{
    let pool = pool_spec();
    let pred = |p: GradientPair| p.mood == mood;
    let filtered = with_mood(pool, mood);
    let j = choose|j: int|
        #![trigger pool[j]]
        0 <= j < pool.len() && pool[j].mood == mood && forall|i: int|
            0 <= i < recent.len() ==> (#[trigger] recent[i])@ != pool[j].name@;
    pool.lemma_filter_contains(pred, j);
    let jf = choose|jf: int| 0 <= jf < filtered.len() && filtered[jf] == pool[j];
    assert(!is_recent(recent, filtered[jf].name@));
    let d = sha256_digest(identity_message(mood_prefix(), site_id, tenant));
    let r = select_from_digest_spec(filtered, d, recent);
    if recent.len() > 0 {
        selection_avoids_recent_when_possible(filtered, d, recent);
    } else {
        let start = digest_index(d, filtered.len());
        assert(filtered.contains(filtered[start as int]));
    }
    pool.lemma_filter_contains_rev(pred, r);
    let k = choose|k: int| 0 <= k < filtered.len() && filtered[k] == r;
    pool.lemma_filter_pred(pred, k);
}

/// Mood-restricted selection returns a pair of the requested mood whenever
/// the pool has one.
pub proof fn mood_selection_keeps_mood(site_id: &str, tenant: &str, mood: GradientMood, recent: Seq<&str>)
    requires
        with_mood(pool_spec(), mood).len() > 0,
    ensures
        select_for_identity_mood_spec(site_id, tenant, mood, recent).mood == mood,
{
    let filtered = with_mood(pool_spec(), mood);
    let d = sha256_digest(identity_message(mood_prefix(), site_id, tenant));
    let start = digest_index(d, filtered.len());
    if recent.len() > 0 {
        walk_avoids_recent(filtered, recent, start, 0);
    }
    let i = choose_position(filtered, recent, start);
    assert(filtered.contains(filtered[i as int]));
    pool_spec().lemma_filter_pred(|p: GradientPair| p.mood == mood, i as int);
}

} // verus!
