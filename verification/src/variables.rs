//! Per-tenant variable substitution: `{{ KEY }}` placeholders, the
//! `{{ PALETTE.<sub> }}` palette namespace and `@asset-slug` references are
//! projected through the tenant's tables. Unresolved references are kept
//! verbatim so a builder can flag them without breaking the page.

use vstd::prelude::*;
use crate::text::{
    chars_eq, chars_of, contains_seq, contains_str, find_next, first_from, first_from_bound,
    first_from_characterized, is_ws, matches_at, occurs_at, owned, push_char, push_range, push_str,
    seq_lt, seq_lt_asymmetric, seq_lt_irreflexive, seq_lt_total, seq_lt_transitive, starts_with,
    str_eq, str_lt, trim, trim_bounds, trim_end, trim_start,
};

verus! {

/// Loaded per-tenant substitution tables, each a list of `(key, value)`
/// pairs. Lookups take the last pair for a key; the constructors keep each
/// table in canonical form, keys strictly ascending (see
/// [`TenantVariables::wf`]), so a table holds each key once and two tables
/// with the same bindings hold the same pairs.
#[derive(Debug, Clone, PartialEq, Eq)]
pub struct TenantVariables {
    /// `{{ KEY }}` → value (keys matched after trimming inside the braces).
    pub variables: Vec<(String, String)>,
    /// `{{ PALETTE.fg }}` → palette-entry value.
    pub palette: Vec<(String, String)>,
    /// `@asset-slug` → resolved URL.
    pub assets: Vec<(String, String)>,
}

/// The pairs of a table as character sequences.
pub open spec fn table_view(t: Seq<(String, String)>) -> Seq<(Seq<char>, Seq<char>)> {
    t.map_values(|p: (String, String)| (p.0@, p.1@))
}

/// The value a table gives `key`: that of its last pair for `key`.
pub open spec fn table_get(t: Seq<(Seq<char>, Seq<char>)>, key: Seq<char>) -> Option<Seq<char>>
    decreases t.len(),
{
    if t.len() == 0 {
        None
    } else if t.last().0 == key {
        Some(t.last().1)
    } else {
        table_get(t.drop_last(), key)
    }
}

/// A table in canonical form: keys strictly ascending, so no key occurs
/// twice.
pub open spec fn table_sorted(t: Seq<(Seq<char>, Seq<char>)>) -> bool {
    forall|i: int, j: int| 0 <= i < j < t.len() ==> seq_lt(#[trigger] t[i].0, #[trigger] t[j].0)
}

/// Two tables bind every key alike.
pub open spec fn same_bindings(a: Seq<(Seq<char>, Seq<char>)>, b: Seq<(Seq<char>, Seq<char>)>) -> bool {
    forall|k: Seq<char>| #[trigger] table_get(a, k) == table_get(b, k)
}

/// A key that no pair holds is unbound.
proof fn table_get_absent(t: Seq<(Seq<char>, Seq<char>)>, k: Seq<char>)
    requires
        forall|i: int| 0 <= i < t.len() ==> (#[trigger] t[i]).0 != k,
    ensures
        table_get(t, k) is None,
    decreases t.len(),
{
    if t.len() > 0 {
        let d = t.drop_last();
        assert forall|i: int| 0 <= i < d.len() implies (#[trigger] d[i]).0 != k by {
            assert(d[i] == t[i]);
        }
        assert(t[t.len() - 1] == t.last());
        table_get_absent(d, k);
    }
}

/// A bound key is held by some pair, with the value it is bound to.
proof fn table_get_found(t: Seq<(Seq<char>, Seq<char>)>, k: Seq<char>)
    requires
        table_get(t, k) is Some,
    ensures
        exists|i: int| 0 <= i < t.len() && (#[trigger] t[i]).0 == k && t[i].1 == table_get(t, k)->0,
    decreases t.len(),
{
    if t.last().0 == k {
        assert(t[t.len() - 1] == t.last());
    } else {
        let d = t.drop_last();
        table_get_found(d, k);
        let i = choose|i: int| 0 <= i < d.len() && (#[trigger] d[i]).0 == k && d[i].1 == table_get(d, k)->0;
        assert(t[i] == d[i]);
    }
}

/// In a canonical table each pair gives its key's value.
proof fn table_get_sorted(t: Seq<(Seq<char>, Seq<char>)>, i: int)
    requires
        table_sorted(t),
        0 <= i < t.len(),
    ensures
        table_get(t, t[i].0) == Some(t[i].1),
    decreases t.len(),
{
    if i < t.len() - 1 {
        assert(seq_lt(t[i].0, t[t.len() - 1].0));
        seq_lt_irreflexive(t[i].0);
        let d = t.drop_last();
        assert forall|a: int, b: int| 0 <= a < b < d.len() implies seq_lt(
            #[trigger] d[a].0,
            #[trigger] d[b].0,
        ) by {
            assert(seq_lt(t[a].0, t[b].0));
        }
        assert(d[i] == t[i]);
        table_get_sorted(d, i);
    }
}

/// Two canonical tables with the same bindings are the same table: the
/// canonical form is fixed by what a table binds, as a map is.
pub proof fn sorted_tables_are_fixed_by_bindings(
    a: Seq<(Seq<char>, Seq<char>)>,
    b: Seq<(Seq<char>, Seq<char>)>,
)
    requires
        table_sorted(a),
        table_sorted(b),
        same_bindings(a, b),
    ensures
        a == b,
    decreases a.len() + b.len(),
{
    if a.len() == 0 && b.len() == 0 {
        assert(a =~= b);
    } else if a.len() == 0 {
        assert(table_get(b, b.last().0) is Some);
        assert(table_get(a, b.last().0) is None);
    } else if b.len() == 0 {
        assert(table_get(a, a.last().0) is Some);
        assert(table_get(b, a.last().0) is None);
    } else {
        let x = a.last();
        let y = b.last();
        assert(a[a.len() - 1] == x);
        assert(b[b.len() - 1] == y);
        if x.0 != y.0 {
            assert(table_get(b, x.0) == Some(x.1));
            table_get_found(b, x.0);
            let j = choose|j: int| 0 <= j < b.len() && (#[trigger] b[j]).0 == x.0 && b[j].1 == table_get(b, x.0)->0;
            assert(seq_lt(x.0, y.0));
            assert(table_get(a, y.0) == Some(y.1));
            table_get_found(a, y.0);
            let i = choose|i: int| 0 <= i < a.len() && (#[trigger] a[i]).0 == y.0 && a[i].1 == table_get(a, y.0)->0;
            assert(seq_lt(y.0, x.0));
            seq_lt_asymmetric(x.0, y.0);
        }
        assert(table_get(b, x.0) == Some(y.1));
        assert(x == y);
        let da = a.drop_last();
        let db = b.drop_last();
        assert forall|p: int, q: int| 0 <= p < q < da.len() implies seq_lt(
            #[trigger] da[p].0,
            #[trigger] da[q].0,
        ) by {
            assert(seq_lt(a[p].0, a[q].0));
        }
        assert forall|p: int, q: int| 0 <= p < q < db.len() implies seq_lt(
            #[trigger] db[p].0,
            #[trigger] db[q].0,
        ) by {
            assert(seq_lt(b[p].0, b[q].0));
        }
        assert forall|k: Seq<char>| #[trigger] table_get(da, k) == table_get(db, k) by {
            if k == x.0 {
                assert forall|i: int| 0 <= i < da.len() implies (#[trigger] da[i]).0 != k by {
                    assert(da[i] == a[i]);
                    assert(seq_lt(a[i].0, a[a.len() - 1].0));
                    seq_lt_irreflexive(k);
                }
                assert forall|i: int| 0 <= i < db.len() implies (#[trigger] db[i]).0 != k by {
                    assert(db[i] == b[i]);
                    assert(seq_lt(b[i].0, b[b.len() - 1].0));
                    seq_lt_irreflexive(k);
                }
                table_get_absent(da, k);
                table_get_absent(db, k);
            } else {
                assert(table_get(a, k) == table_get(da, k));
                assert(table_get(b, k) == table_get(db, k));
            }
        }
        sorted_tables_are_fixed_by_bindings(da, db);
        assert(a =~= da.push(x));
        assert(b =~= db.push(y));
    }
}

/// Spec view of the three tables.
pub struct TenantTables {
    /// `{{ KEY }}` table.
    pub variables: Seq<(Seq<char>, Seq<char>)>,
    /// Palette table.
    pub palette: Seq<(Seq<char>, Seq<char>)>,
    /// Asset table.
    pub assets: Seq<(Seq<char>, Seq<char>)>,
}

/// Every table of a view in canonical form.
pub open spec fn tables_canonical(v: TenantTables) -> bool {
    table_sorted(v.variables) && table_sorted(v.palette) && table_sorted(v.assets)
}

/// Two views bind every key alike, table by table.
pub open spec fn tables_bind_alike(a: TenantTables, b: TenantTables) -> bool {
    same_bindings(a.variables, b.variables) && same_bindings(a.palette, b.palette)
        && same_bindings(a.assets, b.assets)
}

/// Two canonical sets of tables with the same bindings are equal: what the
/// constructors build is fixed by the bindings alone, whatever order or
/// repeats the pairs came in.
pub proof fn canonical_tables_are_fixed_by_bindings(a: TenantTables, b: TenantTables)
    requires
        tables_canonical(a),
        tables_canonical(b),
        tables_bind_alike(a, b),
    ensures
        a == b,
{
    sorted_tables_are_fixed_by_bindings(a.variables, b.variables);
    sorted_tables_are_fixed_by_bindings(a.palette, b.palette);
    sorted_tables_are_fixed_by_bindings(a.assets, b.assets);
}

/// Position of `key` in a canonical table: every earlier key sorts before
/// it, the key there (if any) does not.
fn key_position(t: &Vec<(String, String)>, key: &str) -> (k: usize)
    ensures
        k <= t@.len(),
        forall|j: int| 0 <= j < k ==> seq_lt(#[trigger] t@[j].0@, key@),
        k < t@.len() ==> !seq_lt(t@[k as int].0@, key@),
{
    let mut k: usize = 0;
    while k < t.len() && str_lt(t[k].0.as_str(), key)
        invariant
            k <= t@.len(),
            forall|j: int| 0 <= j < k ==> seq_lt(#[trigger] t@[j].0@, key@),
        decreases t.len() - k,
    {
        k = k + 1;
    }
    k
}

/// Bind `key` to `value` in a canonical table, replacing its earlier value.
fn bind(t: &mut Vec<(String, String)>, key: String, value: String)
    requires
        table_sorted(table_view(old(t)@)),
    ensures
        table_sorted(table_view(final(t)@)),
        forall|k: Seq<char>|
            #[trigger] table_get(table_view(final(t)@), k) == if k == key@ {
                Some(value@)
            } else {
                table_get(table_view(old(t)@), k)
            },
{
    let ghost ot = table_view(t@);
    let ghost kv = (key@, value@);
    let p = key_position(t, key.as_str());
    let ghost pk = p as int;
    if p < t.len() && str_eq(t[p].0.as_str(), key.as_str()) {
        t.set(p, (key, value));
        proof {
            let nt = table_view(t@);
            assert(nt =~= ot.update(pk, kv));
            assert forall|i: int, j: int| 0 <= i < j < nt.len() implies seq_lt(
                #[trigger] nt[i].0,
                #[trigger] nt[j].0,
            ) by {
                assert(seq_lt(ot[i].0, ot[j].0));
            }
            assert forall|k: Seq<char>| #[trigger] table_get(nt, k) == if k == kv.0 {
                Some(kv.1)
            } else {
                table_get(ot, k)
            } by {
                if k == kv.0 {
                    table_get_sorted(nt, pk);
                } else if table_get(ot, k) is Some {
                    table_get_found(ot, k);
                    let m = choose|m: int| 0 <= m < ot.len() && (#[trigger] ot[m]).0 == k && ot[m].1 == table_get(ot, k)->0;
                    assert(nt[m] == ot[m]);
                    table_get_sorted(nt, m);
                } else {
                    assert forall|m: int| 0 <= m < nt.len() implies (#[trigger] nt[m]).0 != k by {
                        if m != pk && nt[m].0 == k {
                            assert(nt[m] == ot[m]);
                            table_get_sorted(ot, m);
                        }
                    }
                    table_get_absent(nt, k);
                }
            }
        }
    } else {
        proof {
            if pk < ot.len() {
                seq_lt_total(ot[pk].0, kv.0);
            }
        }
        t.insert(p, (key, value));
        proof {
            let nt = table_view(t@);
            assert(nt =~= ot.insert(pk, kv));
            assert forall|i: int, j: int| 0 <= i < j < nt.len() implies seq_lt(
                #[trigger] nt[i].0,
                #[trigger] nt[j].0,
            ) by {
                if j < pk {
                    assert(seq_lt(ot[i].0, ot[j].0));
                } else if j == pk {
                    assert(seq_lt(ot[i].0, kv.0));
                } else if i == pk {
                    if j - 1 > pk {
                        assert(seq_lt(ot[pk].0, ot[j - 1].0));
                        seq_lt_transitive(kv.0, ot[pk].0, ot[j - 1].0);
                    }
                } else if i < pk {
                    assert(seq_lt(ot[i].0, kv.0));
                    seq_lt_transitive(ot[i].0, kv.0, ot[pk].0);
                    if j - 1 > pk {
                        assert(seq_lt(ot[pk].0, ot[j - 1].0));
                        seq_lt_transitive(ot[i].0, ot[pk].0, ot[j - 1].0);
                    }
                } else {
                    assert(seq_lt(ot[i - 1].0, ot[j - 1].0));
                }
            }
            assert forall|k: Seq<char>| #[trigger] table_get(nt, k) == if k == kv.0 {
                Some(kv.1)
            } else {
                table_get(ot, k)
            } by {
                if k == kv.0 {
                    assert(nt[pk] == kv);
                    table_get_sorted(nt, pk);
                } else if table_get(ot, k) is Some {
                    table_get_found(ot, k);
                    let m = choose|m: int| 0 <= m < ot.len() && (#[trigger] ot[m]).0 == k && ot[m].1 == table_get(ot, k)->0;
                    if m < pk {
                        assert(nt[m] == ot[m]);
                        table_get_sorted(nt, m);
                    } else {
                        assert(nt[m + 1] == ot[m]);
                        table_get_sorted(nt, m + 1);
                    }
                } else {
                    assert forall|m: int| 0 <= m < nt.len() implies (#[trigger] nt[m]).0 != k by {
                        if m < pk && nt[m].0 == k {
                            assert(nt[m] == ot[m]);
                            table_get_sorted(ot, m);
                        } else if m > pk && nt[m].0 == k {
                            assert(nt[m] == ot[m - 1]);
                            table_get_sorted(ot, m - 1);
                        }
                    }
                    table_get_absent(nt, k);
                }
            }
        }
    }
}

/// The canonical form of a list of pairs: keys ascending, each bound to
/// the value of its last pair.
fn canonical_table(pairs: &Vec<(String, String)>) -> (r: Vec<(String, String)>)
    ensures
        table_sorted(table_view(r@)),
        same_bindings(table_view(r@), table_view(pairs@)),
{
    let ghost tv = table_view(pairs@);
    let mut out: Vec<(String, String)> = Vec::new();
    let mut i: usize = 0;
    while i < pairs.len()
        invariant
            i <= pairs@.len(),
            tv == table_view(pairs@),
            table_sorted(table_view(out@)),
            same_bindings(table_view(out@), tv.take(i as int)),
        decreases pairs.len() - i,
    {
        let key = owned(pairs[i].0.as_str());
        let value = owned(pairs[i].1.as_str());
        let ghost before = table_view(out@);
        bind(&mut out, key, value);
        proof {
            let t1 = tv.take(i + 1);
            assert(t1.drop_last() =~= tv.take(i as int));
            assert(t1.last() == tv[i as int]);
            assert forall|k: Seq<char>| #[trigger] table_get(table_view(out@), k) == table_get(t1, k) by {
                assert(table_get(before, k) == table_get(tv.take(i as int), k));
            }
        }
        i = i + 1;
    }
    assert(tv.take(pairs@.len() as int) =~= tv);
    out
}

impl View for TenantVariables {
    type V = TenantTables;

    open spec fn view(&self) -> TenantTables {
        TenantTables {
            variables: table_view(self.variables@),
            palette: table_view(self.palette@),
            assets: table_view(self.assets@),
        }
    }
}

impl Default for TenantVariables {
    /// Three empty tables.
    fn default() -> (r: Self)
        ensures
            r.wf(),
            r.variables@.len() == 0,
            r.palette@.len() == 0,
            r.assets@.len() == 0,
    {
        TenantVariables { variables: Vec::new(), palette: Vec::new(), assets: Vec::new() }
    }
}

impl TenantVariables {
    /// The canonical form the constructors give: in each table the keys
    /// strictly ascend, so none occurs twice.
    pub open spec fn wf(&self) -> bool {
        tables_canonical(self@)
    }

    /// Construct an empty table.
    pub fn new() -> (r: Self)
        ensures
            r.wf(),
            r.variables@.len() == 0,
            r.palette@.len() == 0,
            r.assets@.len() == 0,
    {
        TenantVariables { variables: Vec::new(), palette: Vec::new(), assets: Vec::new() }
    }

    /// Construct from parts: each table in canonical form, a key bound to
    /// the value of its last pair.
    pub fn from_parts(
        variables: Vec<(String, String)>,
        palette: Vec<(String, String)>,
        assets: Vec<(String, String)>,
    ) -> (r: Self)
        ensures
            r.wf(),
            same_bindings(r@.variables, table_view(variables@)),
            same_bindings(r@.palette, table_view(palette@)),
            same_bindings(r@.assets, table_view(assets@)),
    {
        TenantVariables {
            variables: canonical_table(&variables),
            palette: canonical_table(&palette),
            assets: canonical_table(&assets),
        }
    }

    /// `true` if every table is empty — no substitution pass is needed.
    pub fn is_empty(&self) -> (r: bool)
        ensures
            r == (self.variables@.len() == 0 && self.palette@.len() == 0 && self.assets@.len() == 0),
    {
        self.variables.len() == 0 && self.palette.len() == 0 && self.assets.len() == 0
    }
}

/// Characters allowed in an asset slug: ASCII letters, digits, `_`, `-`.
pub open spec fn is_slug_char(c: char) -> bool {
    ('a' <= c <= 'z') || ('A' <= c <= 'Z') || ('0' <= c <= '9') || c == '_' || c == '-'
}

fn is_slug_char_exec(c: char) -> (r: bool)
    ensures
        r == is_slug_char(c),
{
    ('a' <= c && c <= 'z') || ('A' <= c && c <= 'Z') || ('0' <= c && c <= '9') || c == '_' || c == '-'
}

/// End of the slug run that starts at `j`: the first index at or after `j`
/// holding a non-slug character, or the length.
pub open spec fn slug_end(s: Seq<char>, j: nat) -> nat
    decreases s.len() - j,
{
    if j >= s.len() {
        s.len()
    } else if is_slug_char(s[j as int]) {
        slug_end(s, j + 1)
    } else {
        j
    }
}

/// The closing `}}` pair.
pub open spec fn close_braces() -> Seq<char> {
    seq!['}', '}']
}

/// The palette namespace prefix `PALETTE.`.
pub open spec fn palette_prefix() -> Seq<char> {
    seq!['P', 'A', 'L', 'E', 'T', 'T', 'E', '.']
}

/// The value a trimmed `{{ … }}` key resolves to: `PALETTE.<sub>` looks in
/// the palette, any other key in the variables.
pub open spec fn resolve_key(vars: TenantTables, key: Seq<char>) -> Option<Seq<char>> {
    if starts_with(key, palette_prefix()) {
        table_get(vars.palette, key.skip(8))
    } else {
        table_get(vars.variables, key)
    }
}

/// Length of the key inside a `{{ … }}` span opening `s`: present when
/// `s` starts with `{{` and a `}}` follows somewhere after it.
pub open spec fn brace_end(s: Seq<char>) -> Option<nat> {
    if s.len() >= 2 && s[0] == '{' && s[1] == '{' {
        first_from(s.skip(2), close_braces(), 0)
    } else {
        None
    }
}

/// What a `{{ … }}` span whose inner text has length `end` becomes: the
/// value of its trimmed key, or the span itself when the key is unbound.
pub open spec fn brace_value(s: Seq<char>, vars: TenantTables, end: nat) -> Seq<char> {
    match resolve_key(vars, trim(s.subrange(2, 2 + end as int))) {
        Some(val) => val,
        None => s.take(4 + end as int),
    }
}

/// The URL of the `@slug` reference opening `s`, when there is one and the
/// slug is in the asset table.
pub open spec fn asset_value(s: Seq<char>, vars: TenantTables) -> Option<Seq<char>> {
    if s.len() >= 2 && s[0] == '@' && is_slug_char(s[1]) {
        table_get(vars.assets, s.subrange(1, slug_end(s, 1) as int))
    } else {
        None
    }
}

/// The substitution pass over `s`, left to right.
///
/// * `{{` with a later `}}`: the trimmed inner key resolves to its value,
///   or the whole `{{ … }}` span is kept verbatim.
/// * `@` followed by a slug: a known slug resolves to its URL; otherwise
///   the `@` is kept and scanning moves on.
/// * Any other character is kept.
pub open spec fn subst(s: Seq<char>, vars: TenantTables) -> Seq<char>
    decreases s.len(),
{
    if s.len() == 0 {
        Seq::empty()
    } else if brace_end(s) is Some {
        let end = brace_end(s)->0;
        proof {
            first_from_bound(s.skip(2), close_braces(), 0);
        }
        brace_value(s, vars, end) + subst(s.skip(4 + end as int), vars)
    } else if asset_value(s, vars) is Some {
        proof {
            slug_end_bounds(s, 2);
        }
        asset_value(s, vars)->0 + subst(s.skip(slug_end(s, 1) as int), vars)
    } else {
        seq![s[0]] + subst(s.skip(1), vars)
    }
}

/// The text `substitute` returns.
pub open spec fn substitute_spec(text: Seq<char>, vars: TenantTables) -> Seq<char> {
    subst(text, vars)
}

proof fn slug_end_shift(v: Seq<char>, base: int, j: nat)
    requires
        0 <= base <= v.len(),
    ensures
        slug_end(v.skip(base), j) + base == slug_end(v, (j + base) as nat),
    decreases v.len() - base - j,
{
    if j < v.len() - base {
        assert(v.skip(base)[j as int] == v[j + base]);
        slug_end_shift(v, base, j + 1);
    }
}

/// `slug_end` lies between `j` and the length, and bounds a run of slug
/// characters.
pub proof fn slug_end_bounds(s: Seq<char>, j: nat)
    requires
        j <= s.len(),
    ensures
        j <= slug_end(s, j) <= s.len(),
        forall|k: int| j <= k < slug_end(s, j) ==> is_slug_char(s[k]),
        slug_end(s, j) < s.len() ==> !is_slug_char(s[slug_end(s, j) as int]),
    decreases s.len() - j,
{
    if j < s.len() && is_slug_char(s[j as int]) {
        slug_end_bounds(s, j + 1);
    }
}

/// Index into `t` of the pair that decides `table_get` for `v[lo..hi]`.
fn table_lookup(t: &Vec<(String, String)>, v: &Vec<char>, lo: usize, hi: usize) -> (r: Option<usize>)
    requires
        lo <= hi <= v.len(),
    ensures
        match r {
            Some(k) => k < t@.len() && table_get(table_view(t@), v@.subrange(lo as int, hi as int))
                == Some(t@[k as int].1@),
            None => table_get(table_view(t@), v@.subrange(lo as int, hi as int)) is None,
        },
{
    let ghost key = v@.subrange(lo as int, hi as int);
    let key_vec = slice_chars(v, lo, hi);
    let mut k = t.len();
    assert(t@.take(k as int) =~= t@);
    while k > 0
        invariant
            k <= t@.len(),
            lo <= hi <= v@.len(),
            key == v@.subrange(lo as int, hi as int),
            key_vec@ == key,
            table_get(table_view(t@), key) == table_get(table_view(t@.take(k as int)), key),
        decreases k,
    {
        let kc = chars_of(t[k - 1].0.as_str());
        let ghost tk = table_view(t@.take(k as int));
        proof {
            assert(tk.drop_last() =~= table_view(t@.take(k - 1)));
            assert(tk.last() == (t@[k - 1].0@, t@[k - 1].1@));
        }
        if chars_eq(&kc, &key_vec) {
            assert(tk.len() == k);
            assert(t@.take(k as int)[k - 1] == t@[k - 1]);
            assert(tk.last().0 == key);
            assert(table_get(tk, key) == Some(t@[k - 1].1@));
            return Some(k - 1);
        }
        k = k - 1;
    }
    assert(table_view(t@.take(0)) =~= Seq::<(Seq<char>, Seq<char>)>::empty());
    None
}

fn slice_chars(v: &Vec<char>, lo: usize, hi: usize) -> (r: Vec<char>)
    requires
        lo <= hi <= v.len(),
    ensures
        r@ == v@.subrange(lo as int, hi as int),
{
    let mut r: Vec<char> = Vec::new();
    let mut i = lo;
    while i < hi
        invariant
            lo <= i <= hi <= v.len(),
            r@ == v@.subrange(lo as int, i as int),
        decreases hi - i,
    {
        r.push(v[i]);
        assert(v@.subrange(lo as int, i + 1) =~= v@.subrange(lo as int, i as int).push(v@[i as int]));
        i = i + 1;
    }
    r
}

/// Expand the `{{ … }}` span that opens at `v[i]`, if a `}}` follows:
/// appends what the span becomes and returns the index just past it.
fn expand_braces(v: &Vec<char>, i: usize, vars: &TenantVariables, out: &mut String) -> (r: Option<usize>)
    requires
        i + 1 < v.len(),
        v@[i as int] == '{',
        v@[i + 1] == '{',
    ensures
        match r {
            Some(next) => i + 4 <= next <= v@.len() && brace_end(v@.skip(i as int)) == Some(
                (next - i - 4) as nat,
            ) && final(out)@ == old(out)@ + brace_value(
                v@.skip(i as int),
                vars@,
                (next - i - 4) as nat,
            ),
            None => brace_end(v@.skip(i as int)) is None && final(out)@ == old(out)@,
        },
{
    let ghost s = v@.skip(i as int);
    let close: Vec<char> = vec!['}', '}'];
    assert(close@ == close_braces());
    assert(s.skip(2) =~= v@.skip(i + 2));
    match find_next(v, &close, i + 2) {
        None => None,
        Some(abs) => {
            let end = abs - (i + 2);
            let (lo, hi) = trim_bounds(v, i + 2, abs);
            assert(s.subrange(2, 2 + end as int) =~= v@.subrange(i + 2, abs as int));
            let ghost key = v@.subrange(lo as int, hi as int);
            let pal: Vec<char> = vec!['P', 'A', 'L', 'E', 'T', 'T', 'E', '.'];
            assert(pal@ == palette_prefix());
            let is_pal = hi - lo >= 8 && matches_at(v, lo, &pal);
            proof {
                if starts_with(key, palette_prefix()) || (hi - lo >= 8 && occurs_at(
                    v@,
                    palette_prefix(),
                    lo as int,
                )) {
                    assert(key.subrange(0, 8) =~= v@.subrange(lo as int, lo + 8));
                }
            }
            let found = if is_pal {
                assert(key.skip(8) =~= v@.subrange(lo + 8, hi as int));
                match table_lookup(&vars.palette, v, lo + 8, hi) {
                    Some(k) => Some(vars.palette[k].1.as_str()),
                    None => None,
                }
            } else {
                match table_lookup(&vars.variables, v, lo, hi) {
                    Some(k) => Some(vars.variables[k].1.as_str()),
                    None => None,
                }
            };
            match found {
                Some(val) => {
                    assert(resolve_key(vars@, key) == Some(val@));
                    push_str(out, val);
                },
                None => {
                    assert(resolve_key(vars@, key) is None);
                    push_range(out, v, i, abs + 2);
                    assert(s.take(4 + end as int) =~= v@.subrange(i as int, abs + 2));
                },
            }
            Some(abs + 2)
        },
    }
}

/// Expand the `@slug` reference that opens at `v[i]`, if its slug is in
/// the asset table: appends the URL and returns the index past the slug.
fn expand_asset(v: &Vec<char>, i: usize, vars: &TenantVariables, out: &mut String) -> (r: Option<usize>)
    requires
        i + 1 < v.len(),
        v@[i as int] == '@',
        is_slug_char(v@[i + 1]),
    ensures
        match r {
            Some(next) => asset_value(v@.skip(i as int), vars@) is Some && next == i + slug_end(
                v@.skip(i as int),
                1,
            ) && i + 2 <= next <= v@.len() && final(out)@ == old(out)@ + asset_value(
                v@.skip(i as int),
                vars@,
            )->0,
            None => asset_value(v@.skip(i as int), vars@) is None && final(out)@ == old(out)@,
        },
{
    let ghost s = v@.skip(i as int);
    let mut j = i + 1;
    proof {
        slug_end_bounds(v@, (i + 1) as nat);
        slug_end_bounds(v@, (i + 2) as nat);
    }
    while j < v.len() && is_slug_char_exec(v[j])
        invariant
            i + 1 <= j <= v@.len(),
            slug_end(v@, (i + 1) as nat) == slug_end(v@, j as nat),
        decreases v.len() - j,
    {
        j = j + 1;
    }
    proof {
        slug_end_shift(v@, i as int, 1);
        assert(s.subrange(1, slug_end(s, 1) as int) =~= v@.subrange(i + 1, j as int));
    }
    match table_lookup(&vars.assets, v, i + 1, j) {
        Some(k) => {
            push_str(out, vars.assets[k].1.as_str());
            Some(j)
        },
        None => None,
    }
}

/// Apply per-tenant substitution to `text` and return the result (see
/// [`subst`] for the placeholder syntax). Text without `{{` or `@`, or
/// with all tables empty, is returned unchanged without a scan.
pub fn substitute(text: &str, vars: &TenantVariables) -> (r: String)
    ensures
        r@ == substitute_spec(text@, vars@),
{
    let no_tables = vars.is_empty();
    if no_tables || (!contains_str(text, "{{") && !contains_str(text, "@")) {
        proof {
            reveal_strlit("{{");
            reveal_strlit("@");
            if no_tables {
                empty_tables_keep_text(text@, vars@);
            } else {
                assert("{{"@ =~= seq!['{', '{']);
                assert("@"@ =~= seq!['@']);
                plain_text_is_kept(text@, vars@);
            }
        }
        return owned(text);
    }
    let v = chars_of(text);
    let ghost vv = vars@;
    let mut out = String::new();
    let mut i: usize = 0;
    assert(v@.skip(0) =~= v@);
    assert(out@ + subst(v@, vv) =~= subst(v@, vv));
    while i < v.len()
        invariant
            i <= v@.len(),
            v@ == text@,
            vv == vars@,
            subst(v@, vv) == out@ + subst(v@.skip(i as int), vv),
        decreases v.len() - i,
    {
        let ghost s = v@.skip(i as int);
        let ghost before = out@;
        let mut braces_done = false;
        if i + 1 < v.len() && v[i] == '{' && v[i + 1] == '{' {
            if let Some(next) = expand_braces(&v, i, vars, &mut out) {
                assert(s.skip(next - i) =~= v@.skip(next as int));
                i = next;
                braces_done = true;
            }
        } else {
            assert(brace_end(s) is None);
        }
        if !braces_done {
            let mut asset_done = false;
            if v[i] == '@' && i + 1 < v.len() && is_slug_char_exec(v[i + 1]) {
                if let Some(next) = expand_asset(&v, i, vars, &mut out) {
                    assert(s.skip(next - i) =~= v@.skip(next as int));
                    i = next;
                    asset_done = true;
                }
            } else {
                assert(asset_value(s, vv) is None);
            }
            if !asset_done {
                push_char(&mut out, v[i]);
                assert(s.skip(1) =~= v@.skip(i + 1));
                i = i + 1;
            }
        }
    }
    assert(v@.skip(i as int) =~= Seq::<char>::empty());
    out
}

/// With all three tables empty, substitution returns the text unchanged.
pub proof fn empty_tables_keep_text(s: Seq<char>, vars: TenantTables)
    requires
        vars.variables.len() == 0,
        vars.palette.len() == 0,
        vars.assets.len() == 0,
    ensures
        subst(s, vars) == s,
    decreases s.len(),
{
    if s.len() > 0 {
        if brace_end(s) is Some {
            let end = brace_end(s)->0;
            first_from_bound(s.skip(2), close_braces(), 0);
            empty_tables_keep_text(s.skip(4 + end as int), vars);
            assert(s =~= s.take(4 + end as int) + s.skip(4 + end as int));
        } else {
            empty_tables_keep_text(s.skip(1), vars);
            assert(s =~= seq![s[0]] + s.skip(1));
        }
    }
}

/// Text with no `{{` and no `@` is returned unchanged, whatever the tables.
pub proof fn plain_text_is_kept(s: Seq<char>, vars: TenantTables)
    requires
        !contains_seq(s, seq!['{', '{']),
        !contains_seq(s, seq!['@']),
    ensures
        subst(s, vars) == s,
    decreases s.len(),
{
    if s.len() > 0 {
        if s.len() >= 2 && s[0] == '{' && s[1] == '{' {
            assert(s.subrange(0, 2) =~= seq!['{', '{']);
            assert(occurs_at(s, seq!['{', '{'], 0));
        }
        if s[0] == '@' {
            assert(s.subrange(0, 1) =~= seq!['@']);
            assert(occurs_at(s, seq!['@'], 0));
        }
        let t = s.skip(1);
        assert forall|k: int| !occurs_at(t, seq!['{', '{'], k) by {
            if occurs_at(t, seq!['{', '{'], k) {
                assert(s.subrange(k + 1, k + 3) =~= t.subrange(k, k + 2));
                assert(occurs_at(s, seq!['{', '{'], k + 1));
            }
        }
        assert forall|k: int| !occurs_at(t, seq!['@'], k) by {
            if occurs_at(t, seq!['@'], k) {
                assert(s.subrange(k + 1, k + 2) =~= t.subrange(k, k + 1));
                assert(occurs_at(s, seq!['@'], k + 1));
            }
        }
        plain_text_is_kept(t, vars);
        assert(s =~= seq![s[0]] + t);
    }
}


/// No reference met while scanning `s` left to right resolves: every
/// `{{ … }}` span has an unbound key and no `@slug` is in the asset
/// table.
pub open spec fn resolves_nothing(s: Seq<char>, vars: TenantTables) -> bool
    decreases s.len(),
{
    if s.len() == 0 {
        true
    } else if brace_end(s) is Some {
        let end = brace_end(s)->0;
        proof {
            first_from_bound(s.skip(2), close_braces(), 0);
        }
        resolve_key(vars, trim(s.subrange(2, 2 + end as int))) is None && resolves_nothing(
            s.skip(4 + end as int),
            vars,
        )
    } else if asset_value(s, vars) is Some {
        false
    } else {
        resolves_nothing(s.skip(1), vars)
    }
}

/// A text none of whose references resolve is returned unchanged:
/// unbound placeholders and unknown asset slugs stay verbatim.
pub proof fn unresolved_text_is_kept(s: Seq<char>, vars: TenantTables)
    requires
        resolves_nothing(s, vars),
    ensures
        subst(s, vars) == s,
    decreases s.len(),
{
    if s.len() > 0 {
        if brace_end(s) is Some {
            let end = brace_end(s)->0;
            first_from_bound(s.skip(2), close_braces(), 0);
            unresolved_text_is_kept(s.skip(4 + end as int), vars);
            assert(s =~= s.take(4 + end as int) + s.skip(4 + end as int));
        } else {
            unresolved_text_is_kept(s.skip(1), vars);
            assert(s =~= seq![s[0]] + s.skip(1));
        }
    }
}


proof fn trim_of_key(k: Seq<char>)
    requires
        forall|i: int| 0 <= i < k.len() ==> !is_ws(#[trigger] k[i]),
    ensures
        trim(k) == k,
        trim(seq![' '] + k + seq![' ']) == k,
{
    let padded = seq![' '] + k + seq![' '];
    assert(padded.skip(1) =~= k + seq![' ']);
    assert(is_ws(' '));
    assert(trim_start(padded) == trim_start(k + seq![' ']));
    if k.len() > 0 {
        assert(!is_ws((k + seq![' '])[0]));
        assert(trim_start(k + seq![' ']) == k + seq![' ']);
        assert((k + seq![' ']).drop_last() =~= k);
        assert(trim_end(k + seq![' ']) == trim_end(k));
        assert(!is_ws(k.last()));
        assert(trim_end(k) == k);
        assert(trim_start(k) == k);
    } else {
        assert(k + seq![' '] =~= seq![' ']);
        assert(seq![' '].skip(1) =~= Seq::<char>::empty());
        assert(trim_start(seq![' ']) == trim_start(Seq::<char>::empty()));
        assert(k =~= Seq::<char>::empty());
    }
}

proof fn closing_found(hay: Seq<char>, at: int)
    requires
        0 <= at,
        at + 2 == hay.len(),
        hay[at] == '}',
        hay[at + 1] == '}',
        forall|j: int| 0 <= j < at ==> hay[j] != '}',
    ensures
        first_from(hay, close_braces(), 0) == Some(at as nat),
{
    assert(hay.subrange(at, at + 2) =~= close_braces());
    assert forall|j: int| 0 <= j < at implies !occurs_at(hay, close_braces(), j) by {
        if occurs_at(hay, close_braces(), j) {
            assert(hay.subrange(j, j + 2)[0] == hay[j]);
        }
    }
    first_from_characterized(hay, close_braces(), 0, at as nat);
}

/// A bound key resolves the same inside `{{KEY}}` and `{{ KEY }}`: keys
/// are matched after trimming the whitespace inside the braces.
pub proof fn spaced_keys_resolve_alike(k: Seq<char>, vars: TenantTables)
    requires
        forall|i: int| 0 <= i < k.len() ==> !is_ws(#[trigger] k[i]) && k[i] != '}',
        resolve_key(vars, k) is Some,
    ensures
        subst(seq!['{', '{'] + k + seq!['}', '}'], vars) == resolve_key(vars, k)->0,
        subst(seq!['{', '{', ' '] + k + seq![' ', '}', '}'], vars) == resolve_key(vars, k)->0,
{
    trim_of_key(k);
    let a = seq!['{', '{'] + k + seq!['}', '}'];
    let ha = a.skip(2);
    assert(ha =~= k + seq!['}', '}']);
    closing_found(ha, k.len() as int);
    assert(brace_end(a) == Some(k.len()));
    assert(a.subrange(2, 2 + k.len() as int) =~= k);
    assert(a.skip(4 + k.len() as int) =~= Seq::<char>::empty());
    assert(subst(Seq::<char>::empty(), vars) == Seq::<char>::empty());
    assert(resolve_key(vars, k)->0 + Seq::<char>::empty() =~= resolve_key(vars, k)->0);
    let b = seq!['{', '{', ' '] + k + seq![' ', '}', '}'];
    let hb = b.skip(2);
    assert(hb =~= seq![' '] + k + seq![' ', '}', '}']);
    assert forall|j: int| 0 <= j < k.len() + 2 implies hb[j] != '}' by {
        if 1 <= j <= k.len() {
            assert(hb[j] == k[j - 1]);
        }
    }
    closing_found(hb, k.len() + 2int);
    assert(brace_end(b) == Some((k.len() + 2) as nat));
    assert(b.subrange(2, 2 + k.len() as int + 2) =~= seq![' '] + k + seq![' ']);
    assert(b.skip(4 + k.len() as int + 2) =~= Seq::<char>::empty());
}

} // verus!
