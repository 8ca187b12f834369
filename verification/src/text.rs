//! Character-level string helpers shared by every emitter: escaping,
//! decimal rendering, trimming, searching and replacing, each stated over
//! the `Seq<char>` view of the strings involved.

use vstd::prelude::*;
use vstd::string::StringExecFns;

verus! {

broadcast use vstd::string::group_string_axioms;

/// The characters of `s`, in order.
pub fn chars_of(s: &str) -> (v: Vec<char>)
    ensures
        v@ == s@,
{
    let mut v: Vec<char> = Vec::new();
    for c in it: s.chars()
        invariant
            v@ == it.seq().take(it.index() as int),
            it.seq() == s@,
    {
        v.push(c);
    }
    v
}

/// Append one character. Wraps std's `String::push`, which vstd does
/// not specify; the contract is the documented effect of `push`.
#[verifier::external_body]
pub fn push_char(out: &mut String, c: char)
    ensures
        final(out)@ == old(out)@.push(c),
{
    out.push(c);
}

/// Append a string slice.
pub fn push_str(out: &mut String, s: &str)
    ensures
        final(out)@ == old(out)@ + s@,
{
    out.append(s);
}

/// A fresh `String` holding `s`.
pub fn owned(s: &str) -> (r: String)
    ensures
        r@ == s@,
{
    String::from_str(s)
}

/// A fresh `String` holding the characters `v[lo..hi]`.
pub fn string_from_range(v: &Vec<char>, lo: usize, hi: usize) -> (r: String)
    requires
        lo <= hi <= v.len(),
    ensures
        r@ == v@.subrange(lo as int, hi as int),
{
    let mut r = String::new();
    let mut i = lo;
    while i < hi
        invariant
            lo <= i <= hi <= v.len(),
            r@ == v@.subrange(lo as int, i as int),
        decreases hi - i,
    {
        push_char(&mut r, v[i]);
        assert(v@.subrange(lo as int, i + 1) == v@.subrange(lo as int, i as int).push(v@[i as int]));
        i = i + 1;
    }
    r
}

/// Append the characters `v[lo..hi]`.
pub fn push_range(out: &mut String, v: &Vec<char>, lo: usize, hi: usize)
    requires
        lo <= hi <= v.len(),
    ensures
        final(out)@ == old(out)@ + v@.subrange(lo as int, hi as int),
{
    let ghost start = out@;
    let mut i = lo;
    while i < hi
        invariant
            lo <= i <= hi <= v.len(),
            out@ == start + v@.subrange(lo as int, i as int),
        decreases hi - i,
    {
        push_char(out, v[i]);
        assert(v@.subrange(lo as int, i + 1) == v@.subrange(lo as int, i as int).push(v@[i as int]));
        i = i + 1;
    }
}

// ------------------------------------------------------------------
// Equality and searching
// ------------------------------------------------------------------

/// `true` iff the two strings hold the same characters.
pub fn str_eq(a: &str, b: &str) -> (r: bool)
    ensures
        r == (a@ == b@),
{
    let va = chars_of(a);
    let vb = chars_of(b);
    chars_eq(&va, &vb)
}

/// `true` iff the two character vectors are equal.
pub fn chars_eq(va: &Vec<char>, vb: &Vec<char>) -> (r: bool)
    ensures
        r == (va@ == vb@),
{
    if va.len() != vb.len() {
        return false;
    }
    let mut i: usize = 0;
    while i < va.len()
        invariant
            va.len() == vb.len(),
            i <= va.len(),
            forall|k: int| 0 <= k < i ==> va@[k] == vb@[k],
        decreases va.len() - i,
    {
        if va[i] != vb[i] {
            return false;
        }
        i = i + 1;
    }
    assert(va@ =~= vb@);
    true
}

/// `needle` occurs in `hay` starting at index `i`.
pub open spec fn occurs_at(hay: Seq<char>, needle: Seq<char>, i: int) -> bool {
    0 <= i && i + needle.len() <= hay.len() && hay.subrange(i, i + needle.len()) == needle
}

/// `needle` occurs somewhere in `hay`.
pub open spec fn contains_seq(hay: Seq<char>, needle: Seq<char>) -> bool {
    exists|i: int| occurs_at(hay, needle, i)
}

/// `hay` begins with `prefix`.
pub open spec fn starts_with(hay: Seq<char>, prefix: Seq<char>) -> bool {
    occurs_at(hay, prefix, 0)
}

/// `true` iff `needle` occurs in `hay` at index `i`.
pub fn matches_at(hay: &Vec<char>, i: usize, needle: &Vec<char>) -> (r: bool)
    ensures
        r == occurs_at(hay@, needle@, i as int),
{
    if i > hay.len() || needle.len() > hay.len() - i {
        return false;
    }
    let mut k: usize = 0;
    while k < needle.len()
        invariant
            i + needle.len() <= hay.len(),
            k <= needle.len(),
            forall|j: int| 0 <= j < k ==> hay@[i + j] == needle@[j],
        decreases needle.len() - k,
    {
        if hay[i + k] != needle[k] {
            assert(hay@.subrange(i as int, i + needle.len())[k as int] != needle@[k as int]);
            return false;
        }
        k = k + 1;
    }
    assert(hay@.subrange(i as int, i + needle.len()) =~= needle@);
    true
}

/// The first index at or after `from` where `needle` occurs in `hay`.
pub fn find_from(hay: &Vec<char>, needle: &Vec<char>, from: usize) -> (r: Option<usize>)
    ensures
        match r {
            Some(i) => from <= i && occurs_at(hay@, needle@, i as int) && forall|j: int|
                from <= j < i ==> !occurs_at(hay@, needle@, j),
            None => forall|j: int| from <= j ==> !occurs_at(hay@, needle@, j),
        },
{
    let mut i = from;
    while i < hay.len()
        invariant
            from <= i,
            forall|j: int| from <= j < i ==> !occurs_at(hay@, needle@, j),
        decreases hay.len() - i,
    {
        if matches_at(hay, i, needle) {
            return Some(i);
        }
        i = i + 1;
    }
    if i == hay.len() && matches_at(hay, i, needle) {
        return Some(i);
    }
    assert forall|j: int| from <= j implies !occurs_at(hay@, needle@, j) by {
        if j > hay@.len() {
        }
    }
    None
}

/// First index at or after `k` where `needle` occurs in `hay`.
pub open spec fn first_from(hay: Seq<char>, needle: Seq<char>, k: nat) -> Option<nat>
    decreases hay.len() + 1 - k,
{
    if k > hay.len() {
        None
    } else if occurs_at(hay, needle, k as int) {
        Some(k)
    } else {
        first_from(hay, needle, k + 1)
    }
}

/// `first_from` finds the first occurrence at or after `k`.
pub proof fn first_from_characterized(hay: Seq<char>, needle: Seq<char>, k: nat, i: nat)
    requires
        k <= i,
        occurs_at(hay, needle, i as int),
        forall|j: int| k <= j < i ==> !occurs_at(hay, needle, j),
    ensures
        first_from(hay, needle, k) == Some(i),
    decreases i - k,
{
    if k < i {
        first_from_characterized(hay, needle, k + 1, i);
    }
}

/// Without occurrences at or after `k`, `first_from` finds none.
pub proof fn first_from_none(hay: Seq<char>, needle: Seq<char>, k: nat)
    requires
        forall|j: int| k <= j ==> !occurs_at(hay, needle, j),
    ensures
        first_from(hay, needle, k) is None,
    decreases hay.len() + 1 - k,
{
    if k <= hay.len() {
        first_from_none(hay, needle, k + 1);
    }
}

/// Occurrences in a suffix are occurrences in the whole, shifted.
pub proof fn occurs_shift(v: Seq<char>, needle: Seq<char>, base: int, j: int)
    requires
        0 <= base <= v.len(),
        0 <= j,
    ensures
        occurs_at(v.skip(base), needle, j) == occurs_at(v, needle, base + j),
{
    if occurs_at(v, needle, base + j) {
        assert(v.skip(base).subrange(j, j + needle.len()) =~= v.subrange(base + j, base + j + needle.len()));
    }
    if occurs_at(v.skip(base), needle, j) {
        assert(v.skip(base).subrange(j, j + needle.len()) =~= v.subrange(base + j, base + j + needle.len()));
    }
}

/// A found occurrence lies at or after the start and really occurs.
pub proof fn first_from_bound(hay: Seq<char>, needle: Seq<char>, k: nat)
    ensures
        first_from(hay, needle, k) matches Some(i) ==> k <= i && occurs_at(hay, needle, i as int),
    decreases hay.len() + 1 - k,
{
    if k <= hay.len() && !occurs_at(hay, needle, k as int) {
        first_from_bound(hay, needle, k + 1);
    }
}

/// The first occurrence of `needle` in `hay` at or after `from`, as an
/// absolute index, and its agreement with [`first_from`] on the suffix.
pub fn find_next(hay: &Vec<char>, needle: &Vec<char>, from: usize) -> (r: Option<usize>)
    requires
        from <= hay@.len(),
    ensures
        match r {
            Some(abs) => from <= abs && abs + needle@.len() <= hay@.len() && first_from(
                hay@.skip(from as int),
                needle@,
                0,
            ) == Some((abs - from) as nat),
            None => first_from(hay@.skip(from as int), needle@, 0) is None,
        },
{
    let ghost s = hay@.skip(from as int);
    match find_from(hay, needle, from) {
        None => {
            proof {
                assert forall|j: int| 0 <= j implies !occurs_at(s, needle@, j) by {
                    occurs_shift(hay@, needle@, from as int, j);
                }
                first_from_none(s, needle@, 0);
            }
            None
        },
        Some(abs) => {
            proof {
                assert forall|j: int| 0 <= j < abs - from implies !occurs_at(s, needle@, j) by {
                    occurs_shift(hay@, needle@, from as int, j);
                }
                occurs_shift(hay@, needle@, from as int, abs - from);
                first_from_characterized(s, needle@, 0, (abs - from) as nat);
            }
            Some(abs)
        },
    }
}

/// The views of an optional string.
pub open spec fn opt_string_view(o: Option<String>) -> Option<Seq<char>> {
    match o {
        Some(s) => Some(s@),
        None => None,
    }
}

/// Strings as character sequences.
pub open spec fn strings_view(names: Seq<String>) -> Seq<Seq<char>> {
    names.map_values(|s: String| s@)
}

/// `true` iff `needle` occurs in `hay`.
pub fn contains_str(hay: &str, needle: &str) -> (r: bool)
    ensures
        r == contains_seq(hay@, needle@),
{
    let h = chars_of(hay);
    let n = chars_of(needle);
    match find_from(&h, &n, 0) {
        Some(_) => true,
        None => false,
    }
}

/// `true` iff `c` occurs in `s`.
pub fn contains_char(s: &str, c: char) -> (r: bool)
    ensures
        r == s@.contains(c),
{
    let v = chars_of(s);
    let mut i: usize = 0;
    while i < v.len()
        invariant
            i <= v@.len(),
            v@ == s@,
            forall|k: int| 0 <= k < i ==> v@[k] != c,
        decreases v.len() - i,
    {
        if v[i] == c {
            assert(s@[i as int] == c);
            return true;
        }
        i = i + 1;
    }
    false
}

/// `true` iff `hay` starts with `prefix`.
pub fn starts_with_str(hay: &str, prefix: &str) -> (r: bool)
    ensures
        r == starts_with(hay@, prefix@),
{
    let h = chars_of(hay);
    let p = chars_of(prefix);
    matches_at(&h, 0, &p)
}

// ------------------------------------------------------------------
// Ordering
// ------------------------------------------------------------------

/// `a` sorts before `b`: lexicographic order by code point, a proper
/// prefix first. This is the order of `str` and `String` (UTF-8 byte
/// order agrees with code-point order).
pub open spec fn seq_lt(a: Seq<char>, b: Seq<char>) -> bool
    decreases a.len(),
{
    if a.len() == 0 {
        b.len() > 0
    } else if b.len() == 0 {
        false
    } else if a[0] < b[0] {
        true
    } else if a[0] == b[0] {
        seq_lt(a.skip(1), b.skip(1))
    } else {
        false
    }
}

/// No sequence sorts before itself.
pub proof fn seq_lt_irreflexive(a: Seq<char>)
    ensures
        !seq_lt(a, a),
    decreases a.len(),
{
    if a.len() > 0 {
        seq_lt_irreflexive(a.skip(1));
    }
}

/// The order is transitive.
pub proof fn seq_lt_transitive(a: Seq<char>, b: Seq<char>, c: Seq<char>)
    requires
        seq_lt(a, b),
        seq_lt(b, c),
    ensures
        seq_lt(a, c),
    decreases a.len(),
{
    if a.len() > 0 && b.len() > 0 && c.len() > 0 && a[0] == b[0] && b[0] == c[0] {
        seq_lt_transitive(a.skip(1), b.skip(1), c.skip(1));
    }
}

/// Two different sequences are ordered one way or the other.
pub proof fn seq_lt_total(a: Seq<char>, b: Seq<char>)
    ensures
        a == b || seq_lt(a, b) || seq_lt(b, a),
    decreases a.len(),
{
    if a.len() > 0 && b.len() > 0 && a[0] == b[0] {
        seq_lt_total(a.skip(1), b.skip(1));
        if a.skip(1) == b.skip(1) {
            assert(a =~= seq![a[0]] + a.skip(1));
            assert(b =~= seq![b[0]] + b.skip(1));
        }
    } else if a.len() == 0 && b.len() == 0 {
        assert(a =~= b);
    }
}

/// The two directions exclude each other.
pub proof fn seq_lt_asymmetric(a: Seq<char>, b: Seq<char>)
    requires
        seq_lt(a, b),
    ensures
        !seq_lt(b, a),
{
    if seq_lt(b, a) {
        seq_lt_transitive(a, b, a);
        seq_lt_irreflexive(a);
    }
}

/// `true` iff `a` sorts before `b`.
pub fn chars_lt(a: &Vec<char>, b: &Vec<char>) -> (r: bool)
    ensures
        r == seq_lt(a@, b@),
{
    let mut i: usize = 0;
    assert(a@.skip(0) =~= a@);
    assert(b@.skip(0) =~= b@);
    while i < a.len() && i < b.len()
        invariant
            i <= a@.len(),
            i <= b@.len(),
            a@.take(i as int) == b@.take(i as int),
            seq_lt(a@, b@) == seq_lt(a@.skip(i as int), b@.skip(i as int)),
        decreases a.len() - i,
    {
        let ghost sa = a@.skip(i as int);
        let ghost sb = b@.skip(i as int);
        if a[i] < b[i] {
            return true;
        }
        if a[i] != b[i] {
            return false;
        }
        assert(sa.skip(1) =~= a@.skip(i + 1));
        assert(sb.skip(1) =~= b@.skip(i + 1));
        assert(a@.take(i + 1) =~= a@.take(i as int).push(a@[i as int]));
        assert(b@.take(i + 1) =~= b@.take(i as int).push(b@[i as int]));
        i = i + 1;
    }
    i < b.len()
}

/// `true` iff `a` sorts before `b`.
pub fn str_lt(a: &str, b: &str) -> (r: bool)
    ensures
        r == seq_lt(a@, b@),
{
    let va = chars_of(a);
    let vb = chars_of(b);
    chars_lt(&va, &vb)
}

// ------------------------------------------------------------------
// HTML escaping (delegated to maud)
// ------------------------------------------------------------------

/// How one character appears in escaped HTML text or attribute values:
/// `&`, `<`, `>` and `"` become entities, everything else stays.
pub open spec fn escape_char(c: char) -> Seq<char> {
    if c == '&' {
        seq!['&', 'a', 'm', 'p', ';']
    } else if c == '<' {
        seq!['&', 'l', 't', ';']
    } else if c == '>' {
        seq!['&', 'g', 't', ';']
    } else if c == '"' {
        seq!['&', 'q', 'u', 'o', 't', ';']
    } else {
        seq![c]
    }
}

/// `s` with every character escaped by [`escape_char`].
pub open spec fn html_escape(s: Seq<char>) -> Seq<char>
    decreases s.len(),
{
    if s.len() == 0 {
        Seq::empty()
    } else {
        html_escape(s.drop_last()) + escape_char(s.last())
    }
}

/// Append `text` escaped for HTML. Calls maud's `Render` impl for `str`,
/// which escapes exactly `&`, `<`, `>` and `"` (maud's `escape_to_string`)
/// and copies every other byte; the contract states that mapping.
#[verifier::external_body]
pub fn push_escaped(out: &mut String, text: &str)
    ensures
        final(out)@ == old(out)@ + html_escape(text@),
{
    maud::Render::render_to(text, out);
}

/// ` name="value"`: one attribute as maud writes it, the value escaped.
pub open spec fn attr(name: Seq<char>, value: Seq<char>) -> Seq<char> {
    seq![' '] + name + seq!['=', '"'] + html_escape(value) + seq!['"']
}

/// Append the attribute ` name="value"`, escaping `value`.
pub fn push_attr(out: &mut String, name: &str, value: &str)
    ensures
        final(out)@ == old(out)@ + attr(name@, value@),
{
    let ghost start = out@;
    push_char(out, ' ');
    push_str(out, name);
    push_char(out, '=');
    push_char(out, '"');
    push_escaped(out, value);
    push_char(out, '"');
    assert(out@ =~= start + attr(name@, value@));
}

// ------------------------------------------------------------------
// Decimal rendering
// ------------------------------------------------------------------

/// The ASCII digit for `d < 10`.
pub open spec fn digit_char(d: int) -> char {
    if d == 0 {
        '0'
    } else if d == 1 {
        '1'
    } else if d == 2 {
        '2'
    } else if d == 3 {
        '3'
    } else if d == 4 {
        '4'
    } else if d == 5 {
        '5'
    } else if d == 6 {
        '6'
    } else if d == 7 {
        '7'
    } else if d == 8 {
        '8'
    } else {
        '9'
    }
}

/// Base-ten rendering of `n`, most significant digit first, no padding.
pub open spec fn decimal(n: nat) -> Seq<char>
    decreases n,
{
    if n < 10 {
        seq![digit_char(n as int)]
    } else {
        decimal(n / 10).push(digit_char((n % 10) as int))
    }
}

fn digit(d: u64) -> (c: char)
    requires
        d < 10,
    ensures
        c == digit_char(d as int),
{
    match d {
        0 => '0',
        1 => '1',
        2 => '2',
        3 => '3',
        4 => '4',
        5 => '5',
        6 => '6',
        7 => '7',
        8 => '8',
        _ => '9',
    }
}

/// Append the decimal rendering of `n`.
pub fn push_decimal(out: &mut String, n: u64)
    ensures
        final(out)@ == old(out)@ + decimal(n as nat),
    decreases n,
{
    if n >= 10 {
        push_decimal(out, n / 10);
    }
    let c = digit(n % 10);
    push_char(out, c);
}

// ------------------------------------------------------------------
// Whitespace trimming
// ------------------------------------------------------------------

/// Unicode `White_Space`, the set `char::is_whitespace` tests.
pub open spec fn is_ws(c: char) -> bool {
    let u = c as u32;
    (0x9 <= u <= 0xD) || u == 0x20 || u == 0x85 || u == 0xA0 || u == 0x1680 || (0x2000 <= u
        <= 0x200A) || u == 0x2028 || u == 0x2029 || u == 0x202F || u == 0x205F || u == 0x3000
}

fn is_ws_exec(c: char) -> (r: bool)
    ensures
        r == is_ws(c),
{
    let u = c as u32;
    (0x9 <= u && u <= 0xD) || u == 0x20 || u == 0x85 || u == 0xA0 || u == 0x1680 || (0x2000 <= u
        && u <= 0x200A) || u == 0x2028 || u == 0x2029 || u == 0x202F || u == 0x205F || u == 0x3000
}

/// `s` without leading whitespace.
pub open spec fn trim_start(s: Seq<char>) -> Seq<char>
    decreases s.len(),
{
    if s.len() > 0 && is_ws(s[0]) {
        trim_start(s.skip(1))
    } else {
        s
    }
}

/// `s` without trailing whitespace.
pub open spec fn trim_end(s: Seq<char>) -> Seq<char>
    decreases s.len(),
{
    if s.len() > 0 && is_ws(s.last()) {
        trim_end(s.drop_last())
    } else {
        s
    }
}

/// `s` without leading or trailing whitespace (`str::trim`).
pub open spec fn trim(s: Seq<char>) -> Seq<char> {
    trim_end(trim_start(s))
}

/// Bounds `(lo, hi)` such that `v[lo..hi]` is the trimmed `v[from..to]`.
pub fn trim_bounds(v: &Vec<char>, from: usize, to: usize) -> (r: (usize, usize))
    requires
        from <= to <= v.len(),
    ensures
        from <= r.0 <= r.1 <= to,
        v@.subrange(r.0 as int, r.1 as int) == trim(v@.subrange(from as int, to as int)),
{
    let mut lo = from;
    while lo < to && is_ws_exec(v[lo])
        invariant
            from <= lo <= to <= v.len(),
            trim_start(v@.subrange(from as int, to as int)) == trim_start(
                v@.subrange(lo as int, to as int),
            ),
        decreases to - lo,
    {
        assert(v@.subrange(lo as int, to as int).skip(1) =~= v@.subrange(lo + 1, to as int));
        lo = lo + 1;
    }
    let mut hi = to;
    while hi > lo && is_ws_exec(v[hi - 1])
        invariant
            from <= lo <= hi <= to <= v.len(),
            trim_end(v@.subrange(lo as int, to as int)) == trim_end(
                v@.subrange(lo as int, hi as int),
            ),
        decreases hi - lo,
    {
        assert(v@.subrange(lo as int, hi as int).drop_last() =~= v@.subrange(
            lo as int,
            hi - 1,
        ));
        hi = hi - 1;
    }
    assert(!(lo < to && is_ws(v@[lo as int])));
    assert(trim_start(v@.subrange(lo as int, to as int)) == v@.subrange(lo as int, to as int));
    assert(trim_end(v@.subrange(lo as int, hi as int)) == v@.subrange(lo as int, hi as int));
    (lo, hi)
}

/// A fresh `String` holding `s` without leading or trailing whitespace.
pub fn trimmed(s: &str) -> (r: String)
    ensures
        r@ == trim(s@),
{
    let v = chars_of(s);
    let (lo, hi) = trim_bounds(&v, 0, v.len());
    assert(v@.subrange(0, v@.len() as int) =~= v@);
    string_from_range(&v, lo, hi)
}

// ------------------------------------------------------------------
// Lines and whitespace-separated tokens
// ------------------------------------------------------------------

/// The lines completed so far in `s`, and the unfinished last line. A
/// line ends at `\n`; a `\r` just before that `\n` is dropped.
pub open spec fn lines_state(s: Seq<char>) -> (Seq<Seq<char>>, Seq<char>)
    decreases s.len(),
{
    if s.len() == 0 {
        (Seq::empty(), Seq::empty())
    } else {
        let (done, cur) = lines_state(s.drop_last());
        if s.last() == '\n' {
            let line = if cur.len() > 0 && cur.last() == '\r' {
                cur.drop_last()
            } else {
                cur
            };
            (done.push(line), Seq::empty())
        } else {
            (done, cur.push(s.last()))
        }
    }
}

/// The lines of `s` as `str::lines` yields them: split at `\n`, a
/// `\r\n` ending counting as one, a trailing unterminated line kept
/// when it is not empty.
pub open spec fn lines_of(s: Seq<char>) -> Seq<Seq<char>> {
    let (done, cur) = lines_state(s);
    if cur.len() > 0 {
        done.push(cur)
    } else {
        done
    }
}

proof fn lines_state_grows(s: Seq<char>, i: int)
    requires
        0 <= i < s.len(),
    ensures
        lines_state(s.take(i + 1)).0.len() >= lines_state(s.take(i)).0.len(),
        forall|k: int|
            0 <= k < lines_state(s.take(i)).0.len() ==> lines_state(s.take(i + 1)).0[k]
                == lines_state(s.take(i)).0[k],
{
    assert(s.take(i + 1).drop_last() =~= s.take(i));
}

/// The lines completed in a prefix of `s` are the first lines of `s`.
pub proof fn lines_state_prefix(s: Seq<char>, i: int)
    requires
        0 <= i <= s.len(),
    ensures
        lines_state(s.take(i)).0.len() <= lines_of(s).len(),
        forall|k: int|
            0 <= k < lines_state(s.take(i)).0.len() ==> lines_of(s)[k] == lines_state(s.take(i)).0[k],
    decreases s.len() - i,
{
    if i < s.len() {
        lines_state_grows(s, i);
        lines_state_prefix(s, i + 1);
    } else {
        assert(s.take(i) =~= s);
    }
}

/// The tokens completed so far in `s`, and the token being read.
pub open spec fn tokens_state(s: Seq<char>) -> (Seq<Seq<char>>, Seq<char>)
    decreases s.len(),
{
    if s.len() == 0 {
        (Seq::empty(), Seq::empty())
    } else {
        let (done, cur) = tokens_state(s.drop_last());
        if is_ws(s.last()) {
            if cur.len() > 0 {
                (done.push(cur), Seq::empty())
            } else {
                (done, cur)
            }
        } else {
            (done, cur.push(s.last()))
        }
    }
}

/// The whitespace-separated tokens of `s` (`str::split_whitespace`).
pub open spec fn ws_tokens(s: Seq<char>) -> Seq<Seq<char>> {
    let (done, cur) = tokens_state(s);
    if cur.len() > 0 {
        done.push(cur)
    } else {
        done
    }
}

/// Whether `c` is whitespace (`char::is_whitespace`).
pub fn is_whitespace(c: char) -> (r: bool)
    ensures
        r == is_ws(c),
{
    is_ws_exec(c)
}

// ------------------------------------------------------------------
// Replacing
// ------------------------------------------------------------------

/// `s` with every non-overlapping occurrence of `pat`, scanned left to
/// right, replaced by `rep` (`str::replace` for a non-empty pattern).
pub open spec fn replace_all(s: Seq<char>, pat: Seq<char>, rep: Seq<char>) -> Seq<char>
    decreases s.len(),
{
    if pat.len() == 0 || s.len() < pat.len() {
        s
    } else if s.take(pat.len() as int) == pat {
        rep + replace_all(s.skip(pat.len() as int), pat, rep)
    } else {
        seq![s[0]] + replace_all(s.skip(1), pat, rep)
    }
}

/// `s` with every occurrence of the non-empty `pat` replaced by `rep`.
pub fn replace_str(s: &str, pat: &str, rep: &str) -> (r: String)
    requires
        pat@.len() > 0,
    ensures
        r@ == replace_all(s@, pat@, rep@),
{
    let v = chars_of(s);
    let p = chars_of(pat);
    let mut out = String::new();
    let mut i: usize = 0;
    assert(v@.skip(0) =~= v@);
    assert(out@ + replace_all(v@, p@, rep@) =~= replace_all(v@, p@, rep@));
    while i < v.len()
        invariant
            i <= v.len(),
            p@ == pat@,
            p@.len() > 0,
            v@ == s@,
            replace_all(v@, p@, rep@) == out@ + replace_all(v@.skip(i as int), p@, rep@),
        decreases v.len() - i,
    {
        let ghost rest = v@.skip(i as int);
        if matches_at(&v, i, &p) {
            assert(rest.take(p@.len() as int) =~= v@.subrange(i as int, i + p@.len()));
            assert(rest.skip(p@.len() as int) =~= v@.skip(i + p@.len()));
            push_str(&mut out, rep);
            i = i + p.len();
        } else {
            proof {
                if rest.len() >= p@.len() {
                    assert(rest.take(p@.len() as int) =~= v@.subrange(i as int, i + p@.len()));
                }
                assert(rest.skip(1) =~= v@.skip(i + 1));
                if rest.len() < p@.len() {
                    assert(replace_all(rest.skip(1), p@, rep@) == rest.skip(1)) by {
                        assert(rest.skip(1).len() < p@.len());
                    }
                    assert(rest =~= seq![v@[i as int]] + rest.skip(1));
                }
            }
            push_char(&mut out, v[i]);
            i = i + 1;
        }
        assert(out@ + replace_all(v@.skip(i as int), p@, rep@) == replace_all(v@, p@, rep@));
    }
    assert(v@.skip(i as int) =~= Seq::<char>::empty());
    out
}

/// Join `parts` with `sep` between consecutive parts.
pub open spec fn join(parts: Seq<Seq<char>>, sep: Seq<char>) -> Seq<char>
    decreases parts.len(),
{
    if parts.len() == 0 {
        Seq::empty()
    } else if parts.len() == 1 {
        parts[0]
    } else {
        join(parts.drop_last(), sep) + sep + parts.last()
    }
}

} // verus!

