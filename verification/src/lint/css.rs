//! The CSS lint: outside the token sources, a line holding a raw colour
//! (`#rgb`, `#rrggbb`, `rgb(`, ...) or a raw spacing length (`12px`,
//! `0.5rem`) where a `var(--loom-...)` token belongs is a violation.
//! Lines inside `:root`, `@keyframes`, `@font-face` and `@property`
//! blocks, comment lines, custom-property declarations, lines with a
//! `loom-allow:` marker and lines already using a loom variable are
//! exempt; so are spacing lines of border-like properties and lines
//! whose every length is below the smallest spacing token (4px, 0.25rem).

use vstd::prelude::*;
use crate::lint::pattern::{
    captures, captures_view, compile, groups_view, is_match, regex_captures, regex_compiles,
    regex_is_match, Pattern,
};
use crate::lint::rust::{contains_any, file_view, has_extension, path_contains_any, path_has_extension, LintError};
use crate::text::{
    chars_of, contains_char, contains_seq, contains_str, lines_of, lines_state, lines_state_prefix,
    owned, starts_with, starts_with_str, str_eq, string_from_range, trim, trimmed,
};

verus! {

// ------------------------------------------------------------------
// Patterns and findings
// ------------------------------------------------------------------

/// A hex colour literal: `#` and 3, 4, 6 or 8 hex digits, at a word end.
pub open spec fn hex_source() -> &'static str {
    r"#(?:[0-9a-fA-F]{3,4}|[0-9a-fA-F]{6}|[0-9a-fA-F]{8})\b"
}

/// An `rgb(` or `rgba(` call.
pub open spec fn rgb_source() -> &'static str {
    r"\brgba?\s*\("
}

/// A spacing length: a number (group 1) and `px`, `rem` or `em` (group 2).
pub open spec fn spacing_source() -> &'static str {
    r"\b(\d+(?:\.\d+)?)(px|rem|em)\b"
}

/// A declaration of a border-like property, whose lengths are not
/// layout spacing.
pub open spec fn micro_source() -> &'static str {
    r"^\s*(?:border|outline|border-(?:top|right|bottom|left|width|radius)|outline-(?:width|offset)|stroke-width|line-height|letter-spacing)\b"
}

/// The four patterns of the CSS lint, compiled.
pub struct CssPatterns {
    /// Hex colour pattern.
    pub hex: Pattern,
    /// `rgb(` pattern.
    pub rgb: Pattern,
    /// Spacing length pattern.
    pub spacing: Pattern,
    /// Border-like property pattern.
    pub micro: Pattern,
}

impl CssPatterns {
    /// The patterns were compiled from the lint's sources.
    pub open spec fn wf(self) -> bool {
        &&& self.hex.source() == hex_source()@
        &&& self.rgb.source() == rgb_source()@
        &&& self.spacing.source() == spacing_source()@
        &&& self.micro.source() == micro_source()@
    }
}

/// All four sources of the CSS lint compile.
pub open spec fn css_sources_compile() -> bool {
    &&& regex_compiles(hex_source()@)
    &&& regex_compiles(rgb_source()@)
    &&& regex_compiles(spacing_source()@)
    &&& regex_compiles(micro_source()@)
}

/// Compile the CSS lint's patterns; the first source that does not
/// compile names the error.
pub fn css_patterns() -> (r: Result<CssPatterns, LintError>)
    ensures
        r is Ok <==> css_sources_compile(),
        r matches Ok(p) ==> p.wf(),
        r matches Err(e) ==> (e == LintError::Pattern("hex colour regex") && !regex_compiles(
            hex_source()@,
        )) || (e == LintError::Pattern("rgb colour regex") && regex_compiles(hex_source()@)
            && !regex_compiles(rgb_source()@)) || (e == LintError::Pattern("spacing regex")
            && regex_compiles(hex_source()@) && regex_compiles(rgb_source()@) && !regex_compiles(
            spacing_source()@,
        )) || (e == LintError::Pattern("micro property regex") && regex_compiles(hex_source()@)
            && regex_compiles(rgb_source()@) && regex_compiles(spacing_source()@)
            && !regex_compiles(micro_source()@)),
{
    let hex = match compile(r"#(?:[0-9a-fA-F]{3,4}|[0-9a-fA-F]{6}|[0-9a-fA-F]{8})\b") {
        Ok(p) => p,
        Err(_) => return Err(LintError::Pattern("hex colour regex")),
    };
    let rgb = match compile(r"\brgba?\s*\(") {
        Ok(p) => p,
        Err(_) => return Err(LintError::Pattern("rgb colour regex")),
    };
    let spacing = match compile(r"\b(\d+(?:\.\d+)?)(px|rem|em)\b") {
        Ok(p) => p,
        Err(_) => return Err(LintError::Pattern("spacing regex")),
    };
    let micro = match compile(
        r"^\s*(?:border|outline|border-(?:top|right|bottom|left|width|radius)|outline-(?:width|offset)|stroke-width|line-height|letter-spacing)\b",
    ) {
        Ok(p) => p,
        Err(_) => return Err(LintError::Pattern("micro property regex")),
    };
    Ok(CssPatterns { hex, rgb, spacing, micro })
}

/// What a CSS violation is about.
#[derive(Debug, Clone, Copy, PartialEq, Eq, Structural)]
pub enum CssViolationKind {
    /// A raw hex colour or `rgb()` / `rgba()` call.
    RawColour,
    /// A raw `px` / `rem` / `em` length that should be a spacing or font
    /// size token.
    RawSpacing,
}

/// One CSS violation.
#[derive(Debug, Clone)]
pub struct CssViolation {
    /// File the violation was found in.
    pub path: String,
    /// 1-indexed line number.
    pub line: usize,
    /// What kind of literal triggered the lint.
    pub kind: CssViolationKind,
    /// The trimmed offending line, cut to its first 120 characters.
    pub matched: String,
}

/// A CSS violation as `(path, line, kind, matched)`.
pub open spec fn css_violation_view(v: CssViolation) -> (Seq<char>, nat, CssViolationKind, Seq<char>) {
    (v.path@, v.line as nat, v.kind, v.matched@)
}

/// CSS violations as views.
pub open spec fn css_violations_view(vs: Seq<CssViolation>) -> Seq<
    (Seq<char>, nat, CssViolationKind, Seq<char>),
> {
    vs.map_values(|v: CssViolation| css_violation_view(v))
}

/// The number and unit of a spacing match (groups 1 and 2).
pub open spec fn spacing_parts(m: Seq<Option<Seq<char>>>) -> Option<(Seq<char>, Seq<char>)> {
    if m.len() > 2 && m[1] is Some && m[2] is Some {
        Some((m[1]->0, m[2]->0))
    } else {
        None
    }
}

/// Reading the spacing matches in order until one is not below its
/// floor: `Some(true)` when every one is below, `Some(false)` when one is
/// not, `None` when a match read before that lacks a group or holds an
/// irregular number.
pub open spec fn all_below_floor(caps: Seq<Seq<Option<Seq<char>>>>) -> Option<bool>
    decreases caps.len(),
{
    if caps.len() == 0 {
        Some(true)
    } else {
        match spacing_parts(caps[0]) {
            None => None,
            Some(parts) => match number_below_floor(parts.0, parts.1) {
                Some(true) => all_below_floor(caps.skip(1)),
                other => other,
            },
        }
    }
}

/// A trimmed line that opens a token block (`:root`, `@keyframes`,
/// `@font-face`, `@property`).
pub open spec fn opens_token_block(t: Seq<char>) -> bool {
    ||| starts_with(t, ":root"@)
    ||| starts_with(t, "@keyframes"@)
    ||| starts_with(t, "@font-face"@)
    ||| starts_with(t, "@property"@)
}

/// How many times `c` occurs in `s`.
pub open spec fn count_char(s: Seq<char>, c: char) -> nat
    decreases s.len(),
{
    if s.len() == 0 {
        0
    } else {
        count_char(s.drop_last(), c) + if s.last() == c {
            1nat
        } else {
            0nat
        }
    }
}

/// The block state `(inside a token block, brace depth)` after `line`,
/// from the state `st` before it. A line opening a token block starts it
/// at depth 0; inside a block the depth gains the line's `{` and loses
/// its `}` (not below 0), and the block ends on a line with a `}` that
/// leaves the depth at 0.
pub open spec fn css_step(st: (bool, nat), line: Seq<char>) -> (bool, nat) {
    let t = trim(line);
    let (inside, depth) = if opens_token_block(t) {
        (true, 0nat)
    } else {
        st
    };
    if inside {
        let opened = depth + count_char(line, '{');
        let closed = count_char(line, '}');
        let d: nat = if opened >= closed {
            (opened - closed) as nat
        } else {
            0
        };
        (!(d == 0 && t.contains('}')), d)
    } else {
        (false, depth)
    }
}

/// The block state after a run of lines.
pub open spec fn css_state(lines: Seq<Seq<char>>) -> (bool, nat)
    decreases lines.len(),
{
    if lines.len() == 0 {
        (false, 0)
    } else {
        css_step(css_state(lines.drop_last()), lines.last())
    }
}

/// A line is exempt: in or opening a token block (`inside` tells whether
/// a block was open before it), a comment line, a custom-property line,
/// a line with the `loom-allow:` marker, or a line using a loom variable.
pub open spec fn css_line_exempt(inside: bool, line: Seq<char>) -> bool {
    let t = trim(line);
    ||| inside
    ||| opens_token_block(t)
    ||| starts_with(t, "//"@)
    ||| starts_with(t, "/*"@)
    ||| starts_with(t, "*"@)
    ||| starts_with(t, "--"@)
    ||| contains_seq(line, "loom-allow:"@)
    ||| contains_seq(line, "var(--loom-"@)
}

/// How a line is shown: trimmed, cut to its first 120 characters.
pub open spec fn css_display(line: Seq<char>) -> Seq<char> {
    let t = trim(line);
    if t.len() > 120 {
        t.take(120)
    } else {
        t
    }
}

/// The findings of a line that is not exempt: a colour violation when a
/// hex colour or `rgb(` occurs, then a spacing violation when a length
/// occurs, the line is not a border-like declaration, and some length is
/// at or above its floor.
pub open spec fn css_line_findings(path: Seq<char>, lineno: nat, line: Seq<char>) -> Seq<
    (Seq<char>, nat, CssViolationKind, Seq<char>),
> {
    findings_given(
        path,
        lineno,
        line,
        regex_is_match(hex_source()@, line) || regex_is_match(rgb_source()@, line),
        regex_captures(spacing_source()@, line),
        regex_is_match(micro_source()@, trim(line)),
    )
}

/// The findings of a line that is not exempt, given whether a colour
/// pattern matched (`colour`), its spacing matches (`caps`) and whether
/// the trimmed line is a border-like declaration (`micro`).
pub open spec fn findings_given(
    path: Seq<char>,
    lineno: nat,
    line: Seq<char>,
    colour: bool,
    caps: Seq<Seq<Option<Seq<char>>>>,
    micro: bool,
) -> Seq<(Seq<char>, nat, CssViolationKind, Seq<char>)> {
    let shown = css_display(line);
    let spacing = caps.len() > 0 && !micro && all_below_floor(caps) == Some(false);
    (if colour {
        seq![(path, lineno, CssViolationKind::RawColour, shown)]
    } else {
        Seq::empty()
    }) + (if spacing {
        seq![(path, lineno, CssViolationKind::RawSpacing, shown)]
    } else {
        Seq::empty()
    })
}

/// The violations of line number `lineno` (1-indexed) of `path`.
pub open spec fn css_line_violations(path: Seq<char>, lineno: nat, inside: bool, line: Seq<char>) -> Seq<
    (Seq<char>, nat, CssViolationKind, Seq<char>),
> {
    if css_line_exempt(inside, line) {
        Seq::empty()
    } else {
        css_line_findings(path, lineno, line)
    }
}

/// A line can be linted: it is exempt, or its spacing matches can be read.
pub open spec fn css_line_ok(inside: bool, line: Seq<char>) -> bool {
    css_line_exempt(inside, line) || all_below_floor(regex_captures(spacing_source()@, line)) is Some
}

/// The violations of a run of lines, numbered from 1.
pub open spec fn css_lines_violations(path: Seq<char>, lines: Seq<Seq<char>>) -> Seq<
    (Seq<char>, nat, CssViolationKind, Seq<char>),
>
    decreases lines.len(),
{
    if lines.len() == 0 {
        Seq::empty()
    } else {
        css_lines_violations(path, lines.drop_last()) + css_line_violations(
            path,
            lines.len(),
            css_state(lines.drop_last()).0,
            lines.last(),
        )
    }
}

/// Every line of `content` can be linted.
pub open spec fn css_file_ok(content: Seq<char>) -> bool {
    forall|i: int|
        0 <= i < lines_of(content).len() ==> css_line_ok(
            css_state(lines_of(content).take(i)).0,
            #[trigger] lines_of(content)[i],
        )
}

// ------------------------------------------------------------------
// Spacing numbers
// ------------------------------------------------------------------

/// An ASCII decimal digit.
pub open spec fn is_ascii_digit(c: char) -> bool {
    '0' <= c <= '9'
}

/// Every character of `s` is an ASCII digit.
pub open spec fn all_ascii_digits(s: Seq<char>) -> bool {
    forall|i: int| 0 <= i < s.len() ==> is_ascii_digit(#[trigger] s[i])
}

/// Every character of `s` is ASCII.
pub open spec fn all_ascii(s: Seq<char>) -> bool {
    forall|i: int| 0 <= i < s.len() ==> (#[trigger] s[i] as u32) < 128
}

/// The value of an ASCII digit.
pub open spec fn digit_value(c: char) -> nat {
    (c as u32 - '0' as u32) as nat
}

/// The value of a run of ASCII digits, most significant first.
pub open spec fn digits_value(s: Seq<char>) -> nat
    decreases s.len(),
{
    if s.len() == 0 {
        0
    } else {
        digits_value(s.drop_last()) * 10 + digit_value(s.last())
    }
}

/// Ten to the power `n`.
pub open spec fn pow10(n: nat) -> nat
    decreases n,
{
    if n == 0 {
        1
    } else {
        10 * pow10((n - 1) as nat)
    }
}

/// `s` is `whole.frac` with the dot at `d`, both parts non-empty digit runs.
pub open spec fn dot_at(s: Seq<char>, d: int) -> bool {
    &&& 0 < d < s.len() - 1
    &&& s[d] == '.'
    &&& all_ascii_digits(s.take(d))
    &&& all_ascii_digits(s.skip(d + 1))
}

/// The number `whole.frac` is below `num / den`.
pub open spec fn below(whole: Seq<char>, frac: Seq<char>, num: nat, den: nat) -> bool {
    (digits_value(whole) * pow10(frac.len()) + digits_value(frac)) * den < num * pow10(frac.len())
}

/// The numerator shared by both spacing floors.
pub open spec fn floor_num() -> nat {
    33554431
}

/// The denominator of the floor of `unit`: a number is below the floor
/// when the `f32` nearest to it (ties to even) is below 4 for `px` or
/// below 0.25 for `rem` and `em` (their 16px root), that is when it is
/// below 4 - 2^-23 = 33554431 / 2^23, or below 0.25 - 2^-27 = 33554431 /
/// 2^27. Any other unit is read as `px`.
pub open spec fn floor_den(unit: Seq<char>) -> nat {
    if unit == "rem"@ || unit == "em"@ {
        134217728
    } else {
        8388608
    }
}

/// Whether a captured spacing number is below the floor of its unit.
/// A number holding a non-ASCII character does not parse as `f32` and is
/// read as 0, below any floor. `None` for an ASCII number that is not
/// `digits` or `digits.digits`.
pub open spec fn number_below_floor(num: Seq<char>, unit: Seq<char>) -> Option<bool> {
    if !all_ascii(num) {
        Some(true)
    } else if num.len() > 0 && all_ascii_digits(num) {
        Some(below(num, Seq::empty(), floor_num(), floor_den(unit)))
    } else if exists|d: int| dot_at(num, d) {
        let d = choose|d: int| dot_at(num, d);
        Some(below(num.take(d), num.skip(d + 1), floor_num(), floor_den(unit)))
    } else {
        None
    }
}

proof fn digits_value_step(s: Seq<char>, lo: int, t: int)
    requires
        0 <= lo <= t < s.len(),
    ensures
        digits_value(s.subrange(lo, t + 1)) == digits_value(s.subrange(lo, t)) * 10 + digit_value(
            s[t],
        ),
{
    assert(s.subrange(lo, t + 1).drop_last() =~= s.subrange(lo, t));
}

proof fn int_step(i: int, dg: int)
    requires
        0 <= dg <= 9,
        0 <= i,
    ensures
        i >= 4 ==> i * 10 + dg >= 4,
{
}

proof fn diff_step(num: int, den: int, p: int, i: int, f: int, dg: int)
    by (nonlinear_arith)
    ensures
        num * (10 * p) - (i * (10 * p) + (f * 10 + dg)) * den == 10 * (num * p - (i * p + f) * den)
            - dg * den,
{
}

proof fn diff_sign(d: int, dg: int, den: int)
    by (nonlinear_arith)
    requires
        0 <= dg <= 9,
        den > 0,
    ensures
        d >= den ==> 10 * d - dg * den >= den,
        d <= 0 ==> 10 * d - dg * den <= 0,
        dg * den <= 9 * den,
{
}

proof fn big_int_not_below(i: int, p: int, f: int, den: int, num: int)
    by (nonlinear_arith)
    requires
        i >= 4,
        p >= 1,
        f >= 0,
        den > 0,
        num < 4 * den,
    ensures
        !((i * p + f) * den < num * p),
{
}

/// `below(v[0..d], v[f..], floor_num(), den)` for digit runs.
fn below_floor(v: &Vec<char>, d: usize, f: usize, den: u64) -> (r: bool)
    requires
        d <= f <= v@.len(),
        den == 8388608 || den == 134217728,
        all_ascii_digits(v@.take(d as int)),
        all_ascii_digits(v@.skip(f as int)),
    ensures
        r == below(v@.take(d as int), v@.skip(f as int), floor_num(), den as nat),
{
    let ghost whole = v@.take(d as int);
    let ghost frac = v@.skip(f as int);
    // The integer part, held exactly while below 4.
    let mut iv: u64 = 0;
    let mut j: usize = 0;
    assert(v@.subrange(0, 0) =~= Seq::<char>::empty());
    while j < d
        invariant
            j <= d <= v@.len(),
            whole == v@.take(d as int),
            all_ascii_digits(whole),
            iv == if digits_value(v@.subrange(0, j as int)) < 4 {
                digits_value(v@.subrange(0, j as int))
            } else {
                4
            },
        decreases d - j,
    {
        assert(is_ascii_digit(whole[j as int]));
        let dg = (v[j] as u32 - 48) as u64;
        proof {
            digits_value_step(v@, 0, j as int);
            int_step(digits_value(v@.subrange(0, j as int)) as int, dg as int);
        }
        if iv < 4 {
            iv = iv * 10 + dg;
            if iv > 4 {
                iv = 4;
            }
        }
        j = j + 1;
    }
    assert(v@.subrange(0, d as int) =~= whole);
    let ghost ival = digits_value(whole);
    if iv >= 4 {
        proof {
            assert(pow10(frac.len()) >= 1) by {
                pow10_positive(frac.len());
            }
            big_int_not_below(
                ival as int,
                pow10(frac.len()) as int,
                digits_value(frac) as int,
                den as int,
                floor_num() as int,
            );
        }
        return false;
    }
    // The difference num * 10^t - (whole.frac[..t] * 10^t) * den, held
    // exactly while strictly between 0 and den; den stands for "at least
    // den" and 0 for "at most 0", both of which further digits keep.
    let scaled: i64 = if den == 8388608 {
        (iv as i64) * 8388608
    } else {
        (iv as i64) * 134217728
    };
    let start: i64 = 33554431 - scaled;
    let mut x: i64 = if start >= den as i64 {
        den as i64
    } else if start <= 0 {
        0
    } else {
        start
    };
    let mut t: usize = f;
    assert(v@.subrange(f as int, f as int) =~= Seq::<char>::empty());
    assert(pow10(0) == 1);
    assert(ival == iv);
    assert(start == floor_num() * 1 - (ival * 1 + 0) * den);
    while t < v.len()
        invariant
            f <= t <= v@.len(),
            frac == v@.skip(f as int),
            all_ascii_digits(frac),
            den == 8388608 || den == 134217728,
            ({
                let p = pow10((t - f) as nat) as int;
                let dd = floor_num() * p - (ival * p + digits_value(v@.subrange(f as int, t as int)))
                    * den;
                (x == den && dd >= den) || (x == 0 && dd <= 0) || (0 < x < den && x == dd)
            }),
        decreases v.len() - t,
    {
        assert(is_ascii_digit(frac[t - f]));
        let dg = (v[t] as u32 - 48) as i64;
        let ghost p = pow10((t - f) as nat) as int;
        let ghost fv = digits_value(v@.subrange(f as int, t as int)) as int;
        let ghost dd = floor_num() * p - (ival * p + fv) * den;
        proof {
            digits_value_step(v@, f as int, t as int);
            assert(pow10((t + 1 - f) as nat) == 10 * pow10((t - f) as nat));
            diff_step(floor_num() as int, den as int, p, ival as int, fv, dg as int);
            diff_sign(dd, dg as int, den as int);
        }
        if x != den as i64 && x != 0 {
            let y = 10 * x - dg * (den as i64);
            x = if y >= den as i64 {
                den as i64
            } else if y <= 0 {
                0
            } else {
                y
            };
        }
        t = t + 1;
    }
    assert(v@.subrange(f as int, v@.len() as int) =~= frac);
    assert(frac.len() == v@.len() - f);
    x > 0
}

proof fn pow10_positive(n: nat)
    ensures
        pow10(n) >= 1,
    decreases n,
{
    if n > 0 {
        pow10_positive((n - 1) as nat);
    }
}


/// Whether `v[lo..hi]` is all ASCII digits.
fn digits_in(v: &Vec<char>, lo: usize, hi: usize) -> (r: bool)
    requires
        lo <= hi <= v@.len(),
    ensures
        r == all_ascii_digits(v@.subrange(lo as int, hi as int)),
{
    let mut i = lo;
    while i < hi
        invariant
            lo <= i <= hi <= v@.len(),
            forall|k: int| lo <= k < i ==> is_ascii_digit(#[trigger] v@[k]),
        decreases hi - i,
    {
        if !('0' <= v[i] && v[i] <= '9') {
            assert(!is_ascii_digit(v@.subrange(lo as int, hi as int)[i - lo]));
            return false;
        }
        i = i + 1;
    }
    assert forall|k: int| 0 <= k < hi - lo implies is_ascii_digit(
        #[trigger] v@.subrange(lo as int, hi as int)[k],
    ) by {
        assert(is_ascii_digit(v@[lo + k]));
    }
    true
}

proof fn dot_unique(s: Seq<char>, d: int, e: int)
    requires
        0 <= d < s.len(),
        s[d] == '.',
        forall|k: int| 0 <= k < d ==> s[k] != '.',
        dot_at(s, e),
    ensures
        e == d,
{
    if e < d {
        assert(s[e] != '.');
    } else if e > d {
        assert(s.take(e)[d] == '.');
        assert(is_ascii_digit(s.take(e)[d]));
    }
}

/// Whether a captured spacing number is below the floor of its unit (see
/// [`number_below_floor`]).
fn number_is_below_floor(num: &str, unit: &str) -> (r: Option<bool>)
    ensures
        r == number_below_floor(num@, unit@),
{
    let v = chars_of(num);
    let mut i: usize = 0;
    while i < v.len()
        invariant
            i <= v@.len(),
            v@ == num@,
            forall|k: int| 0 <= k < i ==> (#[trigger] v@[k] as u32) < 128,
        decreases v.len() - i,
    {
        if (v[i] as u32) >= 128 {
            assert(!all_ascii(num@));
            return Some(true);
        }
        i = i + 1;
    }
    assert(all_ascii(num@));
    let den: u64 = if str_eq(unit, "rem") || str_eq(unit, "em") {
        134217728
    } else {
        8388608
    };
    assert(den == floor_den(unit@));
    let mut d: usize = 0;
    while d < v.len() && v[d] != '.'
        invariant
            d <= v@.len(),
            forall|k: int| 0 <= k < d ==> v@[k] != '.',
        decreases v.len() - d,
    {
        d = d + 1;
    }
    let n = v.len();
    if d == n {
        proof {
            assert forall|e: int| !dot_at(num@, e) by {
                if 0 <= e < num@.len() {
                    assert(v@[e] != '.');
                }
            }
        }
        if n > 0 && digits_in(&v, 0, n) {
            assert(v@.subrange(0, n as int) =~= num@);
            assert(v@.take(n as int) =~= num@);
            assert(v@.skip(n as int) =~= Seq::<char>::empty());
            Some(below_floor(&v, n, n, den))
        } else {
            assert(v@.subrange(0, n as int) =~= num@);
            None
        }
    } else {
        proof {
            assert(!is_ascii_digit(num@[d as int]));
            assert(!all_ascii_digits(num@));
            assert forall|e: int| dot_at(num@, e) implies e == d by {
                dot_unique(num@, d as int, e);
            }
        }
        if d > 0 && d + 1 < n && digits_in(&v, 0, d) && digits_in(&v, d + 1, n) {
            assert(v@.subrange(0, d as int) =~= v@.take(d as int));
            assert(v@.subrange(d + 1, n as int) =~= v@.skip(d + 1));
            assert(dot_at(num@, d as int));
            Some(below_floor(&v, d, d + 1, den))
        } else {
            proof {
                assert(v@.subrange(0, d as int) =~= v@.take(d as int));
                if d + 1 <= n {
                    assert(v@.subrange(d + 1, n as int) =~= v@.skip(d + 1));
                }
                assert(!dot_at(num@, d as int));
            }
            None
        }
    }
}

/// Read the spacing matches of line `lineno` of `path` (see
/// [`all_below_floor`]).
fn scan_spacing(caps: &Vec<Vec<Option<String>>>, path: &str, lineno: usize) -> (r: Result<
    bool,
    LintError,
>)
    ensures
        match r {
            Ok(b) => all_below_floor(captures_view(caps@)) == Some(b),
            Err(e) => all_below_floor(captures_view(caps@)) is None && (e is MissingGroup
                || e is IrregularNumber),
        },
{
    let ghost cv = captures_view(caps@);
    let mut j: usize = 0;
    assert(cv.skip(0) =~= cv);
    while j < caps.len()
        invariant
            j <= caps@.len(),
            cv == captures_view(caps@),
            all_below_floor(cv) == all_below_floor(cv.skip(j as int)),
        decreases caps.len() - j,
    {
        let m = &caps[j];
        let ghost rest = cv.skip(j as int);
        assert(rest[0] == cv[j as int]);
        assert(cv[j as int] == groups_view(m@));
        assert(rest.skip(1) =~= cv.skip(j + 1));
        if m.len() < 3 {
            return Err(LintError::MissingGroup { path: owned(path), line: lineno });
        }
        match &m[1] {
            None => {
                return Err(LintError::MissingGroup { path: owned(path), line: lineno });
            },
            Some(num) => match &m[2] {
                None => {
                    return Err(LintError::MissingGroup { path: owned(path), line: lineno });
                },
                Some(unit) => {
                    assert(spacing_parts(rest[0]) == Some((num@, unit@)));
                    match number_is_below_floor(num.as_str(), unit.as_str()) {
                        Some(true) => {},
                        Some(false) => {
                            return Ok(false);
                        },
                        None => {
                            return Err(LintError::IrregularNumber { path: owned(path), line: lineno });
                        },
                    }
                },
            },
        }
        j = j + 1;
    }
    assert(cv.skip(j as int).len() == 0);
    Ok(true)
}


/// How many times `c` occurs in `s`.
fn count_of(s: &str, c: char) -> (r: usize)
    ensures
        r == count_char(s@, c),
        r <= s@.len(),
{
    let v = chars_of(s);
    let mut n: usize = 0;
    let mut i: usize = 0;
    assert(v@.take(0) =~= Seq::<char>::empty());
    while i < v.len()
        invariant
            i <= v@.len(),
            n == count_char(v@.take(i as int), c),
            n <= i,
        decreases v.len() - i,
    {
        assert(v@.take(i + 1).drop_last() =~= v@.take(i as int));
        if v[i] == c {
            n = n + 1;
        }
        i = i + 1;
    }
    assert(v@.take(i as int) =~= s@);
    n
}

/// Whether the trimmed line `t` opens a token block.
fn opens_block(t: &str) -> (r: bool)
    ensures
        r == opens_token_block(t@),
{
    starts_with_str(t, ":root") || starts_with_str(t, "@keyframes") || starts_with_str(
        t,
        "@font-face",
    ) || starts_with_str(t, "@property")
}

/// The block state after `line` (see [`css_step`]); `t` is the trimmed
/// line.
fn block_step(line: &str, t: &str, inside: bool, depth: usize) -> (r: (bool, usize))
    requires
        t@ == trim(line@),
        depth + line@.len() <= usize::MAX,
    ensures
        (r.0, r.1 as nat) == css_step((inside, depth as nat), line@),
        r.1 <= depth + line@.len(),
{
    let (now_inside, now_depth) = if opens_block(t) {
        (true, 0usize)
    } else {
        (inside, depth)
    };
    if now_inside {
        let opened = now_depth + count_of(line, '{');
        let closed = count_of(line, '}');
        let d = if opened >= closed {
            opened - closed
        } else {
            0
        };
        (!(d == 0 && contains_char(t, '}')), d)
    } else {
        (false, now_depth)
    }
}

/// The first 120 characters of `t`.
fn shown_line(t: &str) -> (r: String)
    ensures
        r@ == (if t@.len() > 120 {
            t@.take(120)
        } else {
            t@
        }),
{
    let v = chars_of(t);
    if v.len() > 120 {
        assert(v@.subrange(0, 120) =~= t@.take(120));
        string_from_range(&v, 0, 120)
    } else {
        assert(v@.subrange(0, v@.len() as int) =~= t@);
        string_from_range(&v, 0, v.len())
    }
}

/// The violations of line `lineno` (1-indexed) of `path`; `inside` tells
/// whether a token block was open before the line.
pub fn lint_css_line(path: &str, lineno: usize, line: &str, inside: bool, pats: &CssPatterns) -> (r:
    Result<Vec<CssViolation>, LintError>)
    requires
        pats.wf(),
    ensures
        match r {
            Ok(v) => css_line_ok(inside, line@) && css_violations_view(v@) == css_line_violations(
                path@,
                lineno as nat,
                inside,
                line@,
            ),
            Err(e) => !css_line_ok(inside, line@) && (e is MissingGroup || e is IrregularNumber),
        },
{
    let t = trimmed(line);
    let ts = t.as_str();
    let mut out: Vec<CssViolation> = Vec::new();
    if inside || opens_block(ts) || starts_with_str(ts, "//") || starts_with_str(ts, "/*")
        || starts_with_str(ts, "*") || starts_with_str(ts, "--") || contains_str(line, "loom-allow:")
        || contains_str(line, "var(--loom-") {
        assert(css_violations_view(out@) =~= Seq::empty());
        return Ok(out);
    }
    let colour = is_match(&pats.hex, line) || is_match(&pats.rgb, line);
    let caps = captures(&pats.spacing, line);
    let micro = is_match(&pats.micro, ts);
    css_findings_given(path, lineno, line, colour, &caps, micro)
}

/// The findings of line `lineno` (1-indexed) of `path`, a line that is
/// not exempt, given whether a colour pattern matched it (`colour`), its
/// spacing matches (`caps`, each as its capture groups: group 1 the
/// number, group 2 the unit) and whether the trimmed line is a
/// border-like declaration (`micro`); see [`findings_given`]. An error
/// when a spacing match read before the first length at or above its
/// floor lacks a group or holds an irregular number.
pub fn css_findings_given(
    path: &str,
    lineno: usize,
    line: &str,
    colour: bool,
    caps: &Vec<Vec<Option<String>>>,
    micro: bool,
) -> (r: Result<Vec<CssViolation>, LintError>)
    ensures
        match r {
            Ok(v) => all_below_floor(captures_view(caps@)) is Some && css_violations_view(v@)
                == findings_given(path@, lineno as nat, line@, colour, captures_view(caps@), micro),
            Err(e) => all_below_floor(captures_view(caps@)) is None && (e is MissingGroup
                || e is IrregularNumber),
        },
{
    let t = trimmed(line);
    let ts = t.as_str();
    let mut out: Vec<CssViolation> = Vec::new();
    let ghost path_v = path@;
    let ghost shown = css_display(line@);
    if colour {
        out.push(
            CssViolation {
                path: owned(path),
                line: lineno,
                kind: CssViolationKind::RawColour,
                matched: shown_line(ts),
            },
        );
    }
    let ghost colour_part = css_violations_view(out@);
    assert(colour_part =~= (if colour {
        seq![(path_v, lineno as nat, CssViolationKind::RawColour, shown)]
    } else {
        Seq::empty()
    }));
    let ghost cv = captures_view(caps@);
    assert(cv.len() == caps@.len());
    let all_below = match scan_spacing(caps, path, lineno) {
        Ok(b) => b,
        Err(e) => return Err(e),
    };
    if caps.len() > 0 && !micro && !all_below {
        out.push(
            CssViolation {
                path: owned(path),
                line: lineno,
                kind: CssViolationKind::RawSpacing,
                matched: shown_line(ts),
            },
        );
        assert(css_violations_view(out@) =~= colour_part + seq![
            (path_v, lineno as nat, CssViolationKind::RawSpacing, shown),
        ]);
    } else {
        assert(colour_part + Seq::empty() =~= colour_part);
    }
    Ok(out)
}

/// The violations of one CSS file: its lines, linted in order while the
/// token-block state is carried from line to line.
pub fn lint_css_file(path: &str, content: &str, pats: &CssPatterns) -> (r: Result<
    Vec<CssViolation>,
    LintError,
>)
    requires
        pats.wf(),
    ensures
        match r {
            Ok(v) => css_file_ok(content@) && css_violations_view(v@) == css_lines_violations(
                path@,
                lines_of(content@),
            ),
            Err(e) => !css_file_ok(content@) && (e is MissingGroup || e is IrregularNumber),
        },
{
    let v = chars_of(content);
    let mut out: Vec<CssViolation> = Vec::new();
    let mut cur: Vec<char> = Vec::new();
    let mut n: usize = 0;
    let mut inside = false;
    let mut depth: usize = 0;
    let mut i: usize = 0;
    assert(v@.take(0) =~= Seq::<char>::empty());
    while i < v.len()
        invariant
            i <= v@.len(),
            v@ == content@,
            pats.wf(),
            lines_state(v@.take(i as int)).1 == cur@,
            n == lines_state(v@.take(i as int)).0.len(),
            n + cur@.len() <= i,
            depth + cur@.len() <= i,
            (inside, depth as nat) == css_state(lines_state(v@.take(i as int)).0),
            css_violations_view(out@) == css_lines_violations(path@, lines_state(v@.take(i as int)).0),
            forall|k: int|
                0 <= k < n ==> css_line_ok(
                    css_state(lines_state(v@.take(i as int)).0.take(k)).0,
                    #[trigger] lines_state(v@.take(i as int)).0[k],
                ),
        decreases v.len() - i,
    {
        let ghost done = lines_state(v@.take(i as int)).0;
        assert(v@.take(i + 1).drop_last() =~= v@.take(i as int));
        let c = v[i];
        if c == '\n' {
            let end = if cur.len() > 0 && cur[cur.len() - 1] == '\r' {
                cur.len() - 1
            } else {
                cur.len()
            };
            let ghost line_v = cur@.subrange(0, end as int);
            proof {
                if cur@.len() > 0 && cur@.last() == '\r' {
                    assert(line_v =~= cur@.drop_last());
                } else {
                    assert(line_v =~= cur@);
                }
            }
            let line = string_from_range(&cur, 0, end);
            let ghost next = done.push(line_v);
            assert(next == lines_state(v@.take(i + 1)).0);
            assert(next.drop_last() =~= done);
            assert(next.take(n as int) =~= done);
            match lint_css_line(path, n + 1, line.as_str(), inside, pats) {
                Err(e) => {
                    proof {
                        lines_state_prefix(v@, i + 1);
                        assert(lines_of(content@)[n as int] == line_v);
                        assert(lines_of(content@).take(n as int) =~= done);
                    }
                    return Err(e);
                },
                Ok(mut found) => {
                    let ghost before = out@;
                    let ghost fv = found@;
                    out.append(&mut found);
                    assert(css_violations_view(out@) =~= css_violations_view(before)
                        + css_violations_view(fv));
                },
            }
            let t = trimmed(line.as_str());
            let (ni, nd) = block_step(line.as_str(), t.as_str(), inside, depth);
            inside = ni;
            depth = nd;
            proof {
                assert forall|k: int| 0 <= k < n + 1 implies css_line_ok(
                    css_state(next.take(k)).0,
                    #[trigger] next[k],
                ) by {
                    if k < n {
                        assert(next.take(k) =~= done.take(k));
                    }
                }
            }
            n = n + 1;
            cur = Vec::new();
        } else {
            cur.push(c);
        }
        i = i + 1;
    }
    assert(v@.take(i as int) =~= v@);
    let ghost done = lines_state(v@).0;
    if cur.len() > 0 {
        let line = string_from_range(&cur, 0, cur.len());
        assert(cur@.subrange(0, cur@.len() as int) =~= cur@);
        let ghost all = done.push(cur@);
        assert(lines_of(content@) == all);
        assert(all.drop_last() =~= done);
        assert(all.take(n as int) =~= done);
        match lint_css_line(path, n + 1, line.as_str(), inside, pats) {
            Err(e) => {
                assert(lines_of(content@)[n as int] == cur@);
                assert(lines_of(content@).take(n as int) =~= done);
                return Err(e);
            },
            Ok(mut found) => {
                let ghost before = out@;
                let ghost fv = found@;
                out.append(&mut found);
                assert(css_violations_view(out@) =~= css_violations_view(before) + css_violations_view(
                    fv,
                ));
            },
        }
        assert forall|k: int| 0 <= k < n + 1 implies css_line_ok(
            css_state(all.take(k)).0,
            #[trigger] all[k],
        ) by {
            if k < n {
                assert(all.take(k) =~= done.take(k));
            }
        }
    }
    Ok(out)
}


/// Path parts that mark a token source or a generated bundle, never
/// linted.
pub open spec fn css_token_source_hints() -> Seq<&'static str> {
    seq!["loom-tokens", "tokens.css", "design-tokens", "/static/loom", "/static/index-"]
}

/// A CSS file is linted when its name ends in `.css` or `.scss`, it is
/// under no `/target/`, `/node_modules/` or `/dist/` directory, and
/// neither a token-source hint nor an entry of `extra` occurs in its
/// path.
pub open spec fn css_file_linted(path: Seq<char>, extra: Seq<&str>) -> bool {
    &&& has_extension(path, "css"@) || has_extension(path, "scss"@)
    &&& !contains_seq(path, "/target/"@)
    &&& !contains_seq(path, "/node_modules/"@)
    &&& !contains_seq(path, "/dist/"@)
    &&& !contains_any(path, css_token_source_hints())
    &&& !contains_any(path, extra)
}

/// Whether the file at `path` is linted with the extra allowlist `extra`.
pub fn css_file_is_linted(path: &str, extra: &[&str]) -> (r: bool)
    ensures
        r == css_file_linted(path@, extra@),
{
    let hints: [&str; 5] = [
        "loom-tokens",
        "tokens.css",
        "design-tokens",
        "/static/loom",
        "/static/index-",
    ];
    assert(hints@ =~= css_token_source_hints());
    (path_has_extension(path, "css") || path_has_extension(path, "scss")) && !contains_str(
        path,
        "/target/",
    ) && !contains_str(path, "/node_modules/") && !contains_str(path, "/dist/")
        && !path_contains_any(path, &hints) && !path_contains_any(path, extra)
}

/// The CSS violations of a set of files, in order: those of the linted
/// files.
pub open spec fn css_run_violations(files: Seq<(Seq<char>, Seq<char>)>, extra: Seq<&str>) -> Seq<
    (Seq<char>, nat, CssViolationKind, Seq<char>),
>
    decreases files.len(),
{
    if files.len() == 0 {
        Seq::empty()
    } else {
        let (path, content) = files.last();
        css_run_violations(files.drop_last(), extra) + if css_file_linted(path, extra) {
            css_lines_violations(path, lines_of(content))
        } else {
            Seq::empty()
        }
    }
}

/// Every linted file can be linted line by line.
pub open spec fn css_run_ok(files: Seq<(Seq<char>, Seq<char>)>, extra: Seq<&str>) -> bool {
    forall|i: int|
        0 <= i < files.len() && css_file_linted(files[i].0, extra) ==> css_file_ok(
            #[trigger] files[i].1,
        )
}

/// Lint the CSS of `files` (path and text of every file found, in walk
/// order) with the extra allowlist `extra`: the violations of the files
/// that are linted.
pub fn run_css(files: &Vec<(String, String)>, extra: &[&str]) -> (r: Result<Vec<CssViolation>, LintError>)
    ensures
        match r {
            Ok(v) => css_sources_compile() && css_run_ok(
                files@.map_values(|f: (String, String)| file_view(f)),
                extra@,
            ) && css_violations_view(v@) == css_run_violations(
                files@.map_values(|f: (String, String)| file_view(f)),
                extra@,
            ),
            Err(LintError::Pattern(_)) => !css_sources_compile(),
            Err(e) => (e is MissingGroup || e is IrregularNumber) && css_sources_compile()
                && !css_run_ok(files@.map_values(|f: (String, String)| file_view(f)), extra@),
        },
{
    let pats = match css_patterns() {
        Ok(p) => p,
        Err(e) => return Err(e),
    };
    let ghost fv = files@.map_values(|f: (String, String)| file_view(f));
    let mut out: Vec<CssViolation> = Vec::new();
    let mut i: usize = 0;
    while i < files.len()
        invariant
            css_sources_compile(),
            i <= files@.len(),
            pats.wf(),
            fv == files@.map_values(|f: (String, String)| file_view(f)),
            css_violations_view(out@) == css_run_violations(fv.take(i as int), extra@),
            css_run_ok(fv.take(i as int), extra@),
        decreases files.len() - i,
    {
        let (path, content) = (&files[i].0, &files[i].1);
        assert(fv.take(i + 1).drop_last() =~= fv.take(i as int));
        assert(fv[i as int] == (path@, content@));
        if css_file_is_linted(path.as_str(), extra) {
            match lint_css_file(path.as_str(), content.as_str(), &pats) {
                Ok(mut found) => {
                    let ghost before = out@;
                    let ghost fnd = found@;
                    out.append(&mut found);
                    assert(css_violations_view(out@) =~= css_violations_view(before)
                        + css_violations_view(fnd));
                },
                Err(e) => {
                    assert(!css_file_ok(fv[i as int].1));
                    return Err(e);
                },
            }
        } else {
            assert(css_run_violations(fv.take(i + 1), extra@) =~= css_run_violations(
                fv.take(i as int),
                extra@,
            ));
        }
        assert forall|k: int|
            0 <= k < fv.take(i + 1).len() && css_file_linted(fv.take(i + 1)[k].0, extra@)
                implies css_file_ok(#[trigger] fv.take(i + 1)[k].1) by {
            if k < i {
                assert(fv.take(i + 1)[k] == fv.take(i as int)[k]);
            }
        }
        i = i + 1;
    }
    assert(fv.take(i as int) =~= fv);
    Ok(out)
}

/// The default extra allowlist of the CSS lint: snapshot files.
pub open spec fn css_default_allowlist() -> Seq<&'static str> {
    seq!["/snapshots/"]
}

/// [`run_css`] with the default extra allowlist.
pub fn run_css_default(files: &Vec<(String, String)>) -> (r: Result<Vec<CssViolation>, LintError>)
    ensures
        match r {
            Ok(v) => css_sources_compile() && css_run_ok(
                files@.map_values(|f: (String, String)| file_view(f)),
                css_default_allowlist(),
            ) && css_violations_view(v@) == css_run_violations(
                files@.map_values(|f: (String, String)| file_view(f)),
                css_default_allowlist(),
            ),
            Err(LintError::Pattern(_)) => !css_sources_compile(),
            Err(e) => (e is MissingGroup || e is IrregularNumber) && css_sources_compile()
                && !css_run_ok(
                files@.map_values(|f: (String, String)| file_view(f)),
                css_default_allowlist(),
            ),
        },
{
    let allow = css_default_allowlist_entries();
    run_css(files, allow.as_slice())
}

/// The default extra allowlist of the CSS lint (see
/// [`css_default_allowlist`]).
pub fn css_default_allowlist_entries() -> (r: Vec<&'static str>)
    ensures
        r@ == css_default_allowlist(),
{
    let mut v: Vec<&'static str> = Vec::new();
    v.push("/snapshots/");
    assert(v@ =~= css_default_allowlist());
    v
}


// ------------------------------------------------------------------
// Laws
// ------------------------------------------------------------------

/// A line yields at most two violations, a colour one before a spacing
/// one, each carrying the file's path and the line's number.
pub proof fn css_line_violations_shape(path: Seq<char>, lineno: nat, inside: bool, line: Seq<char>)
    ensures
        css_line_violations(path, lineno, inside, line).len() <= 2,
        forall|k: int|
            0 <= k < css_line_violations(path, lineno, inside, line).len() ==> {
                let v = #[trigger] css_line_violations(path, lineno, inside, line)[k];
                v.0 == path && v.1 == lineno
            },
        css_line_violations(path, lineno, inside, line).len() == 2 ==> css_line_violations(
            path,
            lineno,
            inside,
            line,
        )[0].2 == CssViolationKind::RawColour && css_line_violations(path, lineno, inside, line)[1].2
            == CssViolationKind::RawSpacing,
{
}

/// The violations of a file carry its path and line numbers from 1 to
/// its number of lines, in order.
pub proof fn css_violations_in_line_order(path: Seq<char>, lines: Seq<Seq<char>>)
    ensures
        forall|k: int|
            0 <= k < css_lines_violations(path, lines).len() ==> {
                let v = #[trigger] css_lines_violations(path, lines)[k];
                v.0 == path && 1 <= v.1 <= lines.len()
            },
        forall|i: int, j: int|
            0 <= i < j < css_lines_violations(path, lines).len() ==> (#[trigger] css_lines_violations(
                path,
                lines,
            )[i]).1 <= (#[trigger] css_lines_violations(path, lines)[j]).1,
    decreases lines.len(),
{
    if lines.len() > 0 {
        let prev = lines.drop_last();
        css_violations_in_line_order(path, prev);
        css_line_violations_shape(path, lines.len(), css_state(prev).0, lines.last());
        let a = css_lines_violations(path, prev);
        let b = css_line_violations(path, lines.len(), css_state(prev).0, lines.last());
        assert(css_lines_violations(path, lines) == a + b);
        assert forall|k: int| 0 <= k < (a + b).len() implies {
            let v = #[trigger] (a + b)[k];
            v.0 == path && 1 <= v.1 <= lines.len()
        } by {
            if k < a.len() {
                assert((a + b)[k] == a[k]);
            } else {
                assert((a + b)[k] == b[k - a.len()]);
            }
        }
        assert forall|i: int, j: int| 0 <= i < j < (a + b).len() implies (#[trigger] (a + b)[i]).1
            <= (#[trigger] (a + b)[j]).1 by {
            if j < a.len() {
                assert((a + b)[i] == a[i]);
                assert((a + b)[j] == a[j]);
            } else if i < a.len() {
                assert((a + b)[i] == a[i]);
                assert((a + b)[j] == b[j - a.len()]);
            } else {
                assert((a + b)[i] == b[i - a.len()]);
                assert((a + b)[j] == b[j - a.len()]);
            }
        }
    }
}

/// A line carrying the `loom-allow:` marker, or using a loom variable,
/// yields no violation, whatever the block state.
pub proof fn css_opted_out_lines_are_silent(path: Seq<char>, lineno: nat, inside: bool, line: Seq<char>)
    requires
        contains_seq(line, "loom-allow:"@) || contains_seq(line, "var(--loom-"@),
    ensures
        css_line_violations(path, lineno, inside, line) == Seq::<
            (Seq<char>, nat, CssViolationKind, Seq<char>),
        >::empty(),
{
}

/// Lines inside a token block, and the line opening one, yield no
/// violation.
pub proof fn css_token_block_lines_are_silent(path: Seq<char>, lines: Seq<Seq<char>>, i: int)
    requires
        0 <= i < lines.len(),
        css_state(lines.take(i)).0 || opens_token_block(trim(lines[i])),
    ensures
        css_line_violations(path, (i + 1) as nat, css_state(lines.take(i)).0, lines[i]) == Seq::<
            (Seq<char>, nat, CssViolationKind, Seq<char>),
        >::empty(),
{
}

/// Files whose paths hold a token-source hint report nothing, whatever
/// they contain.
pub proof fn css_token_sources_report_nothing(files: Seq<(Seq<char>, Seq<char>)>, extra: Seq<&str>)
    requires
        forall|i: int| 0 <= i < files.len() ==> contains_any(#[trigger] files[i].0, css_token_source_hints()),
    ensures
        css_run_violations(files, extra) == Seq::<(Seq<char>, nat, CssViolationKind, Seq<char>)>::empty(),
    decreases files.len(),
{
    if files.len() > 0 {
        let prev = files.drop_last();
        assert forall|i: int| 0 <= i < prev.len() implies contains_any(
            #[trigger] prev[i].0,
            css_token_source_hints(),
        ) by {
            assert(prev[i] == files[i]);
        }
        css_token_sources_report_nothing(prev, extra);
        assert(contains_any(files[files.len() - 1].0, css_token_source_hints()));
        assert(css_run_violations(files, extra) =~= Seq::<
            (Seq<char>, nat, CssViolationKind, Seq<char>),
        >::empty());
    }
}

} // verus!
