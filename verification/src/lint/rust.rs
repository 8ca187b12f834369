//! The Rust lint: a double-quoted literal of 8 to 500 characters (no
//! quote, no newline) that holds at least two Tailwind-utility-shaped
//! tokens is a violation, outside the allowlisted paths, unless its line
//! carries a `// loom-allow:` marker followed by a reason.

use vstd::prelude::*;
use crate::lint::pattern::{
    captures, captures_view, compile, groups_view, is_match, regex_captures, regex_compiles,
    regex_is_match, Pattern,
};
use crate::tokens::stock_photos::last_dot;
use crate::text::{
    chars_eq, chars_of, contains_seq, contains_str, find_next, first_from, is_whitespace, is_ws,
    lines_of, lines_state, lines_state_prefix, owned, push_char, push_str, string_from_range,
    tokens_state, trim, trim_bounds, ws_tokens,
};

verus! {

/// One violation.
#[derive(Debug, Clone)]
pub struct Violation {
    /// File the violation was found in.
    pub path: String,
    /// 1-indexed line number.
    pub line: usize,
    /// The offending class string, cut to its first 117 characters plus
    /// `...` when it is longer than 120 characters.
    pub class_string: String,
}

/// Why a lint run stopped.
#[derive(Debug, Clone, PartialEq, Eq)]
pub enum LintError {
    /// A pattern did not compile; the payload names it.
    Pattern(&'static str),
    /// A match lacked a capture group the lint reads.
    MissingGroup {
        /// File being linted.
        path: String,
        /// 1-indexed line number.
        line: usize,
    },
    /// A spacing number was neither ASCII `digits[.digits]` nor non-ASCII.
    IrregularNumber {
        /// File being linted.
        path: String,
        /// 1-indexed line number.
        line: usize,
    },
}

/// A double-quoted literal of 8 to 500 non-quote, non-newline characters.
pub open spec fn class_source() -> &'static str {
    r#""([^"\n]{8,500})""#
}

/// A token shaped like a Tailwind utility: a layout keyword, a
/// prefix-dash-value utility, or a state/breakpoint-prefixed utility.
pub open spec fn utility_source() -> &'static str {
    r"^(?:[a-z]{1,4}:)?(?:flex|grid|hidden|block|relative|absolute|fixed|sticky|static)$|^(?:[a-z]{1,4}:)?(?:p|m|px|py|pt|pb|pl|pr|mx|my|mt|mb|ml|mr|gap|space|w|h|top|left|right|bottom|bg|text|border|ring|shadow|rounded|font|leading|tracking)-[A-Za-z0-9/._-]+$|^(?:hover|focus|active|focus-visible|group-hover|sm|md|lg|xl):[A-Za-z0-9/._:-]+$"
}

/// The per-line opt-out marker.
pub open spec fn allow_marker() -> Seq<char> {
    "// loom-allow:"@
}

/// The two patterns of the Rust lint, compiled.
pub struct RustPatterns {
    /// Class-literal pattern.
    pub class: Pattern,
    /// Utility-token pattern.
    pub utility: Pattern,
}

impl RustPatterns {
    /// The patterns were compiled from the lint's sources.
    pub open spec fn wf(self) -> bool {
        self.class.source() == class_source()@ && self.utility.source() == utility_source()@
    }
}

/// Both sources of the Rust lint compile.
pub open spec fn rust_sources_compile() -> bool {
    regex_compiles(class_source()@) && regex_compiles(utility_source()@)
}

/// Compile the Rust lint's patterns; the first source that does not
/// compile names the error.
pub fn rust_patterns() -> (r: Result<RustPatterns, LintError>)
    ensures
        r is Ok <==> rust_sources_compile(),
        r matches Ok(p) ==> p.wf(),
        r matches Err(e) ==> (e == LintError::Pattern("class regex compile") && !regex_compiles(
            class_source()@,
        )) || (e == LintError::Pattern("token regex compile") && regex_compiles(class_source()@)
            && !regex_compiles(utility_source()@)),
{
    let class = match compile(r#""([^"\n]{8,500})""#) {
        Ok(p) => p,
        Err(_) => return Err(LintError::Pattern("class regex compile")),
    };
    let utility = match compile(
        r"^(?:[a-z]{1,4}:)?(?:flex|grid|hidden|block|relative|absolute|fixed|sticky|static)$|^(?:[a-z]{1,4}:)?(?:p|m|px|py|pt|pb|pl|pr|mx|my|mt|mb|ml|mr|gap|space|w|h|top|left|right|bottom|bg|text|border|ring|shadow|rounded|font|leading|tracking)-[A-Za-z0-9/._-]+$|^(?:hover|focus|active|focus-visible|group-hover|sm|md|lg|xl):[A-Za-z0-9/._:-]+$",
    ) {
        Ok(p) => p,
        Err(_) => return Err(LintError::Pattern("token regex compile")),
    };
    Ok(RustPatterns { class, utility })
}

/// How many of `tokens` match the utility pattern.
pub open spec fn utility_count(tokens: Seq<Seq<char>>) -> nat
    decreases tokens.len(),
{
    if tokens.len() == 0 {
        0
    } else {
        utility_count(tokens.drop_last()) + if regex_is_match(utility_source()@, tokens.last()) {
            1nat
        } else {
            0nat
        }
    }
}

/// A class string is flagged when at least two of its whitespace-separated
/// tokens look like utilities.
pub open spec fn flagged(s: Seq<char>) -> bool {
    utility_count(ws_tokens(s)) >= 2
}

/// How a class string is shown: whole up to 120 characters, otherwise
/// its first 117 characters and `...`.
pub open spec fn class_display(s: Seq<char>) -> Seq<char> {
    if s.len() > 120 {
        s.take(117) + "..."@
    } else {
        s
    }
}

/// The class string a match captured (group 1).
pub open spec fn capture_text(m: Seq<Option<Seq<char>>>) -> Option<Seq<char>> {
    if m.len() > 1 {
        m[1]
    } else {
        None
    }
}

/// A match can be reported: it has its group.
pub open spec fn capture_ok(m: Seq<Option<Seq<char>>>) -> bool {
    capture_text(m) is Some
}

/// A line opts out: after the first `// loom-allow:` on it comes a
/// non-blank reason. A marker with an empty reason does not opt out.
pub open spec fn allowed_line(line: Seq<char>) -> bool {
    match first_from(line, allow_marker(), 0) {
        Some(i) => trim(line.skip((i + allow_marker().len()) as int)).len() > 0,
        None => false,
    }
}

/// Every class literal of `line` can be reported (lines that opt out are
/// skipped whole).
pub open spec fn rust_line_ok(line: Seq<char>) -> bool {
    !allowed_line(line) ==> forall|i: int|
        0 <= i < regex_captures(class_source()@, line).len() ==> capture_ok(
            #[trigger] regex_captures(class_source()@, line)[i],
        )
}

/// What the flagged class literals among `caps` show, in order.
pub open spec fn flagged_displays(caps: Seq<Seq<Option<Seq<char>>>>) -> Seq<Seq<char>>
    decreases caps.len(),
{
    if caps.len() == 0 {
        Seq::empty()
    } else {
        let rest = flagged_displays(caps.drop_last());
        let text = capture_text(caps.last())->0;
        if flagged(text) {
            rest.push(class_display(text))
        } else {
            rest
        }
    }
}

/// What the class literals among `caps` show whose utility-token count in
/// `counts` (one per match) is at least two, in order.
pub open spec fn displays_given(caps: Seq<Seq<Option<Seq<char>>>>, counts: Seq<usize>) -> Seq<
    Seq<char>,
>
    decreases caps.len(),
{
    if caps.len() == 0 {
        Seq::empty()
    } else {
        let rest = displays_given(caps.drop_last(), counts.drop_last());
        if counts.last() >= 2 {
            rest.push(class_display(capture_text(caps.last())->0))
        } else {
            rest
        }
    }
}

/// A violation as `(path, line, class string)`.
pub open spec fn violation_view(v: Violation) -> (Seq<char>, nat, Seq<char>) {
    (v.path@, v.line as nat, v.class_string@)
}

/// Violations as views.
pub open spec fn violations_view(vs: Seq<Violation>) -> Seq<(Seq<char>, nat, Seq<char>)> {
    vs.map_values(|v: Violation| violation_view(v))
}

/// The violations of line number `lineno` (1-indexed) of `path`.
pub open spec fn rust_line_violations(path: Seq<char>, lineno: nat, line: Seq<char>) -> Seq<
    (Seq<char>, nat, Seq<char>),
> {
    if allowed_line(line) {
        Seq::empty()
    } else {
        flagged_displays(regex_captures(class_source()@, line)).map_values(
            |d: Seq<char>| (path, lineno, d),
        )
    }
}

/// The violations of a run of lines, numbered from 1.
pub open spec fn rust_lines_violations(path: Seq<char>, lines: Seq<Seq<char>>) -> Seq<
    (Seq<char>, nat, Seq<char>),
>
    decreases lines.len(),
{
    if lines.len() == 0 {
        Seq::empty()
    } else {
        rust_lines_violations(path, lines.drop_last()) + rust_line_violations(
            path,
            lines.len(),
            lines.last(),
        )
    }
}

/// Every line of `content` can be reported.
pub open spec fn rust_file_ok(content: Seq<char>) -> bool {
    forall|i: int| 0 <= i < lines_of(content).len() ==> rust_line_ok(#[trigger] lines_of(content)[i])
}

/// How a class string is shown (see [`class_display`]).
pub fn display_class(s: &str) -> (r: String)
    ensures
        r@ == class_display(s@),
{
    let v = chars_of(s);
    if v.len() > 120 {
        let mut out = string_from_range(&v, 0, 117);
        push_str(&mut out, "...");
        assert(v@.subrange(0, 117) =~= s@.take(117));
        out
    } else {
        owned(s)
    }
}

/// Count the utility-shaped tokens of `s`.
fn count_utilities(s: &str, pats: &RustPatterns) -> (r: usize)
    requires
        pats.wf(),
    ensures
        r == utility_count(ws_tokens(s@)),
{
    let v = chars_of(s);
    let mut count: usize = 0;
    let mut cur = String::new();
    let mut i: usize = 0;
    assert(v@.take(0) =~= Seq::<char>::empty());
    while i < v.len()
        invariant
            i <= v@.len(),
            pats.wf(),
            tokens_state(v@.take(i as int)).1 == cur@,
            count == utility_count(tokens_state(v@.take(i as int)).0),
            count + cur@.len() <= i,
        decreases v.len() - i,
    {
        let c = v[i];
        assert(v@.take(i + 1).drop_last() =~= v@.take(i as int));
        if is_whitespace(c) {
            if !cur.as_str().is_empty() {
                assert(cur@.len() > 0);
                let ghost done = tokens_state(v@.take(i as int)).0;
                if is_match(&pats.utility, cur.as_str()) {
                    count = count + 1;
                }
                assert(done.push(cur@).drop_last() =~= done);
                cur = String::new();
            } else {
                proof {
                    if cur@.len() > 0 {
                        assert(false);
                    }
                }
            }
        } else {
            push_char(&mut cur, c);
        }
        i = i + 1;
    }
    assert(v@.take(i as int) =~= v@);
    if !cur.as_str().is_empty() {
        let ghost done = tokens_state(v@).0;
        assert(done.push(cur@).drop_last() =~= done);
        if is_match(&pats.utility, cur.as_str()) {
            count = count + 1;
        }
    }
    count
}

/// Whether `line` opts out (see [`allowed_line`]).
pub fn is_allowed_line(line: &str) -> (r: bool)
    ensures
        r == allowed_line(line@),
{
    let v = chars_of(line);
    let m = chars_of("// loom-allow:");
    proof {
        reveal_strlit("// loom-allow:");
    }
    assert(v@.skip(0) =~= v@);
    match find_next(&v, &m, 0) {
        None => false,
        Some(abs) => {
            let ml = m.len();
            let vl = v.len();
            assert(abs + ml <= vl);
            let start = abs + ml;
            let (lo, hi) = trim_bounds(&v, start, v.len());
            assert(v@.subrange(start as int, v@.len() as int) =~= v@.skip(
                abs + allow_marker().len(),
            ));
            lo < hi
        },
    }
}

proof fn displays_given_agree(caps: Seq<Seq<Option<Seq<char>>>>, counts: Seq<usize>)
    requires
        caps.len() == counts.len(),
        forall|k: int|
            0 <= k < caps.len() ==> capture_ok(#[trigger] caps[k]) && counts[k] == utility_count(
                ws_tokens(capture_text(caps[k])->0),
            ),
    ensures
        displays_given(caps, counts) == flagged_displays(caps),
    decreases caps.len(),
{
    if caps.len() > 0 {
        let a = caps.drop_last();
        let b = counts.drop_last();
        assert forall|k: int| 0 <= k < a.len() implies capture_ok(#[trigger] a[k]) && b[k]
            == utility_count(ws_tokens(capture_text(a[k])->0)) by {
            assert(a[k] == caps[k]);
        }
        displays_given_agree(a, b);
        assert(capture_ok(caps[caps.len() - 1]));
    }
}

/// The violations of line `lineno` (1-indexed) of `path`, given the
/// class-literal matches of the line (`caps`, each match as its capture
/// groups, group 0 first) and the number of utility-shaped tokens of each
/// match's literal (`counts`): one violation, showing the literal, for
/// each match whose count is at least two. An error when a match lacks
/// group 1.
pub fn class_literal_violations(
    path: &str,
    lineno: usize,
    caps: &Vec<Vec<Option<String>>>,
    counts: &Vec<usize>,
) -> (r: Result<Vec<Violation>, LintError>)
    requires
        caps@.len() == counts@.len(),
    ensures
        match r {
            Ok(v) => (forall|i: int|
                0 <= i < caps@.len() ==> capture_ok(#[trigger] captures_view(caps@)[i]))
                && violations_view(v@) == displays_given(captures_view(caps@), counts@).map_values(
                |d: Seq<char>| (path@, lineno as nat, d),
            ),
            Err(e) => (exists|i: int|
                0 <= i < caps@.len() && !capture_ok(#[trigger] captures_view(caps@)[i]))
                && e is MissingGroup,
        },
{
    let ghost cv = captures_view(caps@);
    let ghost f = |d: Seq<char>| (path@, lineno as nat, d);
    let mut out: Vec<Violation> = Vec::new();
    let mut j: usize = 0;
    while j < caps.len()
        invariant
            j <= caps@.len(),
            caps@.len() == counts@.len(),
            cv == captures_view(caps@),
            f == (|d: Seq<char>| (path@, lineno as nat, d)),
            forall|k: int| 0 <= k < j ==> capture_ok(#[trigger] cv[k]),
            violations_view(out@) == displays_given(cv.take(j as int), counts@.take(j as int)).map_values(f),
        decreases caps.len() - j,
    {
        let m = &caps[j];
        assert(cv[j as int] == groups_view(m@));
        assert(cv.take(j + 1).drop_last() =~= cv.take(j as int));
        assert(counts@.take(j + 1).drop_last() =~= counts@.take(j as int));
        if m.len() < 2 {
            assert(!capture_ok(cv[j as int]));
            return Err(LintError::MissingGroup { path: owned(path), line: lineno });
        }
        match &m[1] {
            None => {
                assert(groups_view(m@)[1] is None);
                return Err(LintError::MissingGroup { path: owned(path), line: lineno });
            },
            Some(text) => {
                assert(capture_text(cv[j as int]) == Some(text@));
                let ghost before = out@;
                if counts[j] >= 2 {
                    let d = display_class(text.as_str());
                    out.push(Violation { path: owned(path), line: lineno, class_string: d });
                    assert(violations_view(out@) =~= violations_view(before).push(
                        (path@, lineno as nat, d@),
                    ));
                    assert(displays_given(cv.take(j + 1), counts@.take(j + 1)).map_values(f)
                        =~= displays_given(cv.take(j as int), counts@.take(j as int)).map_values(
                        f,
                    ).push(f(d@)));
                } else {
                    assert(displays_given(cv.take(j + 1), counts@.take(j + 1)) == displays_given(
                        cv.take(j as int),
                        counts@.take(j as int),
                    ));
                }
            },
        }
        j = j + 1;
    }
    assert(cv.take(j as int) =~= cv);
    assert(counts@.take(j as int) =~= counts@);
    Ok(out)
}

/// The violations of line `lineno` (1-indexed) of `path`.
pub fn lint_rust_line(path: &str, lineno: usize, line: &str, pats: &RustPatterns) -> (r: Result<
    Vec<Violation>,
    LintError,
>)
    requires
        pats.wf(),
    ensures
        match r {
            Ok(v) => rust_line_ok(line@) && violations_view(v@) == rust_line_violations(
                path@,
                lineno as nat,
                line@,
            ),
            Err(e) => !rust_line_ok(line@) && e is MissingGroup,
        },
{
    if is_allowed_line(line) {
        let out: Vec<Violation> = Vec::new();
        assert(violations_view(out@) =~= rust_line_violations(path@, lineno as nat, line@));
        return Ok(out);
    }
    let caps = captures(&pats.class, line);
    let ghost cv = captures_view(caps@);
    let mut counts: Vec<usize> = Vec::new();
    let mut j: usize = 0;
    while j < caps.len()
        invariant
            j <= caps@.len(),
            counts@.len() == j,
            pats.wf(),
            cv == captures_view(caps@),
            forall|k: int|
                0 <= k < j ==> capture_ok(#[trigger] cv[k]) ==> counts@[k] == utility_count(
                    ws_tokens(capture_text(cv[k])->0),
                ),
        decreases caps.len() - j,
    {
        let m = &caps[j];
        assert(cv[j as int] == groups_view(m@));
        let c = if m.len() >= 2 {
            match &m[1] {
                Some(text) => count_utilities(text.as_str(), pats),
                None => 0,
            }
        } else {
            0
        };
        proof {
            if capture_ok(cv[j as int]) {
                assert(capture_text(cv[j as int]) == Some(m@[1]->0@));
            }
        }
        counts.push(c);
        j = j + 1;
    }
    let r = class_literal_violations(path, lineno, &caps, &counts);
    proof {
        if r is Ok {
            displays_given_agree(cv, counts@);
        }
    }
    r
}

/// The violations of one file: its lines, each checked and linted.
pub fn lint_rust_file(path: &str, content: &str, pats: &RustPatterns) -> (r: Result<
    Vec<Violation>,
    LintError,
>)
    requires
        pats.wf(),
    ensures
        match r {
            Ok(v) => rust_file_ok(content@) && violations_view(v@) == rust_lines_violations(
                path@,
                lines_of(content@),
            ),
            Err(e) => !rust_file_ok(content@) && e is MissingGroup,
        },
{
    let v = chars_of(content);
    let mut out: Vec<Violation> = Vec::new();
    let mut cur: Vec<char> = Vec::new();
    let mut n: usize = 0;
    let mut i: usize = 0;
    assert(v@.take(0) =~= Seq::<char>::empty());
    while i < v.len()
        invariant
            i <= v@.len(),
            v@ == content@,
            pats.wf(),
            lines_state(v@.take(i as int)).1 == cur@,
            n == lines_state(v@.take(i as int)).0.len(),
            n + cur@.len() <= i,
            violations_view(out@) == rust_lines_violations(path@, lines_state(v@.take(i as int)).0),
            forall|k: int| 0 <= k < n ==> rust_line_ok(#[trigger] lines_state(v@.take(i as int)).0[k]),
        decreases v.len() - i,
    {
        let ghost done = lines_state(v@.take(i as int)).0;
        assert(v@.take(i + 1).drop_last() =~= v@.take(i as int));
        let c = v[i];
        if c == '\n' {
            let end = if cur.len() > 0 && cur[cur.len() - 1] == '\r' {
                cur.len() - 1
            } else {
                cur.len()
            };
            let ghost line_v = cur@.subrange(0, end as int);
            proof {
                if cur@.len() > 0 && cur@.last() == '\r' {
                    assert(line_v =~= cur@.drop_last());
                } else {
                    assert(line_v =~= cur@);
                }
            }
            let line = string_from_range(&cur, 0, end);
            let mut found = match lint_rust_line(path, n + 1, line.as_str(), pats) {
                Err(e) => {
                    proof {
                        assert(done.push(line_v) == lines_state(v@.take(i + 1)).0);
                        lines_state_prefix(v@, i + 1);
                        assert(lines_of(content@)[n as int] == line_v);
                    }
                    return Err(e);
                },
                Ok(found) => found,
            };
            let ghost before = out@;
            let ghost fv = found@;
            out.append(&mut found);
            proof {
                assert(done.push(line_v).drop_last() =~= done);
                assert(violations_view(out@) =~= violations_view(before) + violations_view(fv));
            }
            n = n + 1;
            cur = Vec::new();
        } else {
            cur.push(c);
        }
        i = i + 1;
    }
    assert(v@.take(i as int) =~= v@);
    let ghost done = lines_state(v@).0;
    if cur.len() > 0 {
        let line = string_from_range(&cur, 0, cur.len());
        assert(cur@.subrange(0, cur@.len() as int) =~= cur@);
        let mut found = match lint_rust_line(path, n + 1, line.as_str(), pats) {
            Err(e) => {
                assert(lines_of(content@) == done.push(cur@));
                assert(lines_of(content@)[n as int] == cur@);
                return Err(e);
            },
            Ok(found) => found,
        };
        let ghost before = out@;
        let ghost fv = found@;
        out.append(&mut found);
        proof {
            assert(lines_of(content@) == done.push(cur@));
            assert(done.push(cur@).drop_last() =~= done);
            assert(violations_view(out@) =~= violations_view(before) + violations_view(fv));
        }
    }
    Ok(out)
}

/// Index of the last `/` in `s`.
pub open spec fn last_slash(s: Seq<char>) -> Option<int>
    decreases s.len(),
{
    if s.len() == 0 {
        None
    } else if s.last() == '/' {
        Some(s.len() - 1)
    } else {
        last_slash(s.drop_last())
    }
}

/// The last component of a path.
pub open spec fn path_file_name(p: Seq<char>) -> Seq<char> {
    match last_slash(p) {
        Some(i) => p.skip(i + 1),
        None => p,
    }
}

/// The path's file name has extension `ext` (`Path::extension`): the text
/// after its last `.`, where that dot is not the name's first character.
pub open spec fn has_extension(p: Seq<char>, ext: Seq<char>) -> bool {
    let name = path_file_name(p);
    match last_dot(name) {
        Some(d) => d > 0 && name.skip(d + 1) == ext,
        None => false,
    }
}

/// Some entry of `list` occurs in `path`.
pub open spec fn contains_any(path: Seq<char>, list: Seq<&str>) -> bool {
    exists|i: int| 0 <= i < list.len() && contains_seq(path, #[trigger] list[i]@)
}

fn last_index_of(v: &Vec<char>, c: char) -> (r: Option<usize>)
    ensures
        match r {
            Some(i) => i < v.len() && v@[i as int] == c && forall|j: int| i < j < v@.len() ==> v@[j] != c,
            None => forall|j: int| 0 <= j < v@.len() ==> v@[j] != c,
        },
{
    let mut k = v.len();
    while k > 0
        invariant
            k <= v@.len(),
            forall|j: int| k <= j < v@.len() ==> v@[j] != c,
        decreases k,
    {
        if v[k - 1] == c {
            return Some(k - 1);
        }
        k = k - 1;
    }
    None
}

proof fn last_char_spec(s: Seq<char>, c: char, i: int)
    requires
        0 <= i < s.len(),
        s[i] == c,
        forall|j: int| i < j < s.len() ==> s[j] != c,
    ensures
        c == '/' ==> last_slash(s) == Some(i),
        c == '.' ==> last_dot(s) == Some(i),
    decreases s.len(),
{
    if i < s.len() - 1 {
        last_char_spec(s.drop_last(), c, i);
    }
}

proof fn last_char_none(s: Seq<char>, c: char)
    requires
        forall|j: int| 0 <= j < s.len() ==> s[j] != c,
    ensures
        c == '/' ==> last_slash(s) is None,
        c == '.' ==> last_dot(s) is None,
    decreases s.len(),
{
    if s.len() > 0 {
        last_char_none(s.drop_last(), c);
    }
}

/// Whether the file name of `path` has extension `ext`.
pub fn path_has_extension(path: &str, ext: &str) -> (r: bool)
    ensures
        r == has_extension(path@, ext@),
{
    let v = chars_of(path);
    let start = match last_index_of(&v, '/') {
        Some(i) => {
            proof {
                last_char_spec(v@, '/', i as int);
            }
            i + 1
        },
        None => {
            proof {
                last_char_none(v@, '/');
            }
            0
        },
    };
    assert(start == 0 ==> v@.skip(0) =~= v@);
    let name = chars_range(&v, start, v.len());
    assert(name@ == path_file_name(path@));
    match last_index_of(&name, '.') {
        Some(d) => {
            proof {
                last_char_spec(name@, '.', d as int);
            }
            if d == 0 {
                return false;
            }
            let e = chars_of(ext);
            let tail = chars_range(&name, d + 1, name.len());
            assert(name@.skip(d + 1) =~= tail@);
            chars_eq(&tail, &e)
        },
        None => {
            proof {
                last_char_none(name@, '.');
            }
            false
        },
    }
}

fn chars_range(v: &Vec<char>, lo: usize, hi: usize) -> (r: Vec<char>)
    requires
        lo <= hi <= v@.len(),
    ensures
        r@ == v@.subrange(lo as int, hi as int),
        hi == v@.len() ==> r@ == v@.skip(lo as int),
{
    let mut r: Vec<char> = Vec::new();
    let mut i = lo;
    while i < hi
        invariant
            lo <= i <= hi <= v@.len(),
            r@ == v@.subrange(lo as int, i as int),
        decreases hi - i,
    {
        r.push(v[i]);
        assert(v@.subrange(lo as int, i + 1) =~= v@.subrange(lo as int, i as int).push(v@[i as int]));
        i = i + 1;
    }
    r
}

/// Whether some entry of `list` occurs in `path`.
pub fn path_contains_any(path: &str, list: &[&str]) -> (r: bool)
    ensures
        r == contains_any(path@, list@),
{
    let mut i: usize = 0;
    while i < list.len()
        invariant
            i <= list@.len(),
            forall|k: int| 0 <= k < i ==> !contains_seq(path@, #[trigger] list@[k]@),
        decreases list.len() - i,
    {
        if contains_str(path, list[i]) {
            return true;
        }
        i = i + 1;
    }
    false
}

/// A Rust file is linted when its name ends in `.rs`, no allowlist entry
/// occurs in its path, and it is under no `/target/` or `/tests/`
/// directory.
pub open spec fn rust_file_linted(path: Seq<char>, allow: Seq<&str>) -> bool {
    &&& has_extension(path, "rs"@)
    &&& !contains_any(path, allow)
    &&& !contains_seq(path, "/target/"@)
    &&& !contains_seq(path, "/tests/"@)
}

/// Whether the file at `path` is linted under `allowlist`.
pub fn rust_file_is_linted(path: &str, allowlist: &[&str]) -> (r: bool)
    ensures
        r == rust_file_linted(path@, allowlist@),
{
    path_has_extension(path, "rs") && !path_contains_any(path, allowlist) && !contains_str(
        path,
        "/target/",
    ) && !contains_str(path, "/tests/")
}

/// A file as `(path, text)`.
pub open spec fn file_view(f: (String, String)) -> (Seq<char>, Seq<char>) {
    (f.0@, f.1@)
}

/// The violations of a set of files, in order: those of the linted files.
pub open spec fn rust_run_violations(files: Seq<(Seq<char>, Seq<char>)>, allow: Seq<&str>) -> Seq<
    (Seq<char>, nat, Seq<char>),
>
    decreases files.len(),
{
    if files.len() == 0 {
        Seq::empty()
    } else {
        let (path, content) = files.last();
        rust_run_violations(files.drop_last(), allow) + if rust_file_linted(path, allow) {
            rust_lines_violations(path, lines_of(content))
        } else {
            Seq::empty()
        }
    }
}

/// Every linted file can be reported.
pub open spec fn rust_run_ok(files: Seq<(Seq<char>, Seq<char>)>, allow: Seq<&str>) -> bool {
    forall|i: int|
        0 <= i < files.len() && rust_file_linted(files[i].0, allow) ==> rust_file_ok(
            #[trigger] files[i].1,
        )
}

/// Lint `files` (path and text of every file found, in walk order) under
/// `allowlist`: the violations of the files that are linted.
pub fn run(files: &Vec<(String, String)>, allowlist: &[&str]) -> (r: Result<Vec<Violation>, LintError>)
    ensures
        match r {
            Ok(v) => rust_sources_compile() && rust_run_ok(
                files@.map_values(|f: (String, String)| file_view(f)),
                allowlist@,
            ) && violations_view(v@) == rust_run_violations(
                files@.map_values(|f: (String, String)| file_view(f)),
                allowlist@,
            ),
            Err(LintError::Pattern(_)) => !rust_sources_compile(),
            Err(e) => e is MissingGroup && rust_sources_compile() && !rust_run_ok(
                files@.map_values(|f: (String, String)| file_view(f)),
                allowlist@,
            ),
        },
{
    let pats = match rust_patterns() {
        Ok(p) => p,
        Err(e) => return Err(e),
    };
    let ghost fv = files@.map_values(|f: (String, String)| file_view(f));
    let mut out: Vec<Violation> = Vec::new();
    let mut i: usize = 0;
    while i < files.len()
        invariant
            rust_sources_compile(),
            i <= files@.len(),
            pats.wf(),
            fv == files@.map_values(|f: (String, String)| file_view(f)),
            violations_view(out@) == rust_run_violations(fv.take(i as int), allowlist@),
            rust_run_ok(fv.take(i as int), allowlist@),
        decreases files.len() - i,
    {
        let (path, content) = (&files[i].0, &files[i].1);
        assert(fv.take(i + 1).drop_last() =~= fv.take(i as int));
        assert(fv[i as int] == (path@, content@));
        if rust_file_is_linted(path.as_str(), allowlist) {
            match lint_rust_file(path.as_str(), content.as_str(), &pats) {
                Ok(mut found) => {
                    let ghost before = out@;
                    let ghost fnd = found@;
                    out.append(&mut found);
                    assert(violations_view(out@) =~= violations_view(before) + violations_view(fnd));
                },
                Err(e) => {
                    assert(!rust_file_ok(fv[i as int].1));
                    return Err(e);
                },
            }
        } else {
            assert(rust_run_violations(fv.take(i + 1), allowlist@) =~= rust_run_violations(
                fv.take(i as int),
                allowlist@,
            ));
        }
        assert forall|k: int|
            0 <= k < fv.take(i + 1).len() && rust_file_linted(fv.take(i + 1)[k].0, allowlist@)
                implies rust_file_ok(#[trigger] fv.take(i + 1)[k].1) by {
            if k < i {
                assert(fv.take(i + 1)[k] == fv.take(i as int)[k]);
            }
        }
        i = i + 1;
    }
    assert(fv.take(i as int) =~= fv);
    Ok(out)
}

/// The default allowlist: the components crate and the sanctioned view
/// files.
pub open spec fn default_allowlist() -> Seq<&'static str> {
    seq!["loom-components/", "views/layout.rs", "views/posts/"]
}

/// [`run`] with the default allowlist.
pub fn run_default(files: &Vec<(String, String)>) -> (r: Result<Vec<Violation>, LintError>)
    ensures
        match r {
            Ok(v) => rust_sources_compile() && rust_run_ok(
                files@.map_values(|f: (String, String)| file_view(f)),
                default_allowlist(),
            ) && violations_view(v@) == rust_run_violations(
                files@.map_values(|f: (String, String)| file_view(f)),
                default_allowlist(),
            ),
            Err(LintError::Pattern(_)) => !rust_sources_compile(),
            Err(e) => e is MissingGroup && rust_sources_compile() && !rust_run_ok(
                files@.map_values(|f: (String, String)| file_view(f)),
                default_allowlist(),
            ),
        },
{
    let allow = default_allowlist_entries();
    run(files, allow.as_slice())
}

/// The default allowlist (see [`default_allowlist`]).
pub fn default_allowlist_entries() -> (r: Vec<&'static str>)
    ensures
        r@ == default_allowlist(),
{
    let mut v: Vec<&'static str> = Vec::new();
    v.push("loom-components/");
    v.push("views/layout.rs");
    v.push("views/posts/");
    assert(v@ =~= default_allowlist());
    v
}


// ------------------------------------------------------------------
// Laws
// ------------------------------------------------------------------

proof fn flagged_displays_bound(caps: Seq<Seq<Option<Seq<char>>>>)
    ensures
        flagged_displays(caps).len() <= caps.len(),
        (forall|i: int| 0 <= i < caps.len() ==> !flagged(#[trigger] capture_text(caps[i])->0))
            ==> flagged_displays(caps).len() == 0,
    decreases caps.len(),
{
    if caps.len() > 0 {
        let prev = caps.drop_last();
        flagged_displays_bound(prev);
        if forall|i: int| 0 <= i < caps.len() ==> !flagged(#[trigger] capture_text(caps[i])->0) {
            assert forall|i: int| 0 <= i < prev.len() implies !flagged(
                #[trigger] capture_text(prev[i])->0,
            ) by {
                assert(prev[i] == caps[i]);
            }
            assert(!flagged(capture_text(caps[caps.len() - 1])->0));
        }
    }
}

/// A line yields at most one violation per class literal, none when no
/// literal holds two utility tokens, and each carries the file's path and
/// the line's number.
pub proof fn rust_line_violations_shape(path: Seq<char>, lineno: nat, line: Seq<char>)
    ensures
        rust_line_violations(path, lineno, line).len() <= regex_captures(class_source()@, line).len(),
        forall|k: int|
            0 <= k < rust_line_violations(path, lineno, line).len() ==> {
                let v = #[trigger] rust_line_violations(path, lineno, line)[k];
                v.0 == path && v.1 == lineno
            },
        (forall|i: int|
            0 <= i < regex_captures(class_source()@, line).len() ==> !flagged(
                #[trigger] capture_text(regex_captures(class_source()@, line)[i])->0,
            )) ==> rust_line_violations(path, lineno, line).len() == 0,
{
    flagged_displays_bound(regex_captures(class_source()@, line));
}

/// The violations of a file carry its path and line numbers from 1 to
/// its number of lines, in order.
pub proof fn rust_violations_in_line_order(path: Seq<char>, lines: Seq<Seq<char>>)
    ensures
        forall|k: int|
            0 <= k < rust_lines_violations(path, lines).len() ==> {
                let v = #[trigger] rust_lines_violations(path, lines)[k];
                v.0 == path && 1 <= v.1 <= lines.len()
            },
        forall|i: int, j: int|
            0 <= i < j < rust_lines_violations(path, lines).len() ==> (
            #[trigger] rust_lines_violations(path, lines)[i]).1 <= (#[trigger] rust_lines_violations(
                path,
                lines,
            )[j]).1,
    decreases lines.len(),
{
    if lines.len() > 0 {
        let prev = lines.drop_last();
        rust_violations_in_line_order(path, prev);
        rust_line_violations_shape(path, lines.len(), lines.last());
        let a = rust_lines_violations(path, prev);
        let b = rust_line_violations(path, lines.len(), lines.last());
        assert(rust_lines_violations(path, lines) == a + b);
        assert forall|k: int| 0 <= k < (a + b).len() implies {
            let v = #[trigger] (a + b)[k];
            v.0 == path && 1 <= v.1 <= lines.len()
        } by {
            if k < a.len() {
                assert((a + b)[k] == a[k]);
            } else {
                assert((a + b)[k] == b[k - a.len()]);
            }
        }
        assert forall|i: int, j: int| 0 <= i < j < (a + b).len() implies (#[trigger] (a + b)[i]).1
            <= (#[trigger] (a + b)[j]).1 by {
            if j < a.len() {
                assert((a + b)[i] == a[i]);
                assert((a + b)[j] == a[j]);
            } else if i < a.len() {
                assert((a + b)[i] == a[i]);
                assert((a + b)[j] == b[j - a.len()]);
            } else {
                assert((a + b)[i] == b[i - a.len()]);
                assert((a + b)[j] == b[j - a.len()]);
            }
        }
    }
}

/// A line whose `// loom-allow:` marker is followed by a reason yields no
/// violation.
pub proof fn rust_marked_lines_are_silent(path: Seq<char>, lineno: nat, line: Seq<char>)
    requires
        allowed_line(line),
    ensures
        rust_line_violations(path, lineno, line) == Seq::<(Seq<char>, nat, Seq<char>)>::empty(),
{
}

/// Files whose paths hold an allowlist entry report nothing, whatever
/// they contain.
pub proof fn rust_allowlisted_files_report_nothing(files: Seq<(Seq<char>, Seq<char>)>, allow: Seq<&str>)
    requires
        forall|i: int| 0 <= i < files.len() ==> contains_any(#[trigger] files[i].0, allow),
    ensures
        rust_run_violations(files, allow) == Seq::<(Seq<char>, nat, Seq<char>)>::empty(),
    decreases files.len(),
{
    if files.len() > 0 {
        let prev = files.drop_last();
        assert forall|i: int| 0 <= i < prev.len() implies contains_any(#[trigger] prev[i].0, allow) by {
            assert(prev[i] == files[i]);
        }
        rust_allowlisted_files_report_nothing(prev, allow);
        assert(contains_any(files[files.len() - 1].0, allow));
        assert(rust_run_violations(files, allow) =~= Seq::<(Seq<char>, nat, Seq<char>)>::empty());
    }
}

} // verus!
