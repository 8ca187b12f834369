//! Compiled regular expressions, through the `regex` crate. A [`Pattern`]
//! keeps the source it was compiled from; what a match or a capture scan
//! returns is named by the pattern source and the haystack.

use vstd::prelude::*;

verus! {

#[verifier::external_type_specification]
#[verifier::external_body]
pub struct ExRegex(regex::Regex);

#[verifier::external_type_specification]
#[verifier::external_body]
pub struct ExRegexError(regex::Error);

/// Whether `regex::Regex::new` accepts `pattern` (syntax and the default
/// size limits).
pub uninterp spec fn regex_compiles(pattern: Seq<char>) -> bool;

/// Whether the regex compiled from `pattern` matches somewhere in `hay`
/// (`regex::Regex::is_match`).
pub uninterp spec fn regex_is_match(pattern: Seq<char>, hay: Seq<char>) -> bool;

/// The successive non-overlapping matches of the regex compiled from
/// `pattern` in `hay`, each as its capture groups in order (group 0 the
/// whole match), a group that did not take part being `None`
/// (`regex::Regex::captures_iter`).
pub uninterp spec fn regex_captures(pattern: Seq<char>, hay: Seq<char>) -> Seq<Seq<Option<Seq<char>>>>;

/// A regex compiled from a fixed source. Only [`compile`] builds one, so
/// `compiled` is always the compilation of `source`.
pub struct Pattern {
    source: &'static str,
    compiled: regex::Regex,
}

impl Pattern {
    /// The source the pattern was compiled from.
    pub closed spec fn source(self) -> Seq<char> {
        self.source@
    }
}

/// Capture groups as character sequences.
pub open spec fn groups_view(groups: Seq<Option<String>>) -> Seq<Option<Seq<char>>> {
    groups.map_values(|g: Option<String>| match g {
        Some(s) => Some(s@),
        None => None,
    })
}

/// Capture scans as character sequences.
pub open spec fn captures_view(caps: Seq<Vec<Option<String>>>) -> Seq<Seq<Option<Seq<char>>>> {
    caps.map_values(|m: Vec<Option<String>>| groups_view(m@))
}

/// Compile `source` with `regex::Regex::new`: whether it succeeds is
/// named by [`regex_compiles`] of the source; on success the pattern
/// records `source`.
#[verifier::external_body]
pub(crate) fn compile(source: &'static str) -> (r: Result<Pattern, regex::Error>)
    ensures
        r is Ok <==> regex_compiles(source@),
        r matches Ok(p) ==> p.source() == source@,
{
    match regex::Regex::new(source) {
        Ok(compiled) => Ok(Pattern { source, compiled }),
        Err(e) => Err(e),
    }
}

/// `regex::Regex::is_match`: the result is named by the pattern source and
/// the haystack.
#[verifier::external_body]
pub(crate) fn is_match(p: &Pattern, hay: &str) -> (r: bool)
    ensures
        r == regex_is_match(p.source(), hay@),
{
    p.compiled.is_match(hay)
}

/// `regex::Regex::captures_iter`, each match converted to its groups
/// (`Captures::iter`) as owned strings; the result is named by the pattern
/// source and the haystack.
#[verifier::external_body]
pub(crate) fn captures(p: &Pattern, hay: &str) -> (r: Vec<Vec<Option<String>>>)
    ensures
        captures_view(r@) == regex_captures(p.source(), hay@),
{
    let mut all = Vec::new();
    for caps in p.compiled.captures_iter(hay) {
        let mut groups = Vec::new();
        for g in caps.iter() {
            groups.push(g.map(|m| m.as_str().to_string()));
        }
        all.push(groups);
    }
    all
}

} // verus!
