use vstd::prelude::*;

use regex::Regex;
use regex::RegexSet;

verus! {

#[verifier::external_type_specification]
#[verifier::external_body]
pub struct ExRegex(Regex);

#[verifier::external_type_specification]
#[verifier::external_body]
pub struct ExRegexSet(RegexSet);

/// The pattern a compiled regex was built from: what `Regex::as_str`
/// returns.
pub uninterp spec fn regex_pattern(re: Regex) -> Seq<char>;

/// Whether `Regex::new` accepts a pattern: acceptance is a function of the
/// pattern string alone.
pub uninterp spec fn pattern_ok(pattern: Seq<char>) -> bool;

/// Whether a pattern matches anywhere in an input: what `Regex::is_match`
/// returns, a function of the pattern and the input alone.
pub uninterp spec fn pattern_matches(pattern: Seq<char>, input: Seq<char>) -> bool;

/// The result of replacing the first match of a pattern in an input by a
/// template, with capture references in the template expanded: what
/// `Regex::replace` returns, a function of the pattern, the input and the
/// template alone.
pub uninterp spec fn replaced_first(pattern: Seq<char>, input: Seq<char>, template: Seq<char>) -> Seq<
    char,
>;

/// The patterns a regex set was built from, in order: what
/// `RegexSet::patterns` returns.
pub uninterp spec fn set_patterns(s: RegexSet) -> Seq<Seq<char>>;

/// Whether `RegexSet::new` accepts a list of patterns: acceptance is a
/// function of the pattern list alone.
pub uninterp spec fn set_ok(patterns: Seq<Seq<char>>) -> bool;

/// Relies on `Regex::new`: it compiles a pattern, failing exactly on the
/// patterns the regex crate rejects, and `Regex::as_str` on the compiled
/// regex returns the pattern it was given.
#[verifier::external_body]
pub(crate) fn compile_pattern(pattern: &String) -> (r: Option<Regex>)
    ensures
        r is Some <==> pattern_ok(pattern@),
        r matches Some(re) ==> regex_pattern(re) == pattern@,
{
    Regex::new(pattern).ok()
}

/// Relies on `RegexSet::new`: it compiles many patterns into one set,
/// accepting or rejecting on the pattern list alone, and `RegexSet::patterns`
/// on the compiled set returns the patterns it was given, in order.
#[verifier::external_body]
pub(crate) fn compile_set(patterns: &Vec<String>) -> (r: Option<RegexSet>)
    ensures
        r is Some <==> set_ok(patterns@.map_values(|p: String| p@)),
        r matches Some(s) ==> set_patterns(s) == patterns@.map_values(|p: String| p@),
{
    RegexSet::new(patterns).ok()
}

/// Relies on `RegexSet::matches` and `SetMatches::iter`: the match set
/// holds the index of each pattern in the set that matches anywhere in the
/// input — the same matches `Regex::is_match` finds pattern by pattern —
/// and iterating yields exactly those indices.
#[verifier::external_body]
pub(crate) fn set_match_indices(s: &RegexSet, input: &str) -> (r: Vec<usize>)
    ensures
        forall|i: usize|
            (i as int) < set_patterns(*s).len() ==> (#[trigger] r@.contains(i) <==> pattern_matches(
                set_patterns(*s)[i as int],
                input@,
            )),
        forall|j: int| 0 <= j < r@.len() ==> (#[trigger] r@[j] as int) < set_patterns(*s).len(),
{
    s.matches(input).iter().collect()
}

/// Relies on `Regex::replace`: it replaces the first match of the pattern
/// in the input with the expanded template, and returns a result that
/// depends on the pattern, the input and the template alone.
#[verifier::external_body]
pub(crate) fn replace_template(re: &Regex, input: &str, template: &str) -> (r: String)
    ensures
        r@ == replaced_first(regex_pattern(*re), input@, template@),
{
    re.replace(input, template).into_owned()
}

} // verus!
