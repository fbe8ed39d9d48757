//! Compiled PCRE2 matchers and the calls into the pcre2 crate.

use pcre2::bytes::{Regex, RegexBuilder};
use vstd::prelude::*;
use vstd::string::StringSliceAdditionalSpecFns;

verus! {

#[verifier::external_type_specification]
#[verifier::external_body]
pub struct ExRegex(Regex);

#[verifier::external_type_specification]
#[verifier::external_body]
pub struct ExPcreError(pcre2::Error);

/// Whether PCRE2 accepts `pattern` as a regular expression, compiled with
/// case folding when `caseless` holds.
pub uninterp spec fn pcre_compiles(pattern: Seq<char>, caseless: bool) -> bool;

/// What PCRE2 answers when asked whether the regular expression compiled from
/// `pattern` (with case folding when `caseless` holds) matches somewhere in
/// `subject`: `Some(b)`, or `None` when the search itself failed (a match
/// limit was hit).
pub uninterp spec fn pcre_is_match(pattern: Seq<char>, caseless: bool, subject: Seq<u8>) -> Option<bool>;

/// What PCRE2 gives as the leftmost-first match of the regular expression
/// compiled from `pattern` in `subject`: `Some(Some(bytes))` for the text of
/// the whole match, `Some(None)` for no match, `None` when the search failed.
pub uninterp spec fn pcre_first_match(pattern: Seq<char>, caseless: bool, subject: Seq<u8>) -> Option<Option<Seq<u8>>>;

/// What `String::from_utf8_lossy` makes of `bytes`.
pub uninterp spec fn utf8_lossy(bytes: Seq<u8>) -> Seq<char>;

/// A regular expression compiled by PCRE2 from `source`, case-insensitive when
/// `caseless` holds. The fields are private: the only way to obtain one is
/// `build_regex`, which compiles `regex` from `source` and `caseless`.
#[derive(Debug)]
pub struct CompiledMatcher {
    regex: Regex,
    source: String,
    caseless: bool,
}

/// The pattern text a matcher was compiled from, and whether it folds case.
pub struct MatcherView {
    pub source: Seq<char>,
    pub caseless: bool,
}

impl View for CompiledMatcher {
    type V = MatcherView;

    closed spec fn view(&self) -> MatcherView {
        MatcherView { source: self.source@, caseless: self.caseless }
    }
}

/// Relies on pcre2's `RegexBuilder::build` with `caseless` set as given: it
/// fails exactly on the patterns PCRE2 refuses, and succeeds with a regex for
/// `pattern`, which is kept beside its source.
#[verifier::external_body]
fn build_regex(pattern: &str, caseless: bool) -> (r: Result<CompiledMatcher, pcre2::Error>)
    ensures
        r is Ok <==> pcre_compiles(pattern@, caseless),
        r is Ok ==> r->Ok_0@ == (MatcherView { source: pattern@, caseless }),
{
    RegexBuilder::new().caseless(caseless).build(pattern).map(
        |regex| CompiledMatcher { regex, source: pattern.to_string(), caseless },
    )
}

/// Relies on pcre2's `Regex::is_match`; the regex of `m` was compiled from its
/// source with its case option.
#[verifier::external_body]
fn regex_is_match(m: &CompiledMatcher, subject: &[u8]) -> (r: Result<bool, pcre2::Error>)
    ensures
        r is Ok <==> pcre_is_match(m@.source, m@.caseless, subject@) is Some,
        r is Ok ==> pcre_is_match(m@.source, m@.caseless, subject@) == Some(r->Ok_0),
{
    m.regex.is_match(subject)
}

/// Relies on pcre2's `Regex::captures` and group 0 of what it finds: the text
/// of the whole leftmost-first match.
#[verifier::external_body]
fn regex_first_match(m: &CompiledMatcher, subject: &[u8]) -> (r: Result<Option<Vec<u8>>, pcre2::Error>)
    ensures
        r is Ok <==> pcre_first_match(m@.source, m@.caseless, subject@) is Some,
        r is Ok ==> pcre_first_match(m@.source, m@.caseless, subject@) == Some(
            match r->Ok_0 {
                Some(v) => Some(v@),
                None => None::<Seq<u8>>,
            },
        ),
{
    m.regex.captures(subject).map(|c| c.and_then(|caps| caps.get(0)).map(|g| g.as_bytes().to_vec()))
}

/// Relies on `String::from_utf8_lossy`, taken as an owned string.
#[verifier::external_body]
fn lossy_text(bytes: &[u8]) -> (r: String)
    ensures
        r@ == utf8_lossy(bytes@),
{
    String::from_utf8_lossy(bytes).into_owned()
}

/// The spec-level result of running one compiled pattern over `subject`:
/// `Some(b)` when it compiled and the search answered `b`, `None` otherwise.
pub open spec fn pattern_outcome(pattern: Seq<char>, caseless: bool, subject: Seq<u8>) -> Option<bool> {
    if pcre_compiles(pattern, caseless) {
        pcre_is_match(pattern, caseless, subject)
    } else {
        None
    }
}

/// The text of the leftmost-first match of `m` in `subject`, if the search
/// succeeded and found one.
pub open spec fn first_match_text(m: MatcherView, subject: Seq<u8>) -> Option<Seq<char>> {
    match pcre_first_match(m.source, m.caseless, subject) {
        Some(Some(bytes)) => Some(utf8_lossy(bytes)),
        _ => None,
    }
}

impl CompiledMatcher {
    /// Compiles `pattern` as written, without forcing case folding.
    pub fn new(pattern: &str) -> (r: Result<CompiledMatcher, pcre2::Error>)
        ensures
            r is Ok <==> pcre_compiles(pattern@, false),
            r is Ok ==> r->Ok_0@ == (MatcherView { source: pattern@, caseless: false }),
    {
        build_regex(pattern, false)
    }

    /// Compiles `pattern` with the case of letters ignored.
    pub fn caseless(pattern: &str) -> (r: Result<CompiledMatcher, pcre2::Error>)
        ensures
            r is Ok <==> pcre_compiles(pattern@, true),
            r is Ok ==> r->Ok_0@ == (MatcherView { source: pattern@, caseless: true }),
    {
        build_regex(pattern, true)
    }

    /// Whether the matcher matches somewhere in `text`; a failed search is an error.
    pub fn is_match(&self, text: &str) -> (r: Result<bool, pcre2::Error>)
        ensures
            r is Ok <==> pcre_is_match(self@.source, self@.caseless, text.spec_bytes()) is Some,
            r is Ok ==> pcre_is_match(self@.source, self@.caseless, text.spec_bytes()) == Some(r->Ok_0),
    {
        regex_is_match(self, text.as_bytes())
    }

    /// Whether the matcher matches somewhere in `text`, a failed search counting
    /// as no match.
    pub fn matches(&self, text: &str) -> (r: bool)
        ensures
            r == (pcre_is_match(self@.source, self@.caseless, text.spec_bytes()) == Some(true)),
    {
        match regex_is_match(self, text.as_bytes()) {
            Ok(b) => b,
            Err(_) => false,
        }
    }

    /// The text of the leftmost-first match in `text`, if there is one; a failed
    /// search counts as no match.
    pub fn first_match(&self, text: &str) -> (r: Option<String>)
        ensures
            r is Some <==> first_match_text(self@, text.spec_bytes()) is Some,
            r is Some ==> r->0@ == first_match_text(self@, text.spec_bytes())->0,
    {
        match regex_first_match(self, text.as_bytes()) {
            Ok(Some(bytes)) => Some(lossy_text(bytes.as_slice())),
            _ => None,
        }
    }
}

} // verus!
