//! Reading a pattern list and compiling it into one combined matcher.

use crate::errors::BotDetectorError;
use crate::matcher::{pcre_compiles, CompiledMatcher, MatcherView};
use vstd::prelude::*;

verus! {

/// What `serde_json::from_str` makes of `text` read as an array of strings:
/// `Some(strings)`, or `None` where it reports an error.
pub uninterp spec fn json_string_list(text: Seq<char>) -> Option<Seq<Seq<char>>>;

/// The text of each pattern.
pub open spec fn views(patterns: Seq<String>) -> Seq<Seq<char>> {
    patterns.map_values(|p: String| p@)
}

/// The patterns joined by `|`, in order.
pub open spec fn alternation(patterns: Seq<Seq<char>>) -> Seq<char>
    decreases patterns.len(),
{
    if patterns.len() == 0 {
        Seq::empty()
    } else if patterns.len() == 1 {
        patterns[0]
    } else {
        alternation(patterns.drop_last()) + seq!['|'] + patterns.last()
    }
}

/// Relies on `serde_json::from_str` reading a JSON array of strings.
#[verifier::external_body]
fn json_to_strings(text: &str) -> (r: Result<Vec<String>, serde_json::Error>)
    ensures
        r is Ok <==> json_string_list(text@) is Some,
        r is Ok ==> views(r->Ok_0@) == json_string_list(text@)->0,
{
    serde_json::from_str::<Vec<String>>(text)
}

/// Reads a pattern list: a JSON array of strings, in order.
pub fn parse_pattern_list(text: &str) -> (r: Result<Vec<String>, BotDetectorError>)
    ensures
        r is Ok <==> json_string_list(text@) is Some,
        r is Ok ==> views(r->Ok_0@) == json_string_list(text@)->0,
        r is Err ==> r->Err_0 is JsonParse,
{
    match json_to_strings(text) {
        Ok(v) => Ok(v),
        Err(e) => Err(BotDetectorError::JsonParse(e)),
    }
}

/// The patterns joined by `|`.
pub fn join_alternation(patterns: &Vec<String>) -> (r: String)
    ensures
        r@ == alternation(views(patterns@)),
{
    let ghost ps = views(patterns@);
    let mut r = String::new();
    let mut i: usize = 0;
    proof {
        reveal_strlit("|");
        assert(ps.take(0) =~= Seq::<Seq<char>>::empty());
    }
    while i < patterns.len()
        invariant
            i <= patterns.len(),
            ps == views(patterns@),
            r@ == alternation(ps.take(i as int)),
        decreases patterns.len() - i,
    {
        proof {
            reveal_strlit("|");
            assert("|"@ =~= seq!['|']);
        }
        if i > 0 {
            r.push_str("|");
        }
        assert(patterns[i as int]@ == ps[i as int]);
        r.push_str(patterns[i].as_str());
        proof {
            assert(ps.take(i + 1).drop_last() =~= ps.take(i as int));
            if i == 0 {
                assert(r@ =~= ps.take(1)[0]);
            } else {
                assert(r@ =~= alternation(ps.take(i as int)) + seq!['|'] + ps[i as int]);
            }
        }
        i = i + 1;
    }
    proof {
        assert(ps.take(patterns.len() as int) =~= ps);
    }
    r
}

/// Compiles the alternation of all `patterns` into one case-insensitive matcher.
/// An empty list is refused rather than turned into a matcher that matches
/// everything.
pub fn generate_pattern(patterns: &Vec<String>) -> (r: Result<CompiledMatcher, BotDetectorError>)
    ensures
        patterns.len() == 0 ==> r matches Err(BotDetectorError::EmptyPatternSet),
        patterns.len() > 0 ==> (r is Ok <==> pcre_compiles(alternation(views(patterns@)), true)),
        r is Ok ==> r->Ok_0@ == (MatcherView { source: alternation(views(patterns@)), caseless: true }),
        patterns.len() > 0 && r is Err ==> r->Err_0 is RegexCompile,
{
    if patterns.len() == 0 {
        return Err(BotDetectorError::EmptyPatternSet);
    }
    let source = join_alternation(patterns);
    match CompiledMatcher::caseless(source.as_str()) {
        Ok(m) => Ok(m),
        Err(e) => Err(BotDetectorError::RegexCompile(e)),
    }
}

} // verus!
