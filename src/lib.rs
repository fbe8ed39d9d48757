//! Recognising automated clients by their user-agent string.
//!
//! A list of regular-expression patterns is compiled (case-insensitively, as one
//! alternation) into a matcher that is built once and kept in a [`MatcherCache`],
//! or compiled pattern by pattern for queries that report which patterns matched.

pub mod cache;
pub mod errors;
pub mod matcher;
pub mod pattern;
pub mod scan;

pub use crate::cache::{init_pattern, MatcherCache};
pub use crate::errors::BotDetectorError;
pub use crate::matcher::CompiledMatcher;
pub use crate::pattern::{generate_pattern, parse_pattern_list};
pub use crate::scan::ScanPolicy;

use crate::cache::after_init;
use crate::matcher::{first_match_text, pattern_outcome, pcre_is_match, MatcherView};
use crate::pattern::views;
use crate::scan::{first_matching, matching_patterns, scan_patterns};
use vstd::prelude::*;
use vstd::string::StringSliceAdditionalSpecFns;
use vstd::utf8::encode_utf8;

verus! {

/// Whether `user_agent` is non-empty and the matcher `m` finds a match in it.
pub open spec fn bot_by(m: MatcherView, user_agent: Seq<char>) -> bool {
    user_agent.len() > 0 && pcre_is_match(m.source, m.caseless, encode_utf8(user_agent)) == Some(true)
}

/// Whether `user_agent` looks like a bot: non-empty, and matched by the
/// combined matcher of the cache, which is built from `patterns` if the cache
/// holds none yet.
pub fn is_bot(cache: &mut MatcherCache, user_agent: &str, patterns: &Vec<String>) -> (r: Result<bool, BotDetectorError>)
    ensures
        final(cache).stored() == after_init(old(cache).stored(), views(patterns@)),
        r is Ok <==> final(cache).stored().len() > 0,
        r is Ok ==> r->Ok_0 == bot_by(final(cache).stored()[0], user_agent@),
        r is Err && patterns.len() == 0 ==> r->Err_0 is EmptyPatternSet,
        r is Err && patterns.len() > 0 ==> r->Err_0 is RegexCompile,
{
    let m = match init_pattern(cache, patterns) {
        Ok(m) => m,
        Err(e) => return Err(e),
    };
    if user_agent.is_empty() {
        return Ok(false);
    }
    Ok(m.matches(user_agent))
}

/// The text of the first match of the cache's combined matcher in `user_agent`
/// (the whole match, not a sub-group), building the matcher from `patterns` if
/// the cache holds none yet.
pub fn is_bot_match(cache: &mut MatcherCache, user_agent: &str, patterns: &Vec<String>) -> (r: Result<Option<String>, BotDetectorError>)
    ensures
        final(cache).stored() == after_init(old(cache).stored(), views(patterns@)),
        r is Ok <==> final(cache).stored().len() > 0,
        r is Ok ==> (r->Ok_0 is Some <==> first_match_text(final(cache).stored()[0], user_agent.spec_bytes()) is Some),
        r matches Ok(Some(t)) ==> t@ == first_match_text(final(cache).stored()[0], user_agent.spec_bytes())->0,
        r is Err && patterns.len() == 0 ==> r->Err_0 is EmptyPatternSet,
        r is Err && patterns.len() > 0 ==> r->Err_0 is RegexCompile,
{
    let m = match init_pattern(cache, patterns) {
        Ok(m) => m,
        Err(e) => return Err(e),
    };
    Ok(m.first_match(user_agent))
}

/// The patterns, in order, that match `user_agent` when each is compiled on
/// its own with case folding; patterns that fail to compile or to search are
/// left out.
pub fn is_bot_matches(user_agent: &str, patterns: &Vec<String>) -> (r: Vec<String>)
    ensures
        views(r@) == matching_patterns(views(patterns@), true, user_agent.spec_bytes()),
{
    match scan_patterns(user_agent, patterns, true, ScanPolicy::SkipInvalid) {
        Ok(found) => found,
        Err(_) => Vec::new(),
    }
}

/// The first pattern, in order, that matches `user_agent` when each is compiled
/// as written; a pattern met before any match that fails to compile or to
/// search is reported as an error.
pub fn is_bot_pattern(user_agent: &str, patterns: &Vec<String>) -> (r: Result<Option<String>, BotDetectorError>)
    ensures
        r is Ok <==> first_matching(views(patterns@), false, user_agent.spec_bytes()) is Some,
        r is Ok ==> (r->Ok_0 is Some <==> first_matching(views(patterns@), false, user_agent.spec_bytes())->0 is Some),
        r matches Ok(Some(p)) ==> p@ == first_matching(views(patterns@), false, user_agent.spec_bytes())->0->0,
        r is Err ==> r->Err_0 is RegexCompile,
{
    match scan_patterns(user_agent, patterns, false, ScanPolicy::FailFast) {
        Ok(found) => {
            proof {
                assert(views(found@).len() == found@.len());
                if found@.len() > 0 {
                    assert(views(found@)[0] == found@[0]@);
                }
            }
            if found.len() == 0 {
                Ok(None)
            } else {
                let first = found[0].clone();
                Ok(Some(first))
            }
        },
        Err(e) => Err(BotDetectorError::RegexCompile(e)),
    }
}

/// The patterns, in order, that match `user_agent` when each is compiled as
/// written; patterns that fail to compile or to search are left out.
pub fn is_bot_patterns(user_agent: &str, patterns: &Vec<String>) -> (r: Vec<String>)
    ensures
        views(r@) == matching_patterns(views(patterns@), false, user_agent.spec_bytes()),
{
    match scan_patterns(user_agent, patterns, false, ScanPolicy::SkipInvalid) {
        Ok(found) => found,
        Err(_) => Vec::new(),
    }
}

/// A reusable test built from one compiled matcher.
pub struct BotPredicate {
    matcher: CompiledMatcher,
}

impl BotPredicate {
    /// The matcher the test uses.
    pub closed spec fn matcher_view(&self) -> MatcherView {
        self.matcher@
    }

    /// Whether `user_agent` is non-empty and the matcher finds a match in it.
    pub fn is_bot(&self, user_agent: &str) -> (r: bool)
        ensures
            r == bot_by(self.matcher_view(), user_agent@),
    {
        if user_agent.is_empty() {
            return false;
        }
        self.matcher.matches(user_agent)
    }
}

/// Makes a test that answers whether a user agent is non-empty and matched by
/// `custom_pattern`.
pub fn create_is_bot(custom_pattern: CompiledMatcher) -> (r: BotPredicate)
    ensures
        r.matcher_view() == custom_pattern@,
{
    BotPredicate { matcher: custom_pattern }
}

} // verus!

verus! {

/// An empty user agent is never taken for a bot, whatever the matcher.
pub proof fn empty_agent_is_not_bot(m: MatcherView)
    ensures
        !bot_by(m, Seq::empty()),
{
}

/// Asking twice which patterns match the same user agent gives the same
/// patterns in the same order: two results that each meet the contract of
/// `is_bot_matches` (or of `is_bot_patterns`, when `caseless` is false) for the
/// same inputs are equal.
pub proof fn enumeration_is_repeatable(
    first: Seq<String>,
    second: Seq<String>,
    patterns: Seq<Seq<char>>,
    caseless: bool,
    subject: Seq<u8>,
)
    requires
        views(first) == matching_patterns(patterns, caseless, subject),
        views(second) == matching_patterns(patterns, caseless, subject),
    ensures
        views(first) == views(second),
{
}

/// The first matching pattern is the one of lowest index that matches: when
/// every pattern before index `i` compiles and does not match, and the one at
/// `i` matches, the result is the pattern at `i`, however many later patterns
/// match too.
pub proof fn first_match_is_lowest_index(patterns: Seq<Seq<char>>, caseless: bool, subject: Seq<u8>, i: int)
    requires
        0 <= i < patterns.len(),
        pattern_outcome(patterns[i], caseless, subject) == Some(true),
        forall|j: int| 0 <= j < i ==> pattern_outcome(#[trigger] patterns[j], caseless, subject) == Some(false),
    ensures
        first_matching(patterns, caseless, subject) == Some(Some(patterns[i])),
    decreases i,
{
    if i > 0 {
        let rest = patterns.drop_first();
        assert(pattern_outcome(patterns[0], caseless, subject) == Some(false));
        assert forall|j: int| 0 <= j < i - 1 implies pattern_outcome(#[trigger] rest[j], caseless, subject) == Some(false) by {
            assert(rest[j] == patterns[j + 1]);
        }
        assert(rest[i - 1] == patterns[i]);
        first_match_is_lowest_index(rest, caseless, subject, i - 1);
    }
}

/// Whatever `first_matching` returns as a match is a pattern of the list that
/// matches, and every pattern before it compiles and does not match.
pub proof fn first_match_is_earliest(patterns: Seq<Seq<char>>, caseless: bool, subject: Seq<u8>)
    requires
        first_matching(patterns, caseless, subject) is Some,
        first_matching(patterns, caseless, subject)->0 is Some,
    ensures
        exists|i: int|
            0 <= i < patterns.len() && patterns[i] == first_matching(patterns, caseless, subject)->0->0
                && pattern_outcome(patterns[i], caseless, subject) == Some(true) && forall|j: int|
                0 <= j < i ==> pattern_outcome(#[trigger] patterns[j], caseless, subject) == Some(false),
    decreases patterns.len(),
{
    if pattern_outcome(patterns[0], caseless, subject) == Some(true) {
        assert(patterns[0] == first_matching(patterns, caseless, subject)->0->0);
    } else {
        let rest = patterns.drop_first();
        first_match_is_earliest(rest, caseless, subject);
        let k = choose|k: int|
            0 <= k < rest.len() && rest[k] == first_matching(rest, caseless, subject)->0->0
                && pattern_outcome(rest[k], caseless, subject) == Some(true) && forall|j: int|
                0 <= j < k ==> pattern_outcome(#[trigger] rest[j], caseless, subject) == Some(false);
        assert forall|j: int| 0 <= j < k + 1 implies pattern_outcome(#[trigger] patterns[j], caseless, subject) == Some(false) by {
            if j > 0 {
                assert(patterns[j] == rest[j - 1]);
            }
        }
        assert(patterns[k + 1] == rest[k]);
    }
}

/// Once the cache holds a matcher, initialising it again with any other
/// pattern list leaves it holding the same matcher.
pub proof fn init_happens_once(stored: Seq<MatcherView>, first: Seq<Seq<char>>, second: Seq<Seq<char>>)
    requires
        after_init(stored, first).len() > 0,
    ensures
        after_init(after_init(stored, first), second) == after_init(stored, first),
{
}

} // verus!
