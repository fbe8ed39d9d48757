//! Testing a user agent against each pattern of a list on its own.

use crate::matcher::{pattern_outcome, CompiledMatcher};
use crate::pattern::views;
use vstd::prelude::*;
use vstd::string::StringSliceAdditionalSpecFns;

verus! {

/// What to do with a pattern that does not compile, or whose search fails.
pub enum ScanPolicy {
    /// Leave it out and go on with the next pattern.
    SkipInvalid,
    /// Stop at the first pattern that matches, and report the first failure
    /// met before it.
    FailFast,
}

/// The patterns, in order, that compile and match `subject`.
pub open spec fn matching_patterns(patterns: Seq<Seq<char>>, caseless: bool, subject: Seq<u8>) -> Seq<Seq<char>>
    decreases patterns.len(),
{
    if patterns.len() == 0 {
        Seq::empty()
    } else {
        let rest = matching_patterns(patterns.drop_last(), caseless, subject);
        if pattern_outcome(patterns.last(), caseless, subject) == Some(true) {
            rest.push(patterns.last())
        } else {
            rest
        }
    }
}

/// Going through the patterns in order: `Some(Some(p))` for the first pattern
/// `p` that matches, `Some(None)` when none does, and `None` when a pattern
/// fails to compile or to search before any has matched.
pub open spec fn first_matching(patterns: Seq<Seq<char>>, caseless: bool, subject: Seq<u8>) -> Option<Option<Seq<char>>>
    decreases patterns.len(),
{
    if patterns.len() == 0 {
        Some(None)
    } else {
        match pattern_outcome(patterns[0], caseless, subject) {
            None => None,
            Some(true) => Some(Some(patterns[0])),
            Some(false) => first_matching(patterns.drop_first(), caseless, subject),
        }
    }
}

/// What a scan under `policy` returns: all matching patterns, or at most the
/// first, `None` standing for an error.
pub open spec fn scan_result(patterns: Seq<Seq<char>>, caseless: bool, subject: Seq<u8>, policy: ScanPolicy) -> Option<Seq<Seq<char>>> {
    match policy {
        ScanPolicy::SkipInvalid => Some(matching_patterns(patterns, caseless, subject)),
        ScanPolicy::FailFast => match first_matching(patterns, caseless, subject) {
            None => None,
            Some(None) => Some(Seq::empty()),
            Some(Some(p)) => Some(seq![p]),
        },
    }
}

/// Compiles `pattern` and searches `text` with it.
fn check_pattern(pattern: &str, caseless: bool, text: &str) -> (r: Result<bool, pcre2::Error>)
    ensures
        r is Ok <==> pattern_outcome(pattern@, caseless, text.spec_bytes()) is Some,
        r is Ok ==> pattern_outcome(pattern@, caseless, text.spec_bytes()) == Some(r->Ok_0),
{
    let m = if caseless {
        CompiledMatcher::caseless(pattern)
    } else {
        CompiledMatcher::new(pattern)
    };
    match m {
        Ok(m) => m.is_match(text),
        Err(e) => Err(e),
    }
}

/// Compiles each pattern on its own (with case folding when `caseless`) and
/// tests `text` against it, in order, handling failures as `policy` says.
pub fn scan_patterns(text: &str, patterns: &Vec<String>, caseless: bool, policy: ScanPolicy) -> (r: Result<Vec<String>, pcre2::Error>)
    ensures
        r is Ok <==> scan_result(views(patterns@), caseless, text.spec_bytes(), policy) is Some,
        r is Ok ==> views(r->Ok_0@) == scan_result(views(patterns@), caseless, text.spec_bytes(), policy)->0,
{
    let ghost ps = views(patterns@);
    let ghost subject = text.spec_bytes();
    let fail_fast = match policy {
        ScanPolicy::SkipInvalid => false,
        ScanPolicy::FailFast => true,
    };
    let mut found: Vec<String> = Vec::new();
    let mut i: usize = 0;
    proof {
        assert(ps.take(0) =~= Seq::<Seq<char>>::empty());
        assert(ps.skip(0) =~= ps);
    }
    while i < patterns.len()
        invariant
            i <= patterns.len(),
            ps == views(patterns@),
            subject == text.spec_bytes(),
            fail_fast <==> policy is FailFast,
            !fail_fast ==> views(found@) == matching_patterns(ps.take(i as int), caseless, subject),
            fail_fast ==> found@.len() == 0,
            fail_fast ==> first_matching(ps, caseless, subject) == first_matching(ps.skip(i as int), caseless, subject),
        decreases patterns.len() - i,
    {
        let pattern = &patterns[i];
        let outcome = check_pattern(pattern.as_str(), caseless, text);
        proof {
            assert(ps.take(i + 1).drop_last() =~= ps.take(i as int));
            assert(ps.take(i + 1).last() == ps[i as int]);
            assert(ps.skip(i as int).drop_first() =~= ps.skip(i + 1));
            assert(ps.skip(i as int)[0] == ps[i as int]);
        }
        match outcome {
            Ok(true) => {
                let ghost before = found@;
                found.push(pattern.clone());
                proof {
                    assert(views(found@) =~= views(before).push(ps[i as int]));
                }
                if fail_fast {
                    proof {
                        assert(views(found@) =~= seq![ps[i as int]]);
                    }
                    return Ok(found);
                }
            },
            Ok(false) => {},
            Err(e) => {
                if fail_fast {
                    return Err(e);
                }
            },
        }
        i = i + 1;
    }
    proof {
        assert(ps.take(patterns.len() as int) =~= ps);
        assert(ps.skip(patterns.len() as int) =~= Seq::<Seq<char>>::empty());
        if fail_fast {
            assert(views(found@) =~= Seq::<Seq<char>>::empty());
        }
    }
    Ok(found)
}

} // verus!
