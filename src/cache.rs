//! The combined matcher, built on first use and kept for the life of the cache.

use crate::errors::BotDetectorError;
use crate::matcher::{pcre_compiles, CompiledMatcher, MatcherView};
use crate::pattern::{alternation, generate_pattern, views};
use once_cell::sync::OnceCell;
use vstd::prelude::*;

verus! {

#[verifier::external_type_specification]
#[verifier::external_body]
#[verifier::reject_recursive_types(T)]
pub struct ExOnceCell<T>(OnceCell<T>);

/// What a cell of matchers holds, seen through each matcher's view: nothing,
/// or the one value it was set to.
pub uninterp spec fn cell_contents(cell: OnceCell<CompiledMatcher>) -> Seq<MatcherView>;

/// Relies on `once_cell::sync::OnceCell::new`: the cell starts empty.
#[verifier::external_body]
fn empty_cell() -> (r: OnceCell<CompiledMatcher>)
    ensures
        cell_contents(r).len() == 0,
{
    OnceCell::new()
}

/// Relies on `once_cell::sync::OnceCell::get`: the stored value, if the cell
/// was set.
#[verifier::external_body]
fn cell_get(cell: &OnceCell<CompiledMatcher>) -> (r: Option<&CompiledMatcher>)
    ensures
        r is None <==> cell_contents(*cell).len() == 0,
        r is Some ==> cell_contents(*cell) == seq![r->0@],
{
    cell.get()
}

/// Relies on `once_cell::sync::OnceCell::set`: an empty cell takes the value;
/// a full one keeps what it holds and hands the value back.
#[verifier::external_body]
fn cell_set(cell: &mut OnceCell<CompiledMatcher>, value: CompiledMatcher) -> (r: Result<(), CompiledMatcher>)
    ensures
        cell_contents(*old(cell)).len() == 0 ==> r is Ok && cell_contents(*final(cell)) == seq![value@],
        cell_contents(*old(cell)).len() != 0 ==> r is Err && cell_contents(*final(cell)) == cell_contents(*old(cell)),
{
    cell.set(value)
}

/// Holds the combined matcher once it has been built. Which patterns it was
/// built from is decided by the first successful initialisation; later pattern
/// lists are not looked at.
pub struct MatcherCache {
    cell: OnceCell<CompiledMatcher>,
}

/// What the cache holds after an initialisation with `patterns` from the state
/// `stored`: what it held, if anything; else the combined matcher of `patterns`
/// when that list is non-empty and compiles; else still nothing.
pub open spec fn after_init(stored: Seq<MatcherView>, patterns: Seq<Seq<char>>) -> Seq<MatcherView> {
    if stored.len() > 0 {
        stored
    } else if patterns.len() > 0 && pcre_compiles(alternation(patterns), true) {
        seq![MatcherView { source: alternation(patterns), caseless: true }]
    } else {
        stored
    }
}

impl MatcherCache {
    /// The matcher held, as a sequence of at most one view.
    pub closed spec fn stored(&self) -> Seq<MatcherView> {
        cell_contents(self.cell)
    }

    /// An empty cache.
    pub fn new() -> (r: MatcherCache)
        ensures
            r.stored().len() == 0,
    {
        MatcherCache { cell: empty_cell() }
    }

    /// The matcher held, if the cache has been initialised.
    pub fn get(&self) -> (r: Option<&CompiledMatcher>)
        ensures
            r is None <==> self.stored().len() == 0,
            r is Some ==> self.stored() == seq![r->0@],
    {
        cell_get(&self.cell)
    }
}

/// Returns the combined matcher, building it from `patterns` only if the cache
/// holds none yet. A failed build leaves the cache empty and reports why, so a
/// later call may try again with other patterns.
pub fn init_pattern<'a>(cache: &'a mut MatcherCache, patterns: &Vec<String>) -> (r: Result<&'a CompiledMatcher, BotDetectorError>)
    ensures
        final(cache).stored() == after_init(old(cache).stored(), views(patterns@)),
        r is Ok <==> final(cache).stored().len() > 0,
        r is Ok ==> final(cache).stored() == seq![r->Ok_0@],
        r is Err ==> old(cache).stored().len() == 0,
        r is Err && patterns.len() == 0 ==> r->Err_0 is EmptyPatternSet,
        r is Err && patterns.len() > 0 ==> r->Err_0 is RegexCompile,
{
    if cell_get(&cache.cell).is_none() {
        match generate_pattern(patterns) {
            Ok(m) => {
                let _ = cell_set(&mut cache.cell, m);
            },
            Err(e) => {
                return Err(e);
            },
        }
    }
    match cell_get(&cache.cell) {
        Some(m) => Ok(m),
        // not reached: the cell holds a matcher at this point
        None => Err(BotDetectorError::EmptyPatternSet),
    }
}

} // verus!
