//! Fuzzy matching of symbol names against a query, and ranking by score.
use vstd::prelude::*;
use crate::symbols::symbol::Symbol;

verus! {

/// The score that `fuzzy_matcher`'s clangd algorithm gives `choice` against
/// `pattern` under its default settings (case ignored), or `None` when the
/// pattern does not match.
pub uninterp spec fn clangd_score(choice: Seq<char>, pattern: Seq<char>) -> Option<i64>;

/// Calls `fuzzy_matcher::clangd::fuzzy_match`, which scores with a default
/// `ClangdMatcher` set to ignore case (the default `ClangdMatcher` already
/// ignores case). The contract names the result `clangd_score` of the two
/// strings and does not spell out the scoring algorithm.
#[verifier::external_body]
pub(crate) fn clangd_match(choice: &str, pattern: &str) -> (r: Option<i64>)
    ensures
        r == clangd_score(choice@, pattern@),
{
    fuzzy_matcher::clangd::fuzzy_match(choice, pattern)
}

/// Calls `slice::sort_by_key` with the score reversed: the entries come out
/// with the same contents, ordered from the highest score down (equal scores
/// keep their order, which the contract leaves unsaid).
#[verifier::external_body]
pub(crate) fn sort_by_score_desc(v: &mut Vec<(i64, Symbol)>)
    ensures
        final(v)@.to_multiset() == old(v)@.to_multiset(),
        forall|i: int, j: int| 0 <= i < j < final(v)@.len() ==> final(v)@[i].0 >= final(v)@[j].0,
{
    v.sort_by_key(|b| std::cmp::Reverse(b.0));
}

} // verus!
