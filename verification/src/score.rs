//! The consumed fuzzy-scorer interface.

use vstd::prelude::*;

use fuzzy_matcher::FuzzyMatcher;

verus! {

/// What the skim scorer returns for a label and a pattern: either no match,
/// or a relevance weight together with the matched character offsets of the
/// label. The scorer is deterministic for a fixed pair of texts, so its
/// result can be given a name.
pub uninterp spec fn fuzzy_score(label: Seq<char>, pattern: Seq<char>) -> Option<(i64, Seq<usize>)>;

/// Relies on fuzzy_matcher's `SkimMatcherV2::fuzzy_indices`: with the fixed
/// default configuration, the score and the matched positions depend on the
/// label and the pattern alone, and `None` means the pattern does not match.
/// The positions are collected while walking the score matrix backward, one
/// column at a time, and reversed; so they are strictly ascending character
/// offsets into the label.
#[verifier::external_body]
pub(crate) fn score_label(label: &String, pattern: &Vec<char>) -> (r: Option<(i64, Vec<usize>)>)
    ensures
        match r {
            Some((w, ix)) => fuzzy_score(label@, pattern@) == Some((w, ix@)) && (forall|a: int, b: int|
                0 <= a < b < ix@.len() ==> ix@[a] < ix@[b]) && (forall|a: int|
                0 <= a < ix@.len() ==> ix@[a] < label@.len()),
            None => fuzzy_score(label@, pattern@) is None,
        },
{
    let p: String = pattern.iter().collect();
    fuzzy_matcher::skim::SkimMatcherV2::default().fuzzy_indices(label.as_str(), &p)
}

} // verus!
