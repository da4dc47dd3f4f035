//! Grapheme clusters: what a reader sees as one character, which neither
//! bytes nor `char`s count correctly.

use unicode_segmentation::UnicodeSegmentation;
use vstd::prelude::*;

verus! {

/// What unicode-segmentation's extended grapheme clustering yields for a
/// string with these characters.
pub uninterp spec fn grapheme_clusters(s: Seq<char>) -> Seq<Seq<char>>;

/// Relies on unicode_segmentation::UnicodeSegmentation::graphemes with
/// `is_extended` set: the segmentation into extended grapheme clusters is
/// a function of the characters alone.
#[verifier::external_body]
fn split_graphemes(s: &str) -> (clusters: Vec<String>)
    ensures
        clusters.deep_view() == grapheme_clusters(s@),
{
    s.graphemes(true).map(|g| g.to_string()).collect()
}

/// How many grapheme clusters the string shows — the count a reader would
/// give, not the `char` count.
pub fn grapheme_count(s: &str) -> (count: usize)
    ensures
        count == grapheme_clusters(s@).len(),
{
    let clusters = split_graphemes(s);
    proof {
        assert(clusters.deep_view().len() == clusters@.len());
    }
    clusters.len()
}

} // verus!
