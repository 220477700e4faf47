//! Grapheme clusters of a line, as `unicode-segmentation` finds them.

use crate::text::texts;
use unicode_segmentation::UnicodeSegmentation;
use vstd::prelude::*;

verus! {

/// The extended grapheme clusters of `line`, in order: what
/// `UnicodeSegmentation::graphemes(line, true)` yields.
pub uninterp spec fn grapheme_clusters(line: Seq<char>) -> Seq<Seq<char>>;

/// Calls `UnicodeSegmentation::graphemes(line, true)` and collects what it
/// yields. The iterator hands out consecutive slices of `line`, from its
/// start to its end, each up to the next boundary after where it starts:
/// so the clusters written one after the other are the line again, and
/// none of them is empty.
#[verifier::external_body]
pub(crate) fn graphemes(line: &str) -> (r: Vec<String>)
    ensures
        texts(r@) == grapheme_clusters(line@),
        texts(r@).flatten() == line@,
        forall|i: int| 0 <= i < r@.len() ==> (#[trigger] r@[i])@.len() > 0,
{
    UnicodeSegmentation::graphemes(line, true).map(|g| g.to_string()).collect()
}

} // verus!
