//! What stands where in a document.

use vstd::prelude::*;

use crate::doc::Glyph;
use crate::sar_text::cell::columns_taken;

verus! {

/// A part with what stands before it and what stands after it.
pub open spec fn around(before: Seq<Glyph>, part: Seq<Glyph>, after: Seq<Glyph>) -> Seq<Glyph> {
    before + part + after
}

/// Whether a part stands somewhere in a whole, in one piece.
pub open spec fn stands_in(part: Seq<Glyph>, whole: Seq<Glyph>) -> bool {
    exists|before: Seq<Glyph>, after: Seq<Glyph>| #[trigger] around(before, part, after) == whole
}

/// Whether a text has a line that starts with `start`, and `what` stands in it `at` columns
/// behind that start.
pub open spec fn line_shows(
    text: Seq<Glyph>,
    start: Seq<Glyph>,
    at: nat,
    what: Seq<Glyph>,
) -> bool {
    exists|mid: Seq<Glyph>| #[trigger]
        columns_taken(mid) == at && stands_in(start + mid + what, text)
}

pub proof fn lemma_stands_in(before: Seq<Glyph>, part: Seq<Glyph>, after: Seq<Glyph>, whole: Seq<Glyph>)
    requires
        whole == before + part + after,
    ensures
        stands_in(part, whole),
{
    assert(around(before, part, after) == whole);
}

/// What stands in a part of a whole stands in the whole.
pub proof fn lemma_stands_deeper(part: Seq<Glyph>, middle: Seq<Glyph>, whole: Seq<Glyph>)
    requires
        stands_in(part, middle),
        stands_in(middle, whole),
    ensures
        stands_in(part, whole),
{
    let (a, b) = choose|a: Seq<Glyph>, b: Seq<Glyph>| #[trigger] around(a, part, b) == middle;
    let (c, d) = choose|c: Seq<Glyph>, d: Seq<Glyph>| #[trigger] around(c, middle, d) == whole;
    assert(around(c + a, part, b + d) =~= whole);
}

pub proof fn lemma_columns_add(a: Seq<Glyph>, b: Seq<Glyph>)
    ensures
        columns_taken(a + b) == columns_taken(a) + columns_taken(b),
    decreases b.len(),
{
    if b.len() == 0 {
        assert(a + b =~= a);
    } else {
        lemma_columns_add(a, b.drop_last());
        assert((a + b).drop_last() =~= a + b.drop_last());
    }
}

}
