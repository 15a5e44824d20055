//! Names of the collections in which records are kept.

use crate::util::chars_of;
use vstd::prelude::*;

verus! {

/// Whether the separator `::` stands at position `i` of `name`.
pub open spec fn separator_at(name: Seq<char>, i: int) -> bool {
    0 <= i && i + 1 < name.len() && name[i] == ':' && name[i + 1] == ':'
}

/// Where the last piece of `name` begins when `name` is cut at every `::`, reading
/// from the left: `start` is where the piece under way begins, and the text before
/// `from` has been read. A third colon in a row belongs to the piece after the cut.
pub open spec fn last_piece_start(name: Seq<char>, from: int, start: int) -> int
    decreases name.len() - from,
{
    if from < 0 || from + 1 >= name.len() {
        start
    } else if separator_at(name, from) {
        last_piece_start(name, from + 2, from + 2)
    } else {
        last_piece_start(name, from + 1, start)
    }
}

/// The last piece of `name` when it is cut at every `::`.
pub open spec fn last_piece(name: Seq<char>) -> Seq<char> {
    name.subrange(last_piece_start(name, 0, 0), name.len() as int)
}

proof fn lemma_last_piece_start(name: Seq<char>, from: int, start: int)
    requires
        0 <= start <= from <= name.len(),
    ensures
        start <= last_piece_start(name, from, start) <= name.len(),
        last_piece_start(name, from, start) == start || separator_at(
            name,
            last_piece_start(name, from, start) - 2,
        ),
        forall|i: int| from <= i ==> !separator_at(name, i) || i < last_piece_start(
            name,
            from,
            start,
        ),
    decreases name.len() - from,
{
    if from + 1 >= name.len() {
    } else if separator_at(name, from) {
        lemma_last_piece_start(name, from + 2, from + 2);
    } else {
        lemma_last_piece_start(name, from + 1, start);
    }
}

/// The last piece is the end of the name: it begins at the start of the name or
/// right after a separator, and holds no separator itself.
pub proof fn lemma_last_piece_is_bare(name: Seq<char>)
    ensures
        0 <= last_piece_start(name, 0, 0) <= name.len(),
        last_piece_start(name, 0, 0) == 0 || separator_at(name, last_piece_start(name, 0, 0) - 2),
        forall|i: int| !separator_at(last_piece(name), i),
{
    lemma_last_piece_start(name, 0, 0);
    let start = last_piece_start(name, 0, 0);
    assert forall|i: int| !separator_at(last_piece(name), i) by {
        if separator_at(last_piece(name), i) {
            assert(separator_at(name, start + i));
        }
    }
}

/// The name of the collection that keeps the records of a type, given the type's
/// full name: the type's own name, without the path of modules before it.
pub fn get_collection_name(name: &str) -> (piece: String)
    ensures
        piece@ == last_piece(name@),
{
    let chars = chars_of(name);
    let len: usize = chars.len();
    let mut start: usize = 0;
    let mut from: usize = 0;
    while len - from >= 2
        invariant
            len == name@.len(),
            chars@ == name@,
            start <= from <= len,
            last_piece_start(name@, from as int, start as int) == last_piece_start(name@, 0, 0),
        decreases len - from,
    {
        if chars[from] == ':' && chars[from + 1] == ':' {
            from = from + 2;
            start = from;
        } else {
            from = from + 1;
        }
    }
    name.substring_char(start, len).to_owned()
}

} // verus!
