//! The parts of a text of one line are of one line, and no longer than it.

use crate::text::{has_line_break, join, join_ended, line_break};
use vstd::prelude::*;

verus! {

/// Two texts in a row hold a line break where one of them does.
pub proof fn lemma_line_break_of_add(a: Seq<char>, b: Seq<char>)
    ensures
        has_line_break(a + b) <==> has_line_break(a) || has_line_break(b),
{
    if has_line_break(a) {
        let i = choose|i: int| 0 <= i < a.len() && a[i] == line_break();
        assert((a + b)[i] == line_break());
    }
    if has_line_break(b) {
        let i = choose|i: int| 0 <= i < b.len() && b[i] == line_break();
        assert((a + b)[a.len() + i] == line_break());
    }
    if has_line_break(a + b) {
        let i = choose|i: int| 0 <= i < (a + b).len() && (a + b)[i] == line_break();
        if i < a.len() {
            assert(a[i] == line_break());
        } else {
            assert(b[i - a.len()] == line_break());
        }
    }
}

/// Where joined texts are of one line, so is each of them, and none is
/// longer than they are together.
pub proof fn lemma_parts_of_join(items: Seq<Seq<char>>, sep: Seq<char>, i: int)
    requires
        0 <= i < items.len(),
    ensures
        has_line_break(items[i]) ==> has_line_break(join(items, sep)),
        items[i].len() <= join(items, sep).len(),
    decreases items.len(),
{
    if items.len() >= 2 {
        let init = items.drop_last();
        lemma_line_break_of_add(join(init, sep), sep);
        lemma_line_break_of_add(join(init, sep) + sep, items.last());
        if i < items.len() - 1 {
            lemma_parts_of_join(init, sep, i);
        }
    }
}

/// Where texts in a row, each with an end after it, are of one line, so is
/// each of them, and none is longer than they are together.
pub proof fn lemma_parts_of_join_ended(items: Seq<Seq<char>>, end: Seq<char>, i: int)
    requires
        0 <= i < items.len(),
    ensures
        has_line_break(items[i]) ==> has_line_break(join_ended(items, end)),
        items[i].len() <= join_ended(items, end).len(),
    decreases items.len(),
{
    let init = items.drop_last();
    lemma_line_break_of_add(join_ended(init, end), items.last());
    lemma_line_break_of_add(join_ended(init, end) + items.last(), end);
    if i < items.len() - 1 {
        lemma_parts_of_join_ended(init, end, i);
    }
}

/// Two or more texts joined by a separator that holds a line break hold a
/// line break.
pub proof fn lemma_join_breaks_lines(items: Seq<Seq<char>>, sep: Seq<char>)
    requires
        items.len() >= 2,
        has_line_break(sep),
    ensures
        has_line_break(join(items, sep)),
{
    let init = items.drop_last();
    lemma_line_break_of_add(join(init, sep), sep);
    lemma_line_break_of_add(join(init, sep) + sep, items.last());
}

/// Up to one text is joined the same way by any separator.
pub proof fn lemma_join_of_one(items: Seq<Seq<char>>, a_sep: Seq<char>, b_sep: Seq<char>)
    requires
        items.len() <= 1,
    ensures
        join(items, a_sep) == join(items, b_sep),
{
}

} // verus!
