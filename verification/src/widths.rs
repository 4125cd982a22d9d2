//! How the widths of lines add up when texts are put in a row.

use crate::text::{join, last_line_width, line_break, widest_line};
use vstd::prelude::*;

verus! {

/// The last line of a text is no wider than its widest line, and that no
/// wider than the text is long.
pub proof fn lemma_widths_bounded(text: Seq<char>)
    ensures
        last_line_width(text) <= widest_line(text) <= text.len(),
    decreases text.len(),
{
    if text.len() > 0 {
        lemma_widths_bounded(text.drop_last());
    }
}

/// The last line of two texts in a row is no wider than their last lines
/// together.
pub proof fn lemma_last_line_of_add(a: Seq<char>, b: Seq<char>)
    ensures
        last_line_width(a + b) <= last_line_width(a) + last_line_width(b),
    decreases b.len(),
{
    if b.len() == 0 {
        assert(a + b =~= a);
    } else {
        assert((a + b).drop_last() =~= a + b.drop_last());
        assert((a + b).last() == b.last());
        lemma_last_line_of_add(a, b.drop_last());
    }
}

/// The lines of two texts in a row are those of the first, the last of which
/// goes on into the second, and those of the second.
pub proof fn lemma_widest_line_of_add(a: Seq<char>, b: Seq<char>)
    ensures
        widest_line(a + b) <= widest_line(a) || widest_line(a + b) <= last_line_width(a)
            + widest_line(b),
    decreases b.len(),
{
    if b.len() == 0 {
        assert(a + b =~= a);
    } else {
        assert((a + b).drop_last() =~= a + b.drop_last());
        lemma_widest_line_of_add(a, b.drop_last());
        lemma_last_line_of_add(a, b);
        lemma_widths_bounded(b);
    }
}

/// A text after a line break starts a line of its own.
pub proof fn lemma_widest_line_after_break(a: Seq<char>, b: Seq<char>)
    ensures
        widest_line(a.push(line_break()) + b) <= widest_line(a) || widest_line(
            a.push(line_break()) + b,
        ) <= widest_line(b),
        last_line_width(a.push(line_break()) + b) <= last_line_width(b),
    decreases b.len(),
{
    let head = a.push(line_break());
    assert(head.drop_last() =~= a);
    lemma_last_line_of_add(head, b);
    if b.len() == 0 {
        assert(head + b =~= head);
    } else {
        assert((head + b).drop_last() =~= head + b.drop_last());
        lemma_widest_line_after_break(a, b.drop_last());
        lemma_widths_bounded(b);
    }
}

/// Items that each leave `line_end.len()` characters free of a line of
/// `width` characters, put a line each with `line_end` after each but the
/// last, make lines of at most `width` characters, and the last of them
/// leaves room for `line_end`.
pub proof fn lemma_lines_keep_to_width(items: Seq<Seq<char>>, line_end: Seq<char>, width: nat)
    requires
        line_end.len() <= width,
        forall|i: int| 0 <= i < items.len() ==> widest_line(#[trigger] items[i]) + line_end.len()
            <= width,
    ensures
        widest_line(join(items, line_end.push(line_break()))) <= width,
        last_line_width(join(items, line_end.push(line_break()))) + line_end.len() <= width,
    decreases items.len(),
{
    let sep = line_end.push(line_break());
    if items.len() == 1 {
        assert(widest_line(items[0]) + line_end.len() <= width);
        lemma_widths_bounded(items[0]);
    } else if items.len() >= 2 {
        let init = items.drop_last();
        assert forall|i: int| 0 <= i < init.len() implies widest_line(#[trigger] init[i])
            + line_end.len() <= width by {
            assert(init[i] == items[i]);
        }
        lemma_lines_keep_to_width(init, line_end, width);
        let before = join(init, sep);
        let last = items.last();
        assert(widest_line(items[items.len() - 1]) + line_end.len() <= width);
        assert(join(items, sep) =~= (before + line_end).push(line_break()) + last);
        lemma_widest_line_after_break(before + line_end, last);
        lemma_widest_line_of_add(before, line_end);
        lemma_widths_bounded(line_end);
        lemma_widths_bounded(last);
    }
}

/// Items of which each but the last leaves `line_end.len()` characters free
/// of a line of `width` characters, and the last is no wider than such a
/// line, put a line each with `line_end` after each but the last, make lines
/// of at most `width` characters.
pub proof fn lemma_lines_fit(items: Seq<Seq<char>>, line_end: Seq<char>, width: nat)
    requires
        forall|i: int|
            0 <= i < items.len() - 1 ==> widest_line(#[trigger] items[i]) + line_end.len()
                <= width,
        items.len() > 0 ==> widest_line(items.last()) <= width,
    ensures
        widest_line(join(items, line_end.push(line_break()))) <= width,
{
    let sep = line_end.push(line_break());
    if items.len() >= 2 {
        let init = items.drop_last();
        assert forall|i: int| 0 <= i < init.len() implies widest_line(#[trigger] init[i])
            + line_end.len() <= width by {
            assert(init[i] == items[i]);
        }
        assert(widest_line(items[0]) + line_end.len() <= width);
        lemma_lines_keep_to_width(init, line_end, width);
        let before = join(init, sep);
        assert(join(items, sep) =~= (before + line_end).push(line_break()) + items.last());
        lemma_widest_line_after_break(before + line_end, items.last());
        lemma_widest_line_of_add(before, line_end);
        lemma_widths_bounded(line_end);
    }
}

} // verus!
