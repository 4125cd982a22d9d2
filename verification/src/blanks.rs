//! Texts that differ in their blanks only.

use crate::text::{join, join_ended, line_break};
use vstd::prelude::*;

verus! {

/// Whether `c` is a blank: a space or a line break.
pub open spec fn is_blank(c: char) -> bool {
    c == ' ' || c == line_break()
}

/// The characters of `text` that are not blanks, in order.
pub open spec fn without_blanks(text: Seq<char>) -> Seq<char>
    decreases text.len(),
{
    if text.len() == 0 {
        Seq::empty()
    } else if is_blank(text.last()) {
        without_blanks(text.drop_last())
    } else {
        without_blanks(text.drop_last()).push(text.last())
    }
}

/// Whether `a` and `b` are the same text but for their blanks.
pub open spec fn same_but_blanks(a: Seq<char>, b: Seq<char>) -> bool {
    without_blanks(a) == without_blanks(b)
}

/// Whether `xs` and `ys` are as many texts, each pair the same but for its
/// blanks.
pub open spec fn all_same_but_blanks(xs: Seq<Seq<char>>, ys: Seq<Seq<char>>) -> bool {
    &&& xs.len() == ys.len()
    &&& forall|i: int| 0 <= i < xs.len() ==> same_but_blanks(#[trigger] xs[i], ys[i])
}

/// Taking the blanks out of two texts in a row takes them out of each.
pub proof fn lemma_without_blanks_add(a: Seq<char>, b: Seq<char>)
    ensures
        without_blanks(a + b) == without_blanks(a) + without_blanks(b),
    decreases b.len(),
{
    if b.len() == 0 {
        assert(a + b =~= a);
        assert(without_blanks(a) + without_blanks(b) =~= without_blanks(a));
    } else {
        assert((a + b).drop_last() =~= a + b.drop_last());
        lemma_without_blanks_add(a, b.drop_last());
        assert(without_blanks(a + b) =~= without_blanks(a) + without_blanks(b));
    }
}

/// A blank at the end of a text does not count.
pub proof fn lemma_without_blanks_push_blank(a: Seq<char>, c: char)
    requires
        is_blank(c),
    ensures
        without_blanks(a.push(c)) == without_blanks(a),
{
    assert(a.push(c).drop_last() =~= a);
}

/// Texts that are pairwise the same but for blanks, joined by separators
/// that are the same but for blanks, are the same but for blanks.
pub proof fn lemma_join_same_but_blanks(
    xs: Seq<Seq<char>>,
    ys: Seq<Seq<char>>,
    x_sep: Seq<char>,
    y_sep: Seq<char>,
)
    requires
        all_same_but_blanks(xs, ys),
        same_but_blanks(x_sep, y_sep),
    ensures
        same_but_blanks(join(xs, x_sep), join(ys, y_sep)),
    decreases xs.len(),
{
    if xs.len() >= 2 {
        let x_init = xs.drop_last();
        let y_init = ys.drop_last();
        assert forall|i: int| 0 <= i < x_init.len() implies same_but_blanks(
            #[trigger] x_init[i],
            y_init[i],
        ) by {
            assert(same_but_blanks(xs[i], ys[i]));
        }
        lemma_join_same_but_blanks(x_init, y_init, x_sep, y_sep);
        assert(same_but_blanks(xs[xs.len() - 1], ys[ys.len() - 1]));
        lemma_without_blanks_add(join(x_init, x_sep), x_sep);
        lemma_without_blanks_add(join(x_init, x_sep) + x_sep, xs.last());
        lemma_without_blanks_add(join(y_init, y_sep), y_sep);
        lemma_without_blanks_add(join(y_init, y_sep) + y_sep, ys.last());
    } else if xs.len() == 1 {
        assert(same_but_blanks(xs[0], ys[0]));
    }
}

/// Texts that are pairwise the same but for blanks, each with the same end
/// after it, are in a row the same but for blanks.
pub proof fn lemma_join_ended_same_but_blanks(
    xs: Seq<Seq<char>>,
    ys: Seq<Seq<char>>,
    end: Seq<char>,
)
    requires
        all_same_but_blanks(xs, ys),
    ensures
        same_but_blanks(join_ended(xs, end), join_ended(ys, end)),
    decreases xs.len(),
{
    if xs.len() >= 1 {
        let x_init = xs.drop_last();
        let y_init = ys.drop_last();
        assert forall|i: int| 0 <= i < x_init.len() implies same_but_blanks(
            #[trigger] x_init[i],
            y_init[i],
        ) by {
            assert(same_but_blanks(xs[i], ys[i]));
        }
        lemma_join_ended_same_but_blanks(x_init, y_init, end);
        assert(same_but_blanks(xs[xs.len() - 1], ys[ys.len() - 1]));
        lemma_without_blanks_add(join_ended(x_init, end), xs.last());
        lemma_without_blanks_add(join_ended(x_init, end) + xs.last(), end);
        lemma_without_blanks_add(join_ended(y_init, end), ys.last());
        lemma_without_blanks_add(join_ended(y_init, end) + ys.last(), end);
    }
}

} // verus!
