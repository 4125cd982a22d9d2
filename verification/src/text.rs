//! Texts: where their lines break, how wide they are, and how they are put
//! in a row.

use vstd::prelude::*;
use vstd::string::*;

verus! {

/// The line break.
pub open spec fn line_break() -> char {
    '\n'
}

/// Whether `text` holds a line break.
pub open spec fn has_line_break(text: Seq<char>) -> bool {
    exists|i: int| 0 <= i < text.len() && text[i] == line_break()
}

/// The number of characters after the last line break of `text`.
pub open spec fn last_line_width(text: Seq<char>) -> nat
    decreases text.len(),
{
    if text.len() == 0 || text.last() == line_break() {
        0
    } else {
        1 + last_line_width(text.drop_last())
    }
}

/// The number of characters in the widest line of `text`.
pub open spec fn widest_line(text: Seq<char>) -> nat
    decreases text.len(),
{
    if text.len() == 0 {
        0
    } else {
        let before = widest_line(text.drop_last());
        let last = last_line_width(text);
        if before >= last {
            before
        } else {
            last
        }
    }
}

/// The texts of `items` in order, with `sep` between each two.
pub open spec fn join(items: Seq<Seq<char>>, sep: Seq<char>) -> Seq<char>
    decreases items.len(),
{
    if items.len() == 0 {
        Seq::empty()
    } else if items.len() == 1 {
        items[0]
    } else {
        join(items.drop_last(), sep) + sep + items.last()
    }
}

/// The texts of `items` in order, each with `end` after it.
pub open spec fn join_ended(items: Seq<Seq<char>>, end: Seq<char>) -> Seq<char>
    decreases items.len(),
{
    if items.len() == 0 {
        Seq::empty()
    } else {
        join_ended(items.drop_last(), end) + items.last() + end
    }
}

/// The texts of `items` as a sequence of sequences of characters.
pub open spec fn texts(items: Seq<String>) -> Seq<Seq<char>> {
    Seq::new(items.len(), |i: int| items[i]@)
}

/// The text that `rendered` holds, if any.
pub open spec fn text_of(rendered: Option<String>) -> Option<Seq<char>> {
    match rendered {
        Some(text) => Some(text@),
        None => None,
    }
}

/// The texts of `items`, or `None` where one of them is missing.
pub open spec fn all_texts(items: Seq<Option<Seq<char>>>) -> Option<Seq<Seq<char>>> {
    if forall|i: int| 0 <= i < items.len() ==> (#[trigger] items[i]) is Some {
        Some(Seq::new(items.len(), |i: int| items[i].unwrap()))
    } else {
        None
    }
}

/// Measures the widest line of `text`.
pub fn widest_line_of(text: &str) -> (width: usize)
    ensures
        width == widest_line(text@),
{
    let len: usize = text.unicode_len();
    let mut widest: usize = 0;
    let mut current: usize = 0;
    for c in it: text.chars()
        invariant
            it.seq() == text@,
            len == text@.len(),
            current == last_line_width(text@.take(it.index() as int)),
            widest == widest_line(text@.take(it.index() as int)),
            current <= it.index(),
            widest <= it.index(),
    {
        proof {
            let k = it.index() as int;
            assert(text@.take(k + 1).drop_last() =~= text@.take(k));
            assert(text@.take(k + 1).last() == c);
        }
        if c == '\n' {
            current = 0;
        } else {
            current = current + 1;
        }
        if current > widest {
            widest = current;
        }
    }
    proof {
        assert(text@.take(text@.len() as int) =~= text@);
    }
    widest
}

/// Tests whether `text` holds a line break.
pub fn is_multiline(text: &str) -> (found: bool)
    ensures
        found == has_line_break(text@),
{
    let mut found = false;
    for c in it: text.chars()
        invariant
            it.seq() == text@,
            found == has_line_break(text@.take(it.index() as int)),
    {
        proof {
            let k = it.index() as int;
            let before = text@.take(k);
            let after = text@.take(k + 1);
            assert(after[k] == c);
            if has_line_break(before) {
                let i = choose|i: int| 0 <= i < before.len() && before[i] == line_break();
                assert(after[i] == line_break());
            }
            if has_line_break(after) && c != line_break() {
                let i = choose|i: int| 0 <= i < after.len() && after[i] == line_break();
                assert(before[i] == line_break());
            }
        }
        if c == '\n' {
            found = true;
        }
    }
    proof {
        assert(text@.take(text@.len() as int) =~= text@);
    }
    found
}

/// Joins `items` with `sep` between each two.
pub fn join_strings(items: &Vec<String>, sep: &str) -> (joined: String)
    ensures
        joined@ == join(texts(items@), sep@),
{
    let mut joined = String::new();
    let mut i: usize = 0;
    while i < items.len()
        invariant
            i <= items.len(),
            joined@ == join(texts(items@).take(i as int), sep@),
        decreases items.len() - i,
    {
        proof {
            let all = texts(items@);
            assert(all.take(i + 1).drop_last() =~= all.take(i as int));
            assert(all.take(i + 1).last() == items[i as int]@);
        }
        if i > 0 {
            joined.append(sep);
        }
        joined.append(items[i].as_str());
        i = i + 1;
    }
    proof {
        assert(texts(items@).take(items.len() as int) =~= texts(items@));
    }
    joined
}

/// Joins `items` with `end` after each.
pub fn join_ended_strings(items: &Vec<String>, end: &str) -> (joined: String)
    ensures
        joined@ == join_ended(texts(items@), end@),
{
    let mut joined = String::new();
    let mut i: usize = 0;
    while i < items.len()
        invariant
            i <= items.len(),
            joined@ == join_ended(texts(items@).take(i as int), end@),
        decreases items.len() - i,
    {
        proof {
            let all = texts(items@);
            assert(all.take(i + 1).drop_last() =~= all.take(i as int));
            assert(all.take(i + 1).last() == items[i as int]@);
        }
        joined.append(items[i].as_str());
        joined.append(end);
        i = i + 1;
    }
    proof {
        assert(texts(items@).take(items.len() as int) =~= texts(items@));
    }
    joined
}

} // verus!
