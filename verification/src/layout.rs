//! The two layouts of a list: on one line, or an item a line.
//!
//! The inline layout has to be one line and to fit on what is left of the
//! current line. The expanded layout breaks the line after every item but the
//! last; it is taken wherever the inline layout is not, and has to keep every
//! one of its lines to the width of a line.

use crate::opt::WriteOpt;
use crate::text::{
    has_line_break, is_multiline, join, join_strings, line_break, text_of, texts, widest_line,
    widest_line_of,
};
use vstd::prelude::*;
use vstd::string::*;

verus! {

/// `text` as the inline layout: where it is one line and the current line
/// has room for it.
pub open spec fn inline_layout(text: Seq<char>, opt: WriteOpt) -> Option<Seq<char>> {
    if !has_line_break(text) && opt.fits(text.len()) {
        Some(text)
    } else {
        None
    }
}

/// `text` as the expanded layout: where none of its lines is wider than a
/// line may be.
pub open spec fn expanded_layout(text: Seq<char>, opt: WriteOpt) -> Option<Seq<char>> {
    if opt.fits_line(widest_line(text)) {
        Some(text)
    } else {
        None
    }
}

/// What stands between two items of the expanded layout: `line_end` and a
/// line break.
pub open spec fn line_separator(line_end: Seq<char>) -> Seq<char> {
    line_end.push(line_break())
}

/// The layout of a list of which `compact` is the text on one line and
/// `expanded` the text with an item a line, as far as the items could be
/// rendered for them: `compact` where it is an inline layout, else `expanded`
/// where it is an expanded one.
pub open spec fn separated_layout(
    compact: Option<Seq<char>>,
    expanded: Option<Seq<char>>,
    opt: WriteOpt,
) -> Option<Seq<char>> {
    let inline = match compact {
        Some(text) => inline_layout(text, opt),
        None => None,
    };
    if inline is Some {
        inline
    } else {
        match expanded {
            Some(text) => expanded_layout(text, opt),
            None => None,
        }
    }
}

/// Keeps `text` where it is an inline layout within `opt`.
pub fn write_inline(text: String, opt: WriteOpt) -> (kept: Option<String>)
    ensures
        text_of(kept) == inline_layout(text@, opt),
{
    if is_multiline(text.as_str()) {
        return None;
    }
    let width = text.as_str().unicode_len();
    if opt.has_room(width) {
        Some(text)
    } else {
        None
    }
}

/// Keeps `text` where it is an expanded layout within `opt`.
pub fn write_expanded(text: String, opt: WriteOpt) -> (kept: Option<String>)
    ensures
        text_of(kept) == expanded_layout(text@, opt),
{
    let width = widest_line_of(text.as_str());
    if opt.has_line_room(width) {
        Some(text)
    } else {
        None
    }
}

/// Joins `items` a line each, with `line_end` at the end of each line but
/// the last.
pub fn join_lines(items: &Vec<String>, line_end: &str) -> (joined: String)
    ensures
        joined@ == join(texts(items@), line_separator(line_end@)),
{
    let mut separator = String::from_str(line_end);
    separator.append("\n");
    proof {
        reveal_strlit("\n");
        assert(separator@ =~= line_separator(line_end@));
    }
    join_strings(items, separator.as_str())
}

/// A list whose text on one line fits is laid out inline.
pub proof fn lemma_inline_is_preferred(
    compact: Seq<char>,
    expanded: Option<Seq<char>>,
    opt: WriteOpt,
)
    requires
        !has_line_break(compact),
        opt.fits(compact.len()),
    ensures
        separated_layout(Some(compact), expanded, opt) == Some(compact),
{
}

/// A list that is laid out is laid out in one of two ways: on one line,
/// which fits on the current line, or an item a line, no line wider than a
/// line may be. The result says which.
pub proof fn lemma_separated_is_either(
    compact: Option<Seq<char>>,
    expanded: Option<Seq<char>>,
    opt: WriteOpt,
) -> (is_inline: bool)
    requires
        separated_layout(compact, expanded, opt) is Some,
    ensures
        is_inline ==> {
            &&& compact is Some
            &&& !has_line_break(compact->0)
            &&& opt.fits(compact->0.len())
            &&& separated_layout(compact, expanded, opt) == compact
        },
        !is_inline ==> {
            &&& expanded is Some
            &&& opt.fits_line(widest_line(expanded->0))
            &&& separated_layout(compact, expanded, opt) == expanded
        },
{
    match compact {
        Some(text) => inline_layout(text, opt) is Some,
        None => false,
    }
}

} // verus!
