//! When a union or a tuple is written, and that what is written keeps to the
//! width of a line.

use crate::layout::{lemma_separated_is_either, line_separator, separated_layout};
use crate::opt::WriteOpt;
use crate::source::{field_sources, tuple_source, union_source, variant_sources};
use crate::text::{join, widest_line};
use crate::types::{TupleField, Ty};
use crate::widths::{
    lemma_last_line_of_add, lemma_lines_fit, lemma_lines_keep_to_width, lemma_widest_line_of_add,
    lemma_widths_bounded,
};
use vstd::prelude::*;

verus! {

/// A list laid out within a budget that leaves the current line no more
/// room than a whole line has no line wider than a line may be.
pub proof fn lemma_layout_keeps_to_width(
    compact: Option<Seq<char>>,
    expanded: Option<Seq<char>>,
    opt: WriteOpt,
)
    requires
        opt.wf(),
        separated_layout(compact, expanded, opt) is Some,
    ensures
        opt.fits_line(widest_line(separated_layout(compact, expanded, opt)->0)),
{
    if lemma_separated_is_either(compact, expanded, opt) {
        lemma_widths_bounded(compact->0);
    }
}

/// A union that is written within a budget that leaves the current line no
/// more room than a whole line has no line wider than a line may be.
pub proof fn lemma_union_keeps_to_width(variants: Seq<(Option<String>, Ty)>, opt: WriteOpt)
    requires
        opt.wf(),
        union_source(variants, opt) is Some,
    ensures
        opt.fits_line(widest_line(union_source(variants, opt)->0)),
{
    lemma_layout_keeps_to_width(
        match variant_sources(variants, opt) {
            Some(items) => Some(join(items, " || "@)),
            None => None,
        },
        match variant_sources(variants, opt.fresh_line(" ||"@.len())) {
            Some(items) => Some(join(items, line_separator(" ||"@))),
            None => None,
        },
        opt,
    );
}

/// A tuple that is written within a budget that leaves the current line no
/// more room than a whole line has no line wider than a line may be.
pub proof fn lemma_tuple_keeps_to_width(fields: Seq<TupleField>, opt: WriteOpt)
    requires
        opt.wf(),
        tuple_source(fields, opt) is Some,
    ensures
        opt.fits_line(widest_line(tuple_source(fields, opt)->0)),
{
    lemma_layout_keeps_to_width(
        match field_sources(fields, opt) {
            Some(items) => Some("{"@ + join(items, ", "@) + "}"@),
            None => None,
        },
        match field_sources(fields, opt.fresh_line("{"@.len() + ","@.len())) {
            Some(items) => Some("{"@ + join(items, line_separator(","@)) + "}"@),
            None => None,
        },
        opt,
    );
}

/// A union is written wherever its variants are written at the start of a
/// line and each of them fits on a line, all but the last with ` ||` after
/// it.
pub proof fn lemma_union_is_owed(variants: Seq<(Option<String>, Ty)>, opt: WriteOpt)
    requires
        variant_sources(variants, opt.fresh_line(" ||"@.len())) is Some,
        ({
            let items = variant_sources(variants, opt.fresh_line(" ||"@.len()))->0;
            forall|i: int|
                0 <= i < items.len() ==> opt.fits_line(
                    widest_line(#[trigger] items[i]) + if i < items.len() - 1 {
                        " ||"@.len()
                    } else {
                        0
                    },
                )
        }),
    ensures
        union_source(variants, opt) is Some,
{
    let items = variant_sources(variants, opt.fresh_line(" ||"@.len()))->0;
    if let Some(max) = opt.max_width {
        assert forall|i: int| 0 <= i < items.len() - 1 implies widest_line(#[trigger] items[i])
            + " ||"@.len() <= max by {
            assert(opt.fits_line(widest_line(items[i]) + " ||"@.len()));
        }
        if items.len() > 0 {
            assert(opt.fits_line(widest_line(items[items.len() - 1]) + 0));
        }
        lemma_lines_fit(items, " ||"@, max as nat);
    }
}

/// A tuple is written wherever its fields are written at the start of a
/// line, a line has room for the braces, and each field fits on a line
/// together with a brace and a comma.
pub proof fn lemma_tuple_is_owed(fields: Seq<TupleField>, opt: WriteOpt)
    requires
        opt.fits_line(2),
        field_sources(fields, opt.fresh_line("{"@.len() + ","@.len())) is Some,
        ({
            let items = field_sources(fields, opt.fresh_line("{"@.len() + ","@.len()))->0;
            forall|i: int|
                0 <= i < items.len() ==> opt.fits_line(widest_line(#[trigger] items[i]) + 2)
        }),
    ensures
        tuple_source(fields, opt) is Some,
{
    reveal_strlit("{");
    reveal_strlit("}");
    reveal_strlit(",");
    let items = field_sources(fields, opt.fresh_line("{"@.len() + ","@.len()))->0;
    if let Some(max) = opt.max_width {
        assert forall|i: int| 0 <= i < items.len() implies widest_line(#[trigger] items[i])
            + ","@.len() <= max - 1 by {
            assert(opt.fits_line(widest_line(items[i]) + 2));
        }
        lemma_lines_keep_to_width(items, ","@, (max - 1) as nat);
        let list = join(items, line_separator(","@));
        lemma_widest_line_of_add("{"@, list);
        lemma_widest_line_of_add("{"@ + list, "}"@);
        lemma_widths_bounded("{"@);
        lemma_widths_bounded("}"@);
        lemma_last_line_of_add("{"@, list);
    }
}

} // verus!
