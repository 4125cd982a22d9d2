//! A budget that is wide enough gives the text that no limit gives: whoever
//! is told that a type does not fit can ask again with more room, and will
//! in the end be given its text on one line.

use crate::layout::{inline_layout, line_separator, separated_layout};
use crate::opt::WriteOpt;
use crate::parts::{
    lemma_join_breaks_lines, lemma_join_of_one, lemma_line_break_of_add, lemma_parts_of_join,
    lemma_parts_of_join_ended,
};
use crate::source::{
    arg_renders, arg_sources, field_renders, field_source, field_sources, kind_source,
    opt_ty_source, ty_source, variant_renders, variant_sources,
};
use crate::text::{has_line_break, join, join_ended, line_break};
use crate::types::{TupleField, Ty, TyKind};
use vstd::prelude::*;

verus! {

/// Whether `text` is of one line and fits on what is left of the current
/// line.
pub open spec fn fits_inline(text: Seq<char>, opt: WriteOpt) -> bool {
    !has_line_break(text) && opt.fits(text.len())
}

/// Without a width limit, a list whose layout is of one line is laid out
/// inline.
pub proof fn lemma_one_line_is_inline(
    items: Seq<Seq<char>>,
    open: Seq<char>,
    inline: Seq<char>,
    line_end: Seq<char>,
    close: Seq<char>,
    free: WriteOpt,
)
    requires
        free.is_unbounded(),
        separated_layout(
            Some(open + join(items, inline) + close),
            Some(open + join(items, line_separator(line_end)) + close),
            free,
        ) matches Some(text) && !has_line_break(text),
    ensures
        separated_layout(
            Some(open + join(items, inline) + close),
            Some(open + join(items, line_separator(line_end)) + close),
            free,
        ) == Some(open + join(items, inline) + close),
{
    let compact = open + join(items, inline) + close;
    if inline_layout(compact, free) is None {
        let lines = join(items, line_separator(line_end));
        lemma_line_break_of_add(open, lines);
        lemma_line_break_of_add(open + lines, close);
        assert(line_separator(line_end)[line_end.len() as int] == line_break());
        if items.len() >= 2 {
            lemma_join_breaks_lines(items, line_separator(line_end));
        } else {
            lemma_join_of_one(items, inline, line_separator(line_end));
        }
    }
}

/// A type whose text without a width limit is of one line and fits within a
/// budget has that text within the budget.
pub proof fn lemma_wide_budget_ty(ty: Ty, free: WriteOpt, opt: WriteOpt)
    requires
        free.is_unbounded(),
        ty_source(ty, free) matches Some(text) && fits_inline(text, opt),
    ensures
        ty_source(ty, opt) == ty_source(ty, free),
    decreases ty, 0int,
{
    if ty.name is None {
        lemma_wide_budget_kind(ty.kind, free, opt);
    }
}

/// A type, given or left to inference, whose text without a width limit is
/// of one line and fits within a budget has that text within the budget.
pub proof fn lemma_wide_budget_opt_ty(ty: Option<Ty>, free: WriteOpt, opt: WriteOpt)
    requires
        free.is_unbounded(),
        opt_ty_source(ty, free) matches Some(text) && fits_inline(text, opt),
    ensures
        opt_ty_source(ty, opt) == opt_ty_source(ty, free),
    decreases ty, 0int,
{
    if let Some(ty) = ty {
        lemma_wide_budget_ty(ty, free, opt);
    }
}

/// A field whose text without a width limit is of one line and fits within
/// a budget has that text within the budget.
pub proof fn lemma_wide_budget_field(field: TupleField, free: WriteOpt, opt: WriteOpt)
    requires
        free.is_unbounded(),
        field_source(field, free) matches Some(text) && fits_inline(text, opt),
    ensures
        field_source(field, opt) == field_source(field, free),
    decreases field, 0int,
{
    match field {
        TupleField::Wildcard(None) => {},
        TupleField::Wildcard(Some(ty)) => {
            lemma_line_break_of_add(ty_source(ty, free)->0, ".."@);
            lemma_wide_budget_ty(ty, free, opt);
        },
        TupleField::Single(name, ty) => {
            let prefix = match name {
                Some(name) => name@ + " = "@,
                None => Seq::empty(),
            };
            if let Some(ty) = ty {
                lemma_line_break_of_add(prefix, ty_source(ty, free)->0);
                lemma_wide_budget_ty(ty, free, opt);
            }
        },
    }
}

/// Variants whose texts without a width limit, joined, are of one line and
/// fit within a budget have those texts within the budget.
pub proof fn lemma_wide_budget_variants(
    variants: Seq<(Option<String>, Ty)>,
    sep: Seq<char>,
    free: WriteOpt,
    opt: WriteOpt,
)
    requires
        free.is_unbounded(),
        variant_sources(variants, free) matches Some(items) && fits_inline(join(items, sep), opt),
    ensures
        variant_sources(variants, opt) == variant_sources(variants, free),
    decreases variants, 1int,
{
    let items = variant_sources(variants, free)->0;
    assert forall|i: int| 0 <= i < variants.len() implies (#[trigger] variant_renders(
        variants,
        opt,
    )[i]) == Some(items[i]) by {
        assert(variant_renders(variants, free)[i] is Some);
        lemma_parts_of_join(items, sep, i);
        lemma_wide_budget_ty(variants[i].1, free, opt);
    }
    assert forall|i: int| 0 <= i < variants.len() implies (#[trigger] variant_renders(
        variants,
        opt,
    )[i]) is Some by {}
    assert(variant_sources(variants, opt) is Some);
    assert(variant_sources(variants, opt)->0 =~= items);
}

/// Fields whose texts without a width limit, joined, are of one line and
/// fit within a budget have those texts within the budget.
pub proof fn lemma_wide_budget_fields(
    fields: Seq<TupleField>,
    sep: Seq<char>,
    free: WriteOpt,
    opt: WriteOpt,
)
    requires
        free.is_unbounded(),
        field_sources(fields, free) matches Some(items) && fits_inline(join(items, sep), opt),
    ensures
        field_sources(fields, opt) == field_sources(fields, free),
    decreases fields, 1int,
{
    let items = field_sources(fields, free)->0;
    assert forall|i: int| 0 <= i < fields.len() implies (#[trigger] field_renders(fields, opt)[i])
        == Some(items[i]) by {
        assert(field_renders(fields, free)[i] is Some);
        lemma_parts_of_join(items, sep, i);
        lemma_wide_budget_field(fields[i], free, opt);
    }
    assert forall|i: int| 0 <= i < fields.len() implies (#[trigger] field_renders(fields, opt)[i])
        is Some by {}
    assert(field_sources(fields, opt) is Some);
    assert(field_sources(fields, opt)->0 =~= items);
}

/// Argument types whose texts without a width limit, in a row, are of one
/// line and fit within a budget have those texts within the budget.
pub proof fn lemma_wide_budget_args(
    args: Seq<Option<Ty>>,
    end: Seq<char>,
    free: WriteOpt,
    opt: WriteOpt,
)
    requires
        free.is_unbounded(),
        arg_sources(args, free) matches Some(items) && fits_inline(join_ended(items, end), opt),
    ensures
        arg_sources(args, opt) == arg_sources(args, free),
    decreases args, 1int,
{
    let items = arg_sources(args, free)->0;
    assert forall|i: int| 0 <= i < args.len() implies (#[trigger] arg_renders(args, opt)[i])
        == Some(items[i]) by {
        assert(arg_renders(args, free)[i] is Some);
        lemma_parts_of_join_ended(items, end, i);
        lemma_wide_budget_opt_ty(args[i], free, opt);
    }
    assert forall|i: int| 0 <= i < args.len() implies (#[trigger] arg_renders(args, opt)[i])
        is Some by {}
    assert(arg_sources(args, opt) is Some);
    assert(arg_sources(args, opt)->0 =~= items);
}

/// A kind of type whose text without a width limit is of one line and fits
/// within a budget has that text within the budget.
pub proof fn lemma_wide_budget_kind(kind: TyKind, free: WriteOpt, opt: WriteOpt)
    requires
        free.is_unbounded(),
        kind_source(kind, free) matches Some(text) && fits_inline(text, opt),
    ensures
        kind_source(kind, opt) == kind_source(kind, free),
    decreases kind, 0int,
{
    match kind {
        TyKind::Primitive(_) => {},
        TyKind::Singleton(_) => {},
        TyKind::TypeSet => {},
        TyKind::Union(variants) => {
            let variants = variants@;
            let items = variant_sources(variants, free)->0;
            let none = Seq::<char>::empty();
            assert(none + join(items, " || "@) + none =~= join(items, " || "@));
            assert(none + join(items, line_separator(" ||"@)) + none =~= join(
                items,
                line_separator(" ||"@),
            ));
            lemma_one_line_is_inline(items, none, " || "@, " ||"@, none, free);
            lemma_wide_budget_variants(variants, " || "@, free, opt);
        },
        TyKind::Tuple(fields) => {
            let fields = fields@;
            let items = field_sources(fields, free)->0;
            lemma_one_line_is_inline(items, "{"@, ", "@, ","@, "}"@, free);
            let list = join(items, ", "@);
            lemma_line_break_of_add("{"@, list);
            lemma_line_break_of_add("{"@ + list, "}"@);
            lemma_wide_budget_fields(fields, ", "@, free, opt);
        },
        TyKind::Array(elem) => {
            let text = ty_source(*elem, free)->0;
            lemma_line_break_of_add("["@, text);
            lemma_line_break_of_add("["@ + text, "]"@);
            lemma_wide_budget_ty(*elem, free, opt);
        },
        TyKind::Function(func) => {
            let args = arg_sources(func.args@, free)->0;
            let ret = opt_ty_source(*func.return_ty, free)->0;
            lemma_line_break_of_add(join_ended(args, " "@), "-> "@);
            lemma_line_break_of_add(join_ended(args, " "@) + "-> "@, ret);
            lemma_wide_budget_args(func.args@, " "@, free, opt);
            lemma_wide_budget_opt_ty(*func.return_ty, free, opt);
        },
    }
}

} // verus!
