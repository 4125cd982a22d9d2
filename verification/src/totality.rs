//! Where a source text is owed: without a width limit always, and for names
//! and fields without a type within every budget.

use crate::layout::{line_separator, separated_layout};
use crate::opt::WriteOpt;
use crate::source::{
    arg_renders, arg_sources, field_renders, field_source, field_sources, kind_source,
    opt_ty_source, ty_source, variant_renders, variant_sources,
};
use crate::text::join;
use crate::types::{TupleField, Ty, TyKind};
use vstd::prelude::*;

verus! {

/// Without a width limit every type has a source text.
pub proof fn lemma_unbounded_ty_has_source(ty: Ty, opt: WriteOpt)
    requires
        opt.is_unbounded(),
    ensures
        ty_source(ty, opt) is Some,
    decreases ty, 0int,
{
    if ty.name is None {
        lemma_unbounded_kind_has_source(ty.kind, opt);
    }
}

/// Without a width limit every type, given or left to inference, has a
/// source text.
pub proof fn lemma_unbounded_opt_ty_has_source(ty: Option<Ty>, opt: WriteOpt)
    requires
        opt.is_unbounded(),
    ensures
        opt_ty_source(ty, opt) is Some,
    decreases ty, 0int,
{
    if let Some(ty) = ty {
        lemma_unbounded_ty_has_source(ty, opt);
    }
}

/// Without a width limit every kind of type has a source text.
pub proof fn lemma_unbounded_kind_has_source(kind: TyKind, opt: WriteOpt)
    requires
        opt.is_unbounded(),
    ensures
        kind_source(kind, opt) is Some,
    decreases kind, 0int,
{
    match kind {
        TyKind::Primitive(_) => {},
        TyKind::Singleton(_) => {},
        TyKind::TypeSet => {},
        TyKind::Union(variants) => {
            let variants = variants@;
            assert forall|i: int| 0 <= i < variants.len() implies (#[trigger] variant_renders(
                variants,
                opt,
            )[i]) is Some by {
                lemma_unbounded_ty_has_source(variants[i].1, opt);
            }
            assert(variant_sources(variants, opt) is Some);
            let items = variant_sources(variants, opt)->0;
            lemma_unbounded_list_has_layout(
                Some(join(items, " || "@)),
                Some(join(items, line_separator(" ||"@))),
                opt,
            );
        },
        TyKind::Tuple(fields) => {
            let fields = fields@;
            assert forall|i: int| 0 <= i < fields.len() implies (#[trigger] field_renders(
                fields,
                opt,
            )[i]) is Some by {
                lemma_unbounded_field_has_source(fields[i], opt);
            }
            assert(field_sources(fields, opt) is Some);
            let items = field_sources(fields, opt)->0;
            lemma_unbounded_list_has_layout(
                Some("{"@ + join(items, ", "@) + "}"@),
                Some("{"@ + join(items, line_separator(","@)) + "}"@),
                opt,
            );
        },
        TyKind::Array(elem) => {
            lemma_unbounded_ty_has_source(*elem, opt);
        },
        TyKind::Function(func) => {
            let args = func.args@;
            assert forall|i: int| 0 <= i < args.len() implies (#[trigger] arg_renders(
                args,
                opt,
            )[i]) is Some by {
                lemma_unbounded_opt_ty_has_source(args[i], opt);
            }
            assert(arg_sources(args, opt) is Some);
            lemma_unbounded_opt_ty_has_source(*func.return_ty, opt);
        },
    }
}

/// Without a width limit every field of a tuple has a source text.
pub proof fn lemma_unbounded_field_has_source(field: TupleField, opt: WriteOpt)
    requires
        opt.is_unbounded(),
    ensures
        field_source(field, opt) is Some,
    decreases field, 0int,
{
    match field {
        TupleField::Wildcard(Some(ty)) => lemma_unbounded_ty_has_source(ty, opt),
        TupleField::Wildcard(None) => {},
        TupleField::Single(_, Some(ty)) => lemma_unbounded_ty_has_source(ty, opt),
        TupleField::Single(_, None) => {},
    }
}

/// Without a width limit a list whose items could be rendered a line each
/// has a layout.
pub proof fn lemma_unbounded_list_has_layout(
    compact: Option<Seq<char>>,
    expanded: Option<Seq<char>>,
    opt: WriteOpt,
)
    requires
        opt.is_unbounded(),
        expanded is Some,
    ensures
        separated_layout(compact, expanded, opt) is Some,
{
}

/// A field of a tuple that has no type has a source text within every
/// budget, and that text is not empty.
pub proof fn lemma_untyped_field_has_source(field: TupleField, opt: WriteOpt)
    requires
        field.ty() is None,
    ensures
        field_source(field, opt) matches Some(text) && text.len() > 0,
{
    reveal_strlit("*..");
    reveal_strlit("?");
}

/// A type that has a name is written as that name, whatever its kind and
/// whatever the budget.
pub proof fn lemma_name_stands_for_type(ty: Ty, opt: WriteOpt)
    requires
        ty.name is Some,
    ensures
        ty_source(ty, opt) == Some(ty.name->0@),
{
}

} // verus!
