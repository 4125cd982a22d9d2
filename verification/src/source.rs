//! What a type looks like as source text within a width budget.
//!
//! The text of a type is a function of the type and the budget alone. It is
//! `None` where the type does not fit: a name, a primitive, a literal and a
//! field without a type always have a text; an array, a function and a field
//! with a type have one where their parts have one within the same budget; a
//! union and a tuple have one where one of their two layouts fits. The items
//! of the inline layout are rendered within the budget of the list, those of
//! the expanded layout at the start of a line that keeps room for what stands
//! around an item: the line end, and for a tuple a brace.

use crate::layout::{line_separator, separated_layout};
use crate::opt::WriteOpt;
use crate::text::{all_texts, join, join_ended};
use crate::types::{TupleField, Ty, TyKind};
use vstd::prelude::*;

verus! {

/// The source text of `ty`: its name where it has one, else that of its kind.
pub open spec fn ty_source(ty: Ty, opt: WriteOpt) -> Option<Seq<char>>
    decreases ty, 0int,
{
    match ty.name {
        Some(name) => Some(name@),
        None => kind_source(ty.kind, opt),
    }
}

/// The source text of a type that may be left to inference.
pub open spec fn opt_ty_source(ty: Option<Ty>, opt: WriteOpt) -> Option<Seq<char>>
    decreases ty, 0int,
{
    match ty {
        Some(ty) => ty_source(ty, opt),
        None => Some("infer"@),
    }
}

/// What each variant's type renders to within `opt`.
pub open spec fn variant_renders(variants: Seq<(Option<String>, Ty)>, opt: WriteOpt) -> Seq<
    Option<Seq<char>>,
>
    decreases variants, 0int,
{
    Seq::new(
        variants.len(),
        |i: int|
            if 0 <= i < variants.len() {
                ty_source(variants[i].1, opt)
            } else {
                None
            },
    )
}

/// What each field renders to within `opt`.
pub open spec fn field_renders(fields: Seq<TupleField>, opt: WriteOpt) -> Seq<Option<Seq<char>>>
    decreases fields, 0int,
{
    Seq::new(
        fields.len(),
        |i: int|
            if 0 <= i < fields.len() {
                field_source(fields[i], opt)
            } else {
                None
            },
    )
}

/// What each argument type renders to within `opt`.
pub open spec fn arg_renders(args: Seq<Option<Ty>>, opt: WriteOpt) -> Seq<Option<Seq<char>>>
    decreases args, 0int,
{
    Seq::new(
        args.len(),
        |i: int|
            if 0 <= i < args.len() {
                opt_ty_source(args[i], opt)
            } else {
                None
            },
    )
}

/// The source texts of the types of `variants`, each within `opt`; `None`
/// where one of them does not fit.
pub open spec fn variant_sources(variants: Seq<(Option<String>, Ty)>, opt: WriteOpt) -> Option<
    Seq<Seq<char>>,
>
    decreases variants, 1int,
{
    all_texts(variant_renders(variants, opt))
}

/// The source texts of `fields`, each within `opt`; `None` where one of them
/// does not fit.
pub open spec fn field_sources(fields: Seq<TupleField>, opt: WriteOpt) -> Option<Seq<Seq<char>>>
    decreases fields, 1int,
{
    all_texts(field_renders(fields, opt))
}

/// The source texts of the argument types `args`, each within `opt`; `None`
/// where one of them does not fit.
pub open spec fn arg_sources(args: Seq<Option<Ty>>, opt: WriteOpt) -> Option<Seq<Seq<char>>>
    decreases args, 1int,
{
    all_texts(arg_renders(args, opt))
}

/// The source text of a union: the types of the variants, separated by
/// `||`, on one line where that fits there, else a variant a line.
pub open spec fn union_source(variants: Seq<(Option<String>, Ty)>, opt: WriteOpt) -> Option<
    Seq<char>,
>
    decreases variants, 2int,
{
    separated_layout(
        match variant_sources(variants, opt) {
            Some(items) => Some(join(items, " || "@)),
            None => None,
        },
        match variant_sources(variants, opt.fresh_line(" ||"@.len())) {
            Some(items) => Some(join(items, line_separator(" ||"@))),
            None => None,
        },
        opt,
    )
}

/// The source text of a tuple: the fields between braces, separated by
/// commas, on one line where that fits there, else a field a line.
pub open spec fn tuple_source(fields: Seq<TupleField>, opt: WriteOpt) -> Option<Seq<char>>
    decreases fields, 2int,
{
    separated_layout(
        match field_sources(fields, opt) {
            Some(items) => Some("{"@ + join(items, ", "@) + "}"@),
            None => None,
        },
        match field_sources(fields, opt.fresh_line("{"@.len() + ","@.len())) {
            Some(items) => Some("{"@ + join(items, line_separator(","@)) + "}"@),
            None => None,
        },
        opt,
    )
}

/// The source text of `kind`.
pub open spec fn kind_source(kind: TyKind, opt: WriteOpt) -> Option<Seq<char>>
    decreases kind, 0int,
{
    match kind {
        TyKind::Primitive(prim) => Some(prim.tag()),
        TyKind::Singleton(lit) => Some(lit.text@),
        TyKind::TypeSet => Some("set"@),
        TyKind::Union(variants) => union_source(variants@, opt),
        TyKind::Tuple(fields) => tuple_source(fields@, opt),
        TyKind::Array(elem) => match ty_source(*elem, opt) {
            Some(text) => Some("["@ + text + "]"@),
            None => None,
        },
        TyKind::Function(func) => match (
            arg_sources(func.args@, opt),
            opt_ty_source(*func.return_ty, opt),
        ) {
            (Some(args), Some(ret)) => Some(join_ended(args, " "@) + "-> "@ + ret),
            _ => None,
        },
    }
}

/// The source text of a field of a tuple.
pub open spec fn field_source(field: TupleField, opt: WriteOpt) -> Option<Seq<char>>
    decreases field, 0int,
{
    match field {
        TupleField::Wildcard(None) => Some("*.."@),
        TupleField::Wildcard(Some(ty)) => match ty_source(ty, opt) {
            Some(text) => Some(text + ".."@),
            None => None,
        },
        TupleField::Single(name, ty) => {
            let prefix = match name {
                Some(name) => name@ + " = "@,
                None => Seq::empty(),
            };
            match ty {
                Some(ty) => match ty_source(ty, opt) {
                    Some(text) => Some(prefix + text),
                    None => None,
                },
                None => Some(prefix + "?"@),
            }
        },
    }
}

} // verus!
