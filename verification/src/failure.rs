//! How a part that does not fit makes the whole not fit.

use crate::opt::WriteOpt;
use crate::source::{
    arg_renders, field_renders, field_source, kind_source, opt_ty_source, tuple_source,
    ty_source, union_source, variant_renders,
};
use crate::types::{TupleField, Ty, TyFunc, TyKind};
use vstd::prelude::*;

verus! {

/// An array whose element type does not fit within a budget does not fit
/// within it either.
pub proof fn lemma_array_fails_with_element(elem: Ty, opt: WriteOpt)
    requires
        ty_source(elem, opt) is None,
    ensures
        kind_source(TyKind::Array(Box::new(elem)), opt) is None,
{
}

/// A function type of which an argument type does not fit within a budget
/// does not fit within it either.
pub proof fn lemma_function_fails_with_argument(func: TyFunc, i: int, opt: WriteOpt)
    requires
        0 <= i < func.args@.len(),
        opt_ty_source(func.args@[i], opt) is None,
    ensures
        kind_source(TyKind::Function(func), opt) is None,
{
    assert(arg_renders(func.args@, opt)[i] is None);
}

/// A function type whose return type does not fit within a budget does not
/// fit within it either.
pub proof fn lemma_function_fails_with_return(func: TyFunc, opt: WriteOpt)
    requires
        opt_ty_source(*func.return_ty, opt) is None,
    ensures
        kind_source(TyKind::Function(func), opt) is None,
{
}

/// A field of a tuple whose type does not fit within a budget does not fit
/// within it either.
pub proof fn lemma_field_fails_with_type(field: TupleField, opt: WriteOpt)
    requires
        field.ty() matches Some(ty) && ty_source(ty, opt) is None,
    ensures
        field_source(field, opt) is None,
{
}

/// A union of which a variant fits neither within the budget nor at the
/// start of a line does not fit within the budget.
pub proof fn lemma_union_fails_with_variant(
    variants: Seq<(Option<String>, Ty)>,
    i: int,
    opt: WriteOpt,
)
    requires
        0 <= i < variants.len(),
        ty_source(variants[i].1, opt) is None,
        ty_source(variants[i].1, opt.fresh_line(" ||"@.len())) is None,
    ensures
        union_source(variants, opt) is None,
{
    assert(variant_renders(variants, opt)[i] is None);
    assert(variant_renders(variants, opt.fresh_line(" ||"@.len()))[i] is None);
}

/// A tuple of which a field fits neither within the budget nor at the start
/// of a line does not fit within the budget.
pub proof fn lemma_tuple_fails_with_field(fields: Seq<TupleField>, i: int, opt: WriteOpt)
    requires
        0 <= i < fields.len(),
        field_source(fields[i], opt) is None,
        field_source(fields[i], opt.fresh_line("{"@.len() + ","@.len())) is None,
    ensures
        tuple_source(fields, opt) is None,
{
    assert(field_renders(fields, opt)[i] is None);
    assert(field_renders(fields, opt.fresh_line("{"@.len() + ","@.len()))[i] is None);
}

} // verus!
