//! The budget decides where lines break and nothing else: the source texts of
//! one type within any two budgets hold the same items in the same order and
//! are the same but for blanks, so that whatever reads them and ignores blanks
//! reads them as the same thing.

use crate::blanks::{
    all_same_but_blanks, lemma_join_ended_same_but_blanks, lemma_join_same_but_blanks,
    lemma_without_blanks_add, lemma_without_blanks_push_blank, same_but_blanks,
};
use crate::layout::{lemma_separated_is_either, line_separator};
use crate::opt::WriteOpt;
use crate::source::{
    arg_renders, arg_sources, field_renders, field_source, field_sources, kind_source,
    opt_ty_source, tuple_source, ty_source, union_source, variant_renders, variant_sources,
};
use crate::text::{join, join_ended};
use crate::types::{TupleField, Ty, TyKind};
use vstd::prelude::*;

verus! {

/// The two separators of a union are the same but for blanks.
pub proof fn lemma_union_separators_agree()
    ensures
        same_but_blanks(" || "@, line_separator(" ||"@)),
{
    reveal_strlit(" || ");
    reveal_strlit(" ||");
    assert(" || "@ =~= " ||"@.push(' '));
    lemma_without_blanks_push_blank(" ||"@, ' ');
    lemma_without_blanks_push_blank(" ||"@, '\n');
}

/// The two separators of a tuple are the same but for blanks.
pub proof fn lemma_tuple_separators_agree()
    ensures
        same_but_blanks(", "@, line_separator(","@)),
{
    reveal_strlit(", ");
    reveal_strlit(",");
    assert(", "@ =~= ","@.push(' '));
    lemma_without_blanks_push_blank(","@, ' ');
    lemma_without_blanks_push_blank(","@, '\n');
}

/// A union that is written is the texts of its variants in order, joined by
/// ` || ` on one line or by ` ||` and a line break. The result says which.
pub proof fn lemma_union_is_joined(
    variants: Seq<(Option<String>, Ty)>,
    opt: WriteOpt,
) -> (is_inline: bool)
    requires
        union_source(variants, opt) is Some,
    ensures
        is_inline ==> {
            &&& variant_sources(variants, opt) is Some
            &&& union_source(variants, opt) == Some(
                join(variant_sources(variants, opt)->0, " || "@),
            )
        },
        !is_inline ==> {
            &&& variant_sources(variants, opt.fresh_line(" ||"@.len())) is Some
            &&& union_source(variants, opt) == Some(
                join(
                    variant_sources(variants, opt.fresh_line(" ||"@.len()))->0,
                    line_separator(" ||"@),
                ),
            )
        },
{
    lemma_separated_is_either(
        match variant_sources(variants, opt) {
            Some(items) => Some(join(items, " || "@)),
            None => None,
        },
        match variant_sources(variants, opt.fresh_line(" ||"@.len())) {
            Some(items) => Some(join(items, line_separator(" ||"@))),
            None => None,
        },
        opt,
    )
}

/// A tuple that is written is the texts of its fields in order between
/// braces, joined by `, ` on one line or by `,` and a line break. The result
/// says which.
pub proof fn lemma_tuple_is_joined(fields: Seq<TupleField>, opt: WriteOpt) -> (is_inline: bool)
    requires
        tuple_source(fields, opt) is Some,
    ensures
        is_inline ==> {
            &&& field_sources(fields, opt) is Some
            &&& tuple_source(fields, opt) == Some(
                "{"@ + join(field_sources(fields, opt)->0, ", "@) + "}"@,
            )
        },
        !is_inline ==> {
            &&& field_sources(fields, opt.fresh_line("{"@.len() + ","@.len())) is Some
            &&& tuple_source(fields, opt) == Some(
                "{"@ + join(
                    field_sources(fields, opt.fresh_line("{"@.len() + ","@.len()))->0,
                    line_separator(","@),
                ) + "}"@,
            )
        },
{
    lemma_separated_is_either(
        match field_sources(fields, opt) {
            Some(items) => Some("{"@ + join(items, ", "@) + "}"@),
            None => None,
        },
        match field_sources(fields, opt.fresh_line("{"@.len() + ","@.len())) {
            Some(items) => Some("{"@ + join(items, line_separator(","@)) + "}"@),
            None => None,
        },
        opt,
    )
}

/// The text of a union on one line and its text with a variant a line are
/// the same but for blanks, whatever the budgets that the variants were
/// rendered within.
pub proof fn lemma_union_layouts_agree(
    variants: Seq<(Option<String>, Ty)>,
    a: WriteOpt,
    b: WriteOpt,
)
    requires
        variant_sources(variants, a) is Some,
        variant_sources(variants, b) is Some,
    ensures
        same_but_blanks(
            join(variant_sources(variants, a)->0, " || "@),
            join(variant_sources(variants, b)->0, line_separator(" ||"@)),
        ),
        same_but_blanks(
            join(variant_sources(variants, a)->0, " || "@),
            join(variant_sources(variants, b)->0, " || "@),
        ),
        same_but_blanks(
            join(variant_sources(variants, a)->0, line_separator(" ||"@)),
            join(variant_sources(variants, b)->0, line_separator(" ||"@)),
        ),
    decreases variants, 2int,
{
    let xs = variant_sources(variants, a)->0;
    let ys = variant_sources(variants, b)->0;
    lemma_variant_sources_agree(variants, a, b);
    lemma_union_separators_agree();
    lemma_join_same_but_blanks(xs, ys, " || "@, line_separator(" ||"@));
    lemma_join_same_but_blanks(xs, ys, " || "@, " || "@);
    lemma_join_same_but_blanks(xs, ys, line_separator(" ||"@), line_separator(" ||"@));
}

/// The text of a tuple on one line and its text with a field a line are the
/// same but for blanks, whatever the budgets that the fields were rendered
/// within.
pub proof fn lemma_tuple_layouts_agree(fields: Seq<TupleField>, a: WriteOpt, b: WriteOpt)
    requires
        field_sources(fields, a) is Some,
        field_sources(fields, b) is Some,
    ensures
        same_but_blanks(
            "{"@ + join(field_sources(fields, a)->0, ", "@) + "}"@,
            "{"@ + join(field_sources(fields, b)->0, line_separator(","@)) + "}"@,
        ),
        same_but_blanks(
            "{"@ + join(field_sources(fields, a)->0, ", "@) + "}"@,
            "{"@ + join(field_sources(fields, b)->0, ", "@) + "}"@,
        ),
        same_but_blanks(
            "{"@ + join(field_sources(fields, a)->0, line_separator(","@)) + "}"@,
            "{"@ + join(field_sources(fields, b)->0, line_separator(","@)) + "}"@,
        ),
    decreases fields, 2int,
{
    let xs = field_sources(fields, a)->0;
    let ys = field_sources(fields, b)->0;
    lemma_field_lists_agree(fields, a, b);
    lemma_tuple_separators_agree();
    lemma_join_same_but_blanks(xs, ys, ", "@, line_separator(","@));
    lemma_join_same_but_blanks(xs, ys, ", "@, ", "@);
    lemma_join_same_but_blanks(xs, ys, line_separator(","@), line_separator(","@));
    lemma_in_braces_same_but_blanks(join(xs, ", "@), join(ys, line_separator(","@)));
    lemma_in_braces_same_but_blanks(join(xs, ", "@), join(ys, ", "@));
    lemma_in_braces_same_but_blanks(
        join(xs, line_separator(","@)),
        join(ys, line_separator(","@)),
    );
}

/// Two lists that are the same but for blanks are so between braces.
pub proof fn lemma_in_braces_same_but_blanks(a: Seq<char>, b: Seq<char>)
    requires
        same_but_blanks(a, b),
    ensures
        same_but_blanks("{"@ + a + "}"@, "{"@ + b + "}"@),
{
    lemma_without_blanks_add("{"@, a);
    lemma_without_blanks_add("{"@ + a, "}"@);
    lemma_without_blanks_add("{"@, b);
    lemma_without_blanks_add("{"@ + b, "}"@);
}

/// The source texts of a type within two budgets are the same but for
/// blanks: the budget decides where lines break, and nothing else.
pub proof fn lemma_ty_sources_agree(ty: Ty, a: WriteOpt, b: WriteOpt)
    requires
        ty_source(ty, a) is Some,
        ty_source(ty, b) is Some,
    ensures
        same_but_blanks(ty_source(ty, a)->0, ty_source(ty, b)->0),
    decreases ty, 0int,
{
    if ty.name is None {
        lemma_kind_sources_agree(ty.kind, a, b);
    }
}

/// The source texts of a type that may be left to inference, within two
/// budgets, are the same but for blanks.
pub proof fn lemma_opt_ty_sources_agree(ty: Option<Ty>, a: WriteOpt, b: WriteOpt)
    requires
        opt_ty_source(ty, a) is Some,
        opt_ty_source(ty, b) is Some,
    ensures
        same_but_blanks(opt_ty_source(ty, a)->0, opt_ty_source(ty, b)->0),
    decreases ty, 0int,
{
    if let Some(ty) = ty {
        lemma_ty_sources_agree(ty, a, b);
    }
}

/// The source texts of a field within two budgets are the same but for
/// blanks.
pub proof fn lemma_field_sources_agree(field: TupleField, a: WriteOpt, b: WriteOpt)
    requires
        field_source(field, a) is Some,
        field_source(field, b) is Some,
    ensures
        same_but_blanks(field_source(field, a)->0, field_source(field, b)->0),
    decreases field, 0int,
{
    match field {
        TupleField::Wildcard(None) => {},
        TupleField::Wildcard(Some(ty)) => {
            lemma_ty_sources_agree(ty, a, b);
            lemma_without_blanks_add(ty_source(ty, a)->0, ".."@);
            lemma_without_blanks_add(ty_source(ty, b)->0, ".."@);
        },
        TupleField::Single(name, ty) => {
            let prefix = match name {
                Some(name) => name@ + " = "@,
                None => Seq::empty(),
            };
            if let Some(ty) = ty {
                lemma_ty_sources_agree(ty, a, b);
                lemma_without_blanks_add(prefix, ty_source(ty, a)->0);
                lemma_without_blanks_add(prefix, ty_source(ty, b)->0);
            }
        },
    }
}

/// The source texts of the variants of a union within two budgets are
/// pairwise the same but for blanks.
pub proof fn lemma_variant_sources_agree(
    variants: Seq<(Option<String>, Ty)>,
    a: WriteOpt,
    b: WriteOpt,
)
    requires
        variant_sources(variants, a) is Some,
        variant_sources(variants, b) is Some,
    ensures
        all_same_but_blanks(variant_sources(variants, a)->0, variant_sources(variants, b)->0),
    decreases variants, 1int,
{
    let xs = variant_sources(variants, a)->0;
    let ys = variant_sources(variants, b)->0;
    assert forall|i: int| 0 <= i < xs.len() implies same_but_blanks(#[trigger] xs[i], ys[i]) by {
        assert(variant_renders(variants, a)[i] is Some);
        assert(variant_renders(variants, b)[i] is Some);
        lemma_ty_sources_agree(variants[i].1, a, b);
    }
}

/// The source texts of the fields of a tuple within two budgets are
/// pairwise the same but for blanks.
pub proof fn lemma_field_lists_agree(fields: Seq<TupleField>, a: WriteOpt, b: WriteOpt)
    requires
        field_sources(fields, a) is Some,
        field_sources(fields, b) is Some,
    ensures
        all_same_but_blanks(field_sources(fields, a)->0, field_sources(fields, b)->0),
    decreases fields, 1int,
{
    let xs = field_sources(fields, a)->0;
    let ys = field_sources(fields, b)->0;
    assert forall|i: int| 0 <= i < xs.len() implies same_but_blanks(#[trigger] xs[i], ys[i]) by {
        assert(field_renders(fields, a)[i] is Some);
        assert(field_renders(fields, b)[i] is Some);
        lemma_field_sources_agree(fields[i], a, b);
    }
}

/// The source texts of the argument types of a function within two budgets
/// are pairwise the same but for blanks.
pub proof fn lemma_arg_sources_agree(args: Seq<Option<Ty>>, a: WriteOpt, b: WriteOpt)
    requires
        arg_sources(args, a) is Some,
        arg_sources(args, b) is Some,
    ensures
        all_same_but_blanks(arg_sources(args, a)->0, arg_sources(args, b)->0),
    decreases args, 1int,
{
    let xs = arg_sources(args, a)->0;
    let ys = arg_sources(args, b)->0;
    assert forall|i: int| 0 <= i < xs.len() implies same_but_blanks(#[trigger] xs[i], ys[i]) by {
        assert(arg_renders(args, a)[i] is Some);
        assert(arg_renders(args, b)[i] is Some);
        lemma_opt_ty_sources_agree(args[i], a, b);
    }
}

/// The source texts of a kind of type within two budgets are the same but
/// for blanks: the inline and the expanded layout of a union or a tuple hold
/// the same items in the same order.
pub proof fn lemma_kind_sources_agree(kind: TyKind, a: WriteOpt, b: WriteOpt)
    requires
        kind_source(kind, a) is Some,
        kind_source(kind, b) is Some,
    ensures
        same_but_blanks(kind_source(kind, a)->0, kind_source(kind, b)->0),
    decreases kind, 0int,
{
    match kind {
        TyKind::Primitive(_) => {},
        TyKind::Singleton(_) => {},
        TyKind::TypeSet => {},
        TyKind::Union(variants) => {
            let variants = variants@;
            let a_inline = lemma_separated_is_either(
                match variant_sources(variants, a) {
                    Some(items) => Some(join(items, " || "@)),
                    None => None,
                },
                match variant_sources(variants, a.fresh_line(" ||"@.len())) {
                    Some(items) => Some(join(items, line_separator(" ||"@))),
                    None => None,
                },
                a,
            );
            let b_inline = lemma_separated_is_either(
                match variant_sources(variants, b) {
                    Some(items) => Some(join(items, " || "@)),
                    None => None,
                },
                match variant_sources(variants, b.fresh_line(" ||"@.len())) {
                    Some(items) => Some(join(items, line_separator(" ||"@))),
                    None => None,
                },
                b,
            );
            let a_used = if a_inline { a } else { a.fresh_line(" ||"@.len()) };
            let b_used = if b_inline { b } else { b.fresh_line(" ||"@.len()) };
            lemma_union_layouts_agree(variants, a_used, b_used);
            lemma_union_layouts_agree(variants, b_used, a_used);
        },
        TyKind::Tuple(fields) => {
            let fields = fields@;
            let a_inline = lemma_separated_is_either(
                match field_sources(fields, a) {
                    Some(items) => Some("{"@ + join(items, ", "@) + "}"@),
                    None => None,
                },
                match field_sources(fields, a.fresh_line("{"@.len() + ","@.len())) {
                    Some(items) => Some("{"@ + join(items, line_separator(","@)) + "}"@),
                    None => None,
                },
                a,
            );
            let b_inline = lemma_separated_is_either(
                match field_sources(fields, b) {
                    Some(items) => Some("{"@ + join(items, ", "@) + "}"@),
                    None => None,
                },
                match field_sources(fields, b.fresh_line("{"@.len() + ","@.len())) {
                    Some(items) => Some("{"@ + join(items, line_separator(","@)) + "}"@),
                    None => None,
                },
                b,
            );
            let a_used = if a_inline { a } else { a.fresh_line("{"@.len() + ","@.len()) };
            let b_used = if b_inline { b } else { b.fresh_line("{"@.len() + ","@.len()) };
            lemma_tuple_layouts_agree(fields, a_used, b_used);
            lemma_tuple_layouts_agree(fields, b_used, a_used);
        },
        TyKind::Array(elem) => {
            lemma_ty_sources_agree(*elem, a, b);
            let a_text = ty_source(*elem, a)->0;
            let b_text = ty_source(*elem, b)->0;
            lemma_without_blanks_add("["@, a_text);
            lemma_without_blanks_add("["@ + a_text, "]"@);
            lemma_without_blanks_add("["@, b_text);
            lemma_without_blanks_add("["@ + b_text, "]"@);
        },
        TyKind::Function(func) => {
            let args = func.args@;
            lemma_arg_sources_agree(args, a, b);
            lemma_opt_ty_sources_agree(*func.return_ty, a, b);
            let a_args = join_ended(arg_sources(args, a)->0, " "@);
            let b_args = join_ended(arg_sources(args, b)->0, " "@);
            lemma_join_ended_same_but_blanks(
                arg_sources(args, a)->0,
                arg_sources(args, b)->0,
                " "@,
            );
            lemma_without_blanks_add(a_args, "-> "@);
            lemma_without_blanks_add(a_args + "-> "@, opt_ty_source(*func.return_ty, a)->0);
            lemma_without_blanks_add(b_args, "-> "@);
            lemma_without_blanks_add(b_args + "-> "@, opt_ty_source(*func.return_ty, b)->0);
        },
    }
}

/// Whether `parse` reads texts that are the same but for blanks as the same
/// thing.
pub open spec fn ignores_blanks<T>(parse: spec_fn(Seq<char>) -> T) -> bool {
    forall|a: Seq<char>, b: Seq<char>|
        same_but_blanks(a, b) ==> #[trigger] parse(a) == #[trigger] parse(b)
}

/// Whatever reads source text and ignores blanks reads the texts of one type
/// within two budgets, such as its inline and its expanded layout, as the
/// same thing.
pub proof fn lemma_parses_agree<T>(
    ty: Ty,
    a: WriteOpt,
    b: WriteOpt,
    parse: spec_fn(Seq<char>) -> T,
)
    requires
        ignores_blanks(parse),
        ty_source(ty, a) is Some,
        ty_source(ty, b) is Some,
    ensures
        parse(ty_source(ty, a)->0) == parse(ty_source(ty, b)->0),
{
    lemma_ty_sources_agree(ty, a, b);
}

/// Whatever reads source text and ignores blanks reads the texts of one
/// kind of type within two budgets, such as a union or a tuple on one line
/// and with an item a line, as the same thing.
pub proof fn lemma_kind_parses_agree<T>(
    kind: TyKind,
    a: WriteOpt,
    b: WriteOpt,
    parse: spec_fn(Seq<char>) -> T,
)
    requires
        ignores_blanks(parse),
        kind_source(kind, a) is Some,
        kind_source(kind, b) is Some,
    ensures
        parse(kind_source(kind, a)->0) == parse(kind_source(kind, b)->0),
{
    lemma_kind_sources_agree(kind, a, b);
}

} // verus!
