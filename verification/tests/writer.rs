use ty_writer::opt::WriteOpt;
use ty_writer::types::{Literal, PrimitiveSet, TupleField, Ty, TyFunc, TyKind};
use ty_writer::write::write_opt_ty;

fn ty(kind: TyKind) -> Ty {
    Ty { kind, name: None }
}

fn named(name: &str, kind: TyKind) -> Ty {
    Ty { kind, name: Some(name.to_string()) }
}

fn prim_ty(p: PrimitiveSet) -> Ty {
    ty(TyKind::Primitive(p))
}

fn field(name: &str, p: PrimitiveSet) -> TupleField {
    TupleField::Single(Some(name.to_string()), Some(prim_ty(p)))
}

fn a_and_rest() -> TyKind {
    TyKind::Tuple(vec![field("a", PrimitiveSet::Int), TupleField::Wildcard(None)])
}

fn two_variants() -> TyKind {
    TyKind::Union(vec![(None, prim_ty(PrimitiveSet::Int)), (None, prim_ty(PrimitiveSet::Text))])
}

fn some(text: &str) -> Option<String> {
    Some(text.to_string())
}

#[test]
fn every_primitive_has_its_keyword() {
    assert_eq!(PrimitiveSet::Int.as_str(), "int");
    assert_eq!(PrimitiveSet::Float.as_str(), "float");
    assert_eq!(PrimitiveSet::Bool.as_str(), "bool");
    assert_eq!(PrimitiveSet::Text.as_str(), "text");
    assert_eq!(PrimitiveSet::Date.as_str(), "date");
    assert_eq!(PrimitiveSet::Time.as_str(), "time");
    assert_eq!(PrimitiveSet::Timestamp.as_str(), "timestamp");
    let kind = TyKind::Primitive(PrimitiveSet::Timestamp);
    assert_eq!(kind.write(WriteOpt::new_width(0)), some("timestamp"));
}

#[test]
fn tuple_fits_exactly() {
    assert_eq!(a_and_rest().write(WriteOpt::new_width(14)), some("{a = int, *..}"));
}

#[test]
fn tuple_that_does_not_fit_takes_a_line_per_field() {
    assert_eq!(a_and_rest().write(WriteOpt::new_width(13)), some("{a = int,\n*..}"));
    assert_eq!(a_and_rest().write(WriteOpt::new_width(10)), some("{a = int,\n*..}"));
    assert_eq!(a_and_rest().write(WriteOpt::new_width(9)), some("{a = int,\n*..}"));
}

#[test]
fn tuple_fails_where_a_line_is_too_short() {
    assert_eq!(a_and_rest().write(WriteOpt::new_width(8)), None);
    assert_eq!(a_and_rest().write(WriteOpt::new_width(0)), None);
}

#[test]
fn empty_tuple_is_a_pair_of_braces() {
    let empty = TyKind::Tuple(vec![]);
    assert_eq!(empty.write(WriteOpt::unbounded()), some("{}"));
    assert_eq!(empty.write(WriteOpt::new_width(2)), some("{}"));
    assert_eq!(empty.write(WriteOpt::new_width(1)), None);
}

#[test]
fn empty_union_is_empty() {
    let empty = TyKind::Union(vec![]);
    assert_eq!(empty.write(WriteOpt::unbounded()), some(""));
    assert_eq!(empty.write(WriteOpt::new_width(0)), some(""));
}

#[test]
fn union_of_one_variant_is_that_variant() {
    let one = TyKind::Union(vec![(None, prim_ty(PrimitiveSet::Int))]);
    assert_eq!(one.write(WriteOpt::unbounded()), some("int"));
    assert_eq!(one.write(WriteOpt::new_width(3)), some("int"));
    assert_eq!(one.write(WriteOpt::new_width(2)), None);
    let long = TyKind::Union(vec![(None, named("abcdefgh", TyKind::TypeSet))]);
    assert_eq!(long.write(WriteOpt { max_width: Some(8), rem_width: 7 }), some("abcdefgh"));
    assert_eq!(long.write(WriteOpt { max_width: Some(7), rem_width: 7 }), None);
}

#[test]
fn union_fails_where_a_line_is_too_short() {
    assert_eq!(two_variants().write(WriteOpt::new_width(7)), some("int ||\ntext"));
    assert_eq!(two_variants().write(WriteOpt::new_width(6)), some("int ||\ntext"));
    assert_eq!(two_variants().write(WriteOpt::new_width(5)), None);
    assert_eq!(two_variants().write(WriteOpt::new_width(2)), None);
}

#[test]
fn union_goes_by_what_remains_of_the_line() {
    let opt = WriteOpt { max_width: Some(80), rem_width: 5 };
    assert_eq!(two_variants().write(opt), some("int ||\ntext"));
    let opt = WriteOpt { max_width: Some(80), rem_width: 11 };
    assert_eq!(two_variants().write(opt), some("int || text"));
}

#[test]
fn labels_of_variants_are_not_written() {
    let labelled = TyKind::Union(vec![
        (Some("first".to_string()), prim_ty(PrimitiveSet::Int)),
        (Some("second".to_string()), prim_ty(PrimitiveSet::Bool)),
    ]);
    assert_eq!(labelled.write(WriteOpt::unbounded()), some("int || bool"));
}

#[test]
fn nested_lists_expand_from_the_outside() {
    let inner = TyKind::Tuple(vec![field("a", PrimitiveSet::Int), field("b", PrimitiveSet::Text)]);
    let outer = TyKind::Union(vec![(None, ty(inner)), (None, prim_ty(PrimitiveSet::Bool))]);
    assert_eq!(outer.write(WriteOpt::unbounded()), some("{a = int, b = text} || bool"));
    assert_eq!(outer.write(WriteOpt::new_width(27)), some("{a = int, b = text} || bool"));
    assert_eq!(outer.write(WriteOpt::new_width(26)), some("{a = int, b = text} ||\nbool"));
    assert_eq!(outer.write(WriteOpt::new_width(22)), some("{a = int, b = text} ||\nbool"));
    assert_eq!(outer.write(WriteOpt::new_width(21)), some("{a = int,\nb = text} ||\nbool"));
    assert_eq!(outer.write(WriteOpt::new_width(18)), some("{a = int,\nb = text} ||\nbool"));
    assert_eq!(outer.write(WriteOpt::new_width(12)), some("{a = int,\nb = text} ||\nbool"));
    assert_eq!(outer.write(WriteOpt::new_width(11)), None);
}

#[test]
fn array_of_a_union_breaks_inside_the_brackets() {
    let kind = TyKind::Array(Box::new(ty(two_variants())));
    assert_eq!(kind.write(WriteOpt::unbounded()), some("[int || text]"));
    assert_eq!(kind.write(WriteOpt::new_width(10)), some("[int ||\ntext]"));
}

#[test]
fn array_fails_with_its_element() {
    let element = ty(TyKind::Tuple(vec![]));
    assert_eq!(element.write(WriteOpt::new_width(1)), None);
    let kind = TyKind::Array(Box::new(element));
    assert_eq!(kind.write(WriteOpt::new_width(1)), None);
    assert_eq!(kind.write(WriteOpt::new_width(2)), some("[{}]"));
}

#[test]
fn function_fails_with_an_argument_or_the_return_type() {
    let by_argument = TyKind::Function(TyFunc {
        args: vec![Some(prim_ty(PrimitiveSet::Int)), Some(ty(TyKind::Tuple(vec![])))],
        return_ty: Box::new(None),
    });
    assert_eq!(by_argument.write(WriteOpt::new_width(1)), None);
    assert_eq!(by_argument.write(WriteOpt::new_width(2)), some("int {} -> infer"));
    let by_return = TyKind::Function(TyFunc {
        args: vec![None],
        return_ty: Box::new(Some(ty(TyKind::Tuple(vec![])))),
    });
    assert_eq!(by_return.write(WriteOpt::new_width(1)), None);
    assert_eq!(by_return.write(WriteOpt::new_width(2)), some("infer -> {}"));
}

#[test]
fn function_without_arguments_starts_with_the_arrow() {
    let kind = TyKind::Function(TyFunc { args: vec![], return_ty: Box::new(None) });
    assert_eq!(kind.write(WriteOpt::unbounded()), some("-> infer"));
}

#[test]
fn arguments_each_get_the_whole_budget() {
    let kind = TyKind::Function(TyFunc {
        args: vec![Some(ty(two_variants())), Some(ty(two_variants()))],
        return_ty: Box::new(Some(ty(two_variants()))),
    });
    assert_eq!(
        kind.write(WriteOpt::new_width(11)),
        some("int || text int || text -> int || text")
    );
}

#[test]
fn field_fails_with_its_type() {
    let wildcard = TupleField::Wildcard(Some(ty(TyKind::Tuple(vec![]))));
    assert_eq!(wildcard.write(WriteOpt::new_width(1)), None);
    assert_eq!(wildcard.write(WriteOpt::new_width(2)), some("{}.."));
    let single = TupleField::Single(Some("a".to_string()), Some(ty(TyKind::Tuple(vec![]))));
    assert_eq!(single.write(WriteOpt::new_width(1)), None);
    assert_eq!(single.write(WriteOpt::new_width(2)), some("a = {}"));
}

#[test]
fn fields_in_all_their_forms() {
    let opt = WriteOpt::unbounded();
    assert_eq!(TupleField::Wildcard(None).write(opt), some("*.."));
    assert_eq!(TupleField::Wildcard(Some(prim_ty(PrimitiveSet::Int))).write(opt), some("int.."));
    assert_eq!(TupleField::Single(Some("a".to_string()), None).write(opt), some("a = ?"));
    assert_eq!(TupleField::Single(None, Some(prim_ty(PrimitiveSet::Int))).write(opt), some("int"));
    assert_eq!(field("a", PrimitiveSet::Float).write(opt), some("a = float"));
}

#[test]
fn named_type_inside_a_list_is_its_name() {
    let kind = TyKind::Union(vec![
        (None, named("Foo", a_and_rest())),
        (None, prim_ty(PrimitiveSet::Int)),
    ]);
    assert_eq!(kind.write(WriteOpt::new_width(10)), some("Foo || int"));
}

#[test]
fn name_with_a_line_break_forces_a_line_per_item() {
    let kind = TyKind::Union(vec![
        (None, named("a\nb", TyKind::TypeSet)),
        (None, prim_ty(PrimitiveSet::Int)),
    ]);
    assert_eq!(kind.write(WriteOpt::unbounded()), some("a\nb ||\nint"));
}

#[test]
fn to_string_has_no_limit() {
    let long = "x".repeat(100_000);
    let kind = TyKind::Tuple(vec![
        TupleField::Single(Some(long.clone()), Some(ty(two_variants()))),
        TupleField::Single(None, Some(ty(TyKind::Singleton(Literal { text: "1".to_string() })))),
    ]);
    assert_eq!(kind.to_string(), format!("{{{} = int || text, 1}}", long));
    assert_eq!(ty(two_variants()).to_string(), "int || text");
    assert_eq!(named("Foo", two_variants()).to_string(), "Foo");
}

#[test]
fn write_opt_ty_passes_the_budget_on() {
    let union = ty(two_variants());
    assert_eq!(write_opt_ty(Some(&union), WriteOpt::new_width(10)), some("int ||\ntext"));
    assert_eq!(write_opt_ty(Some(&union), WriteOpt::new_width(2)), None);
    assert_eq!(write_opt_ty(None, WriteOpt::new_width(0)), some("infer"));
}
