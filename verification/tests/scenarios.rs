use ty_writer::opt::WriteOpt;
use ty_writer::types::{Literal, PrimitiveSet, TupleField, Ty, TyFunc, TyKind};
use ty_writer::write::write_opt_ty;

fn unnamed(kind: TyKind) -> Ty {
    Ty { kind, name: None }
}

fn prim(p: PrimitiveSet) -> Ty {
    unnamed(TyKind::Primitive(p))
}

fn int_or_text() -> TyKind {
    TyKind::Union(vec![
        (Some("a".to_string()), prim(PrimitiveSet::Int)),
        (None, prim(PrimitiveSet::Text)),
    ])
}

#[test]
fn primitive_is_its_keyword() {
    let kind = TyKind::Primitive(PrimitiveSet::Int);
    assert_eq!(kind.write(WriteOpt::unbounded()), Some("int".to_string()));
}

#[test]
fn array_wraps_its_element_in_brackets() {
    let kind = TyKind::Array(Box::new(prim(PrimitiveSet::Text)));
    assert_eq!(kind.write(WriteOpt::unbounded()), Some("[text]".to_string()));
}

#[test]
fn tuple_of_named_field_and_wildcard() {
    let kind = TyKind::Tuple(vec![
        TupleField::Single(Some("a".to_string()), Some(prim(PrimitiveSet::Int))),
        TupleField::Wildcard(None),
    ]);
    assert_eq!(kind.write(WriteOpt::unbounded()), Some("{a = int, *..}".to_string()));
}

#[test]
fn function_with_an_inferred_argument() {
    let kind = TyKind::Function(TyFunc {
        args: vec![Some(prim(PrimitiveSet::Int)), None],
        return_ty: Box::new(Some(prim(PrimitiveSet::Bool))),
    });
    assert_eq!(kind.write(WriteOpt::unbounded()), Some("int infer -> bool".to_string()));
}

#[test]
fn union_that_does_not_fit_takes_a_line_per_variant() {
    assert_eq!(int_or_text().write(WriteOpt::new_width(10)), Some("int ||\ntext".to_string()));
}

#[test]
fn union_that_fits_stays_on_one_line() {
    assert_eq!(int_or_text().write(WriteOpt::new_width(11)), Some("int || text".to_string()));
    assert_eq!(int_or_text().write(WriteOpt::unbounded()), Some("int || text".to_string()));
}

#[test]
fn field_without_name_or_type_is_a_question_mark() {
    let field = TupleField::Single(None, None);
    assert_eq!(field.write(WriteOpt::unbounded()), Some("?".to_string()));
    assert_eq!(field.write(WriteOpt::new_width(0)), Some("?".to_string()));
}

#[test]
fn name_wins_over_kind() {
    let ty = Ty { kind: int_or_text(), name: Some("Foo".to_string()) };
    assert_eq!(ty.write(WriteOpt::unbounded()), Some("Foo".to_string()));
    assert_eq!(ty.write(WriteOpt::new_width(1)), Some("Foo".to_string()));
}

#[test]
fn singleton_is_the_text_of_its_literal() {
    let kind = TyKind::Singleton(Literal { text: "'yes'".to_string() });
    assert_eq!(kind.write(WriteOpt::unbounded()), Some("'yes'".to_string()));
}

#[test]
fn type_of_types_is_set() {
    assert_eq!(TyKind::TypeSet.write(WriteOpt::unbounded()), Some("set".to_string()));
}

#[test]
fn absent_type_is_infer() {
    assert_eq!(write_opt_ty(None, WriteOpt::unbounded()), Some("infer".to_string()));
    let ty = prim(PrimitiveSet::Date);
    assert_eq!(write_opt_ty(Some(&ty), WriteOpt::unbounded()), Some("date".to_string()));
}
