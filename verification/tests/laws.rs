use ty_writer::opt::WriteOpt;
use ty_writer::types::{Literal, PrimitiveSet, TupleField, Ty, TyFunc, TyKind};

fn ty(kind: TyKind) -> Ty {
    Ty { kind, name: None }
}

fn prim_ty(p: PrimitiveSet) -> Ty {
    ty(TyKind::Primitive(p))
}

fn record() -> TyKind {
    TyKind::Tuple(vec![
        TupleField::Single(Some("id".to_string()), Some(prim_ty(PrimitiveSet::Int))),
        TupleField::Single(
            Some("tags".to_string()),
            Some(ty(TyKind::Array(Box::new(prim_ty(PrimitiveSet::Text))))),
        ),
        TupleField::Single(
            Some("state".to_string()),
            Some(ty(TyKind::Union(vec![
                (None, ty(TyKind::Singleton(Literal { text: "'on'".to_string() }))),
                (None, ty(TyKind::Singleton(Literal { text: "'off'".to_string() }))),
                (None, ty(TyKind::Tuple(vec![TupleField::Single(None, None)]))),
            ]))),
        ),
        TupleField::Wildcard(Some(Ty { kind: TyKind::TypeSet, name: Some("Rest".to_string()) })),
    ])
}

fn samples() -> Vec<TyKind> {
    vec![
        record(),
        TyKind::Union(vec![
            (None, ty(record())),
            (None, prim_ty(PrimitiveSet::Timestamp)),
            (None, ty(TyKind::Function(TyFunc {
                args: vec![Some(ty(record())), None],
                return_ty: Box::new(Some(ty(TyKind::Array(Box::new(ty(record())))))),
            }))),
        ]),
        TyKind::Tuple(vec![]),
        TyKind::Union(vec![]),
        TyKind::Union(vec![(None, ty(TyKind::Tuple(vec![TupleField::Wildcard(None)])))]),
    ]
}

fn without_blanks(text: &str) -> String {
    text.chars().filter(|c| *c != ' ' && *c != '\n').collect()
}

#[test]
fn without_limit_everything_is_written() {
    for kind in samples() {
        assert!(kind.write(WriteOpt::unbounded()).is_some());
        assert_eq!(kind.write(WriteOpt::unbounded()), Some(kind.to_string()));
    }
    assert_eq!(
        record().to_string(),
        "{id = int, tags = [text], state = 'on' || 'off' || {?}, Rest..}"
    );
}

#[test]
fn budget_changes_blanks_only() {
    for kind in samples() {
        let flat = without_blanks(&kind.to_string());
        let mut written = 0;
        for width in 0..80 {
            if let Some(text) = kind.write(WriteOpt::new_width(width)) {
                assert_eq!(without_blanks(&text), flat);
                written += 1;
            }
        }
        assert!(written > 0);
    }
}

#[test]
fn lists_keep_to_the_width_of_a_line() {
    for kind in samples() {
        for width in 0..80 {
            if let Some(text) = kind.write(WriteOpt::new_width(width)) {
                for line in text.split('\n') {
                    assert!(line.chars().count() <= width);
                }
            }
        }
    }
}

#[test]
fn wide_enough_budget_gives_the_text_of_one_line() {
    for kind in samples() {
        let flat = kind.to_string();
        let len = flat.chars().count();
        for more in 0..3 {
            assert_eq!(kind.write(WriteOpt::new_width(len + more)), Some(flat.clone()));
        }
        let used = WriteOpt { max_width: Some(len + 100), rem_width: len };
        assert_eq!(kind.write(used), Some(flat.clone()));
    }
}

#[test]
fn union_is_written_wherever_its_lines_fit() {
    let kind = TyKind::Union(vec![
        (None, prim_ty(PrimitiveSet::Int)),
        (None, prim_ty(PrimitiveSet::Text)),
    ]);
    for width in 6..11 {
        assert_eq!(kind.write(WriteOpt::new_width(width)), Some("int ||\ntext".to_string()));
        let used = WriteOpt { max_width: Some(width), rem_width: 0 };
        assert_eq!(kind.write(used), Some("int ||\ntext".to_string()));
    }
    for width in 0..6 {
        assert_eq!(kind.write(WriteOpt::new_width(width)), None);
    }
}

#[test]
fn tuple_is_written_wherever_its_lines_fit() {
    let kind = TyKind::Tuple(vec![
        TupleField::Single(Some("a".to_string()), Some(prim_ty(PrimitiveSet::Int))),
        TupleField::Wildcard(None),
    ]);
    for width in 9..14 {
        assert_eq!(kind.write(WriteOpt::new_width(width)), Some("{a = int,\n*..}".to_string()));
    }
    for width in 0..9 {
        assert_eq!(kind.write(WriteOpt::new_width(width)), None);
    }
}

#[test]
fn record_breaks_where_it_has_to() {
    let one_break = "{id = int,\ntags = [text],\nstate = 'on' || 'off' || {?},\nRest..}";
    let all_breaks = "{id = int,\ntags = [text],\nstate = 'on' ||\n'off' ||\n{?},\nRest..}";
    assert_eq!(record().write(WriteOpt::new_width(63)), Some(record().to_string()));
    assert_eq!(record().write(WriteOpt::new_width(62)), Some(one_break.to_string()));
    assert_eq!(record().write(WriteOpt::new_width(29)), Some(one_break.to_string()));
    assert_eq!(record().write(WriteOpt::new_width(28)), None);
    assert_eq!(record().write(WriteOpt::new_width(22)), None);
    assert_eq!(record().write(WriteOpt::new_width(21)), Some(all_breaks.to_string()));
    assert_eq!(record().write(WriteOpt::new_width(15)), Some(all_breaks.to_string()));
    assert_eq!(record().write(WriteOpt::new_width(14)), None);
}

#[test]
fn name_stands_for_any_kind_within_any_budget() {
    for kind in samples() {
        let named = Ty { kind, name: Some("Foo".to_string()) };
        for width in 0..4 {
            assert_eq!(named.write(WriteOpt::new_width(width)), Some("Foo".to_string()));
        }
        assert_eq!(named.write(WriteOpt::unbounded()), Some("Foo".to_string()));
    }
}

#[test]
fn untyped_field_is_written_within_any_budget() {
    for width in 0..3 {
        let opt = WriteOpt::new_width(width);
        assert_eq!(TupleField::Single(None, None).write(opt), Some("?".to_string()));
        assert_eq!(TupleField::Wildcard(None).write(opt), Some("*..".to_string()));
        assert_eq!(
            TupleField::Single(Some("a".to_string()), None).write(opt),
            Some("a = ?".to_string())
        );
    }
}
