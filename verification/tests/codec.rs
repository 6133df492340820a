use brine::mir::{MirExpr, MirInternedStr, MirLiteral, Primitive};
use brine::sexp::{lexpr_to_mir, mir_to_lexpr, DecodeError, Sexp};

fn sym(s: &str) -> Sexp {
    Sexp::Symbol(s.to_string())
}

fn kw(s: &str) -> Sexp {
    Sexp::Keyword(s.to_string())
}

fn list(items: Vec<Sexp>) -> Sexp {
    let mut out = Sexp::Null;
    for item in items.into_iter().rev() {
        out = Sexp::Cons(Box::new(item), Box::new(out));
    }
    out
}

fn ident(s: &str) -> MirInternedStr {
    MirInternedStr::get_or_intern(s)
}

#[test]
fn round_trip_curried_plus() {
    let expr = MirExpr::apply(
        MirExpr::apply(
            MirExpr::Primitive(Primitive::Plus),
            MirExpr::literal(MirLiteral::Int(1)),
        ),
        MirExpr::literal(MirLiteral::Int(2)),
    );
    let encoded = mir_to_lexpr(&expr);
    let decoded = lexpr_to_mir(&encoded).expect("round trip should decode");
    assert_eq!(decoded, expr);
}

#[test]
fn round_trip_all_forms() {
    let expr = MirExpr::let_(
        ident("x"),
        MirExpr::literal(MirLiteral::Int(5)),
        MirExpr::Comment(
            "a note".to_string(),
            Box::new(MirExpr::if_(
                MirExpr::literal(MirLiteral::Bool(true)),
                MirExpr::lambda(ident("w"), MirExpr::Ref(ident("w"))),
                MirExpr::literal(MirLiteral::Null),
            )),
        ),
    );
    let decoded = lexpr_to_mir(&mir_to_lexpr(&expr)).expect("round trip should decode");
    assert_eq!(decoded, expr);
}

#[test]
fn reference_spelling_a_primitive_name_does_not_round_trip() {
    let expr = MirExpr::Ref(ident("plus"));
    let decoded = lexpr_to_mir(&mir_to_lexpr(&expr)).expect("decodes");
    assert_eq!(decoded, MirExpr::Primitive(Primitive::Plus));
    assert_ne!(decoded, expr);
}

#[test]
fn primitive_names_decode() {
    assert_eq!(
        lexpr_to_mir(&sym("bool-to-int")).unwrap(),
        MirExpr::Primitive(Primitive::BoolToInt)
    );
    assert_eq!(lexpr_to_mir(&sym("pure")).unwrap(), MirExpr::Primitive(Primitive::Pure));
    assert_eq!(lexpr_to_mir(&sym("y")).unwrap(), MirExpr::Primitive(Primitive::Y));
    // The slot-indexed tags own no symbol: their names are free references.
    assert_eq!(lexpr_to_mir(&sym("get")).unwrap(), MirExpr::Ref(ident("get")));
    assert_eq!(lexpr_to_mir(&sym("set")).unwrap(), MirExpr::Ref(ident("set")));
}

#[test]
fn atoms_decode_to_literals() {
    assert_eq!(lexpr_to_mir(&Sexp::Null).unwrap(), MirExpr::literal(MirLiteral::Null));
    assert_eq!(
        lexpr_to_mir(&Sexp::Bool(false)).unwrap(),
        MirExpr::literal(MirLiteral::Bool(false))
    );
    assert_eq!(lexpr_to_mir(&Sexp::Int(-7)).unwrap(), MirExpr::literal(MirLiteral::Int(-7)));
}

#[test]
fn application_chain_curries_left_to_right() {
    let decoded = lexpr_to_mir(&list(vec![sym("f"), Sexp::Int(1), Sexp::Int(2)])).unwrap();
    let expected = MirExpr::apply(
        MirExpr::apply(MirExpr::Ref(ident("f")), MirExpr::literal(MirLiteral::Int(1))),
        MirExpr::literal(MirLiteral::Int(2)),
    );
    assert_eq!(decoded, expected);
}

#[test]
fn let_form_decodes() {
    let s = list(vec![
        kw("let"),
        list(vec![sym("x"), Sexp::Int(5)]),
        sym("x"),
    ]);
    let decoded = lexpr_to_mir(&s).unwrap();
    let expected = MirExpr::let_(
        ident("x"),
        MirExpr::literal(MirLiteral::Int(5)),
        MirExpr::Ref(ident("x")),
    );
    assert_eq!(decoded, expected);
}

#[test]
fn comment_form_decodes() {
    let s = list(vec![kw("comment"), Sexp::Str("note".to_string()), Sexp::Int(42)]);
    let decoded = lexpr_to_mir(&s).unwrap();
    let expected = MirExpr::Comment(
        "note".to_string(),
        Box::new(MirExpr::literal(MirLiteral::Int(42))),
    );
    assert_eq!(decoded, expected);
}

#[test]
fn wrong_arity_is_reported() {
    let s = list(vec![kw("let"), sym("x")]);
    match lexpr_to_mir(&s) {
        Err(DecodeError::WrongArity(name, n)) => {
            assert_eq!(name, "let");
            assert_eq!(n, 2);
        }
        other => panic!("expected a wrong-arity error, got {:?}", other),
    }
    let s = list(vec![kw("if"), Sexp::Bool(true), Sexp::Int(1)]);
    assert!(matches!(lexpr_to_mir(&s), Err(DecodeError::WrongArity(_, 3))));
}

#[test]
fn non_symbol_identifier_is_reported() {
    let s = list(vec![kw("lambda"), Sexp::Int(3), Sexp::Int(1)]);
    assert!(matches!(lexpr_to_mir(&s), Err(DecodeError::ExpectedSymbol(Sexp::Int(3)))));
}

#[test]
fn let_binding_shape_errors_are_reported() {
    let not_a_pair = list(vec![kw("let"), Sexp::Int(9), Sexp::Int(1)]);
    assert!(matches!(lexpr_to_mir(&not_a_pair), Err(DecodeError::ExpectedPair(Sexp::Int(9)))));
    let too_long = list(vec![
        kw("let"),
        list(vec![sym("x"), Sexp::Int(1), Sexp::Int(2)]),
        Sexp::Int(1),
    ]);
    assert!(matches!(lexpr_to_mir(&too_long), Err(DecodeError::BindingArity)));
}

#[test]
fn non_string_comment_text_is_reported() {
    let s = list(vec![kw("comment"), Sexp::Int(1), Sexp::Int(2)]);
    assert!(matches!(lexpr_to_mir(&s), Err(DecodeError::ExpectedString(Sexp::Int(1)))));
}

#[test]
fn improper_list_is_reported() {
    let s = Sexp::Cons(Box::new(sym("f")), Box::new(Sexp::Int(3)));
    assert!(matches!(lexpr_to_mir(&s), Err(DecodeError::ImproperList(Sexp::Int(3)))));
}

#[test]
fn unknown_keyword_is_reported() {
    let s = list(vec![kw("loop"), Sexp::Int(1)]);
    match lexpr_to_mir(&s) {
        Err(DecodeError::UnknownKeyword(k)) => assert_eq!(k, "loop"),
        other => panic!("expected an unknown-keyword error, got {:?}", other),
    }
}

#[test]
fn unsupported_shapes_are_reported() {
    assert!(matches!(
        lexpr_to_mir(&kw("let")),
        Err(DecodeError::KeywordAtTopLevel(_))
    ));
    assert!(matches!(
        lexpr_to_mir(&Sexp::Str("hi".to_string())),
        Err(DecodeError::UnsupportedObject(_))
    ));
    assert!(matches!(lexpr_to_mir(&Sexp::Nil), Err(DecodeError::UnsupportedObject(_))));
    assert!(matches!(
        lexpr_to_mir(&Sexp::Char('q')),
        Err(DecodeError::UnsupportedObject(_))
    ));
    assert!(matches!(
        lexpr_to_mir(&Sexp::Bytes(vec![1, 2])),
        Err(DecodeError::UnsupportedObject(_))
    ));
    assert!(matches!(lexpr_to_mir(&Sexp::Vector), Err(DecodeError::UnsupportedObject(_))));
    assert!(matches!(
        lexpr_to_mir(&Sexp::BigNumber("18446744073709551615".to_string())),
        Err(DecodeError::UnsupportedNumber(_))
    ));
}

#[test]
fn encoding_uses_keyword_forms() {
    let expr = MirExpr::let_(
        ident("x"),
        MirExpr::literal(MirLiteral::Int(1)),
        MirExpr::Ref(ident("x")),
    );
    let encoded = mir_to_lexpr(&expr);
    match &encoded {
        Sexp::Cons(head, _) => assert_eq!(**head, kw("let")),
        other => panic!("expected a list, got {:?}", other),
    }
    assert_eq!(
        mir_to_lexpr(&MirExpr::Primitive(Primitive::BoolToInt)),
        sym("bool-to-int")
    );
    assert_eq!(mir_to_lexpr(&MirExpr::literal(MirLiteral::Null)), Sexp::Null);
}

#[test]
fn desugar_removes_let_and_is_idempotent() {
    let expr = MirExpr::let_(
        ident("x"),
        MirExpr::literal(MirLiteral::Int(5)),
        MirExpr::let_(
            ident("y"),
            MirExpr::literal(MirLiteral::Int(6)),
            MirExpr::Ref(ident("x")),
        ),
    );
    let once = expr.desugar();
    let twice = once.desugar();
    assert_eq!(once, twice);
    let expected = MirExpr::apply(
        MirExpr::lambda(
            ident("x"),
            MirExpr::apply(
                MirExpr::lambda(ident("y"), MirExpr::Ref(ident("x"))),
                MirExpr::literal(MirLiteral::Int(6)),
            ),
        ),
        MirExpr::literal(MirLiteral::Int(5)),
    );
    assert_eq!(once, expected);
}

#[test]
fn interned_names_compare_by_text() {
    let a = ident("alpha");
    let b = ident("alpha");
    let c = ident("beta");
    assert_eq!(a, b);
    assert_ne!(a, c);
    assert!(!a.is_empty());
    assert!(ident("").is_empty());
    assert_eq!(a.resolve_and_clone(), "alpha");
}
