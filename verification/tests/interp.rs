use brine::mir::{MirExpr, MirLiteral, Primitive};
use brine::miri::{is_runnable, run, EvalError, Obj, ObjType};
use brine::sexp::{lexpr_to_mir, Sexp};

const BUDGET: u64 = 100_000;

fn sym(s: &str) -> Sexp {
    Sexp::Symbol(s.to_string())
}

fn kw(s: &str) -> Sexp {
    Sexp::Keyword(s.to_string())
}

fn list(items: Vec<Sexp>) -> Sexp {
    let mut out = Sexp::Null;
    for item in items.into_iter().rev() {
        out = Sexp::Cons(Box::new(item), Box::new(out));
    }
    out
}

fn eval(s: Sexp) -> Result<Obj, EvalError> {
    let expr = lexpr_to_mir(&s).expect("program should decode").desugar();
    assert!(is_runnable(&expr), "program should be runnable after desugaring");
    run(&expr, BUDGET)
}

fn eval_int(s: Sexp) -> i64 {
    match eval(s) {
        Ok(Obj::Int(i)) => i,
        other => panic!("expected an integer result, got {:?}", other),
    }
}

fn eval_bool(s: Sexp) -> bool {
    match eval(s) {
        Ok(Obj::Bool(b)) => b,
        other => panic!("expected a boolean result, got {:?}", other),
    }
}

#[test]
fn arithmetic_evaluation() {
    assert_eq!(eval_int(list(vec![sym("plus"), Sexp::Int(2), Sexp::Int(3)])), 5);
    assert_eq!(eval_int(list(vec![sym("minus"), Sexp::Int(10), Sexp::Int(4)])), 6);
    assert_eq!(eval_int(list(vec![sym("times"), Sexp::Int(6), Sexp::Int(7)])), 42);
    assert_eq!(eval_int(list(vec![sym("div"), Sexp::Int(17), Sexp::Int(5)])), 3);
    assert_eq!(eval_int(list(vec![sym("mod"), Sexp::Int(17), Sexp::Int(5)])), 2);
}

#[test]
fn arithmetic_wraps_around() {
    assert_eq!(
        eval_int(list(vec![sym("plus"), Sexp::Int(i64::MAX), Sexp::Int(1)])),
        i64::MIN
    );
}

#[test]
fn division_by_zero_is_an_error() {
    let r = eval(list(vec![sym("div"), Sexp::Int(1), Sexp::Int(0)]));
    assert!(matches!(r, Err(EvalError::DivisionByZero(Primitive::Div))));
    let r = eval(list(vec![sym("mod"), Sexp::Int(1), Sexp::Int(0)]));
    assert!(matches!(r, Err(EvalError::DivisionByZero(Primitive::Mod))));
}

#[test]
fn division_overflow_is_an_error() {
    let r = eval(list(vec![sym("div"), Sexp::Int(i64::MIN), Sexp::Int(-1)]));
    assert!(matches!(r, Err(EvalError::Overflow(Primitive::Div))));
    let r = eval(list(vec![sym("mod"), Sexp::Int(i64::MIN), Sexp::Int(-1)]));
    assert!(matches!(r, Err(EvalError::Overflow(Primitive::Mod))));
}

#[test]
fn logic_and_comparisons() {
    assert!(eval_bool(list(vec![sym("xor"), Sexp::Bool(true), Sexp::Bool(false)])));
    assert!(!eval_bool(list(vec![sym("xor"), Sexp::Bool(true), Sexp::Bool(true)])));
    assert!(eval_bool(list(vec![sym("and"), Sexp::Bool(true), Sexp::Bool(true)])));
    assert!(eval_bool(list(vec![sym("or"), Sexp::Bool(false), Sexp::Bool(true)])));
    assert!(!eval_bool(list(vec![sym("neg"), Sexp::Bool(true)])));
    assert!(eval_bool(list(vec![sym("lt"), Sexp::Int(1), Sexp::Int(2)])));
    assert!(!eval_bool(list(vec![sym("gt"), Sexp::Int(1), Sexp::Int(2)])));
    assert!(eval_bool(list(vec![sym("le"), Sexp::Int(2), Sexp::Int(2)])));
    assert!(eval_bool(list(vec![sym("ge"), Sexp::Int(2), Sexp::Int(2)])));
    assert!(eval_bool(list(vec![sym("eq"), Sexp::Int(3), Sexp::Int(3)])));
    assert_eq!(eval_int(list(vec![sym("bool-to-int"), Sexp::Bool(true)])), 1);
    assert_eq!(eval_int(list(vec![sym("bool-to-int"), Sexp::Bool(false)])), 0);
}

#[test]
fn pairs_decompose_by_value() {
    assert_eq!(
        eval_int(list(vec![
            sym("car"),
            list(vec![sym("cons"), Sexp::Int(1), Sexp::Int(2)]),
        ])),
        1
    );
    assert_eq!(
        eval_int(list(vec![
            sym("cdr"),
            list(vec![sym("cons"), Sexp::Int(1), Sexp::Int(2)]),
        ])),
        2
    );
}

#[test]
fn lexical_scoping() {
    // A let-bound variable captured by a lambda stays visible in the
    // body when the lambda is applied elsewhere. The bound names avoid
    // the one-letter primitive symbol.
    let program = list(vec![
        list(vec![
            kw("let"),
            list(vec![sym("x"), Sexp::Int(5)]),
            list(vec![
                kw("lambda"),
                sym("w"),
                list(vec![sym("plus"), sym("x"), sym("w")]),
            ]),
        ]),
        Sexp::Int(3),
    ]);
    assert_eq!(eval_int(program), 8);
}

#[test]
fn shadowing_is_innermost_first() {
    let program = list(vec![
        kw("let"),
        list(vec![sym("x"), Sexp::Int(1)]),
        list(vec![kw("let"), list(vec![sym("x"), Sexp::Int(2)]), sym("x")]),
    ]);
    assert_eq!(eval_int(program), 2);
}

#[test]
fn conditional_selection() {
    assert_eq!(
        eval_int(list(vec![kw("if"), Sexp::Bool(true), Sexp::Int(1), Sexp::Int(2)])),
        1
    );
    assert_eq!(
        eval_int(list(vec![kw("if"), Sexp::Bool(false), Sexp::Int(1), Sexp::Int(2)])),
        2
    );
}

#[test]
fn non_boolean_condition_is_a_type_error() {
    let r = eval(list(vec![kw("if"), Sexp::Int(5), Sexp::Int(1), Sexp::Int(2)]));
    assert!(matches!(r, Err(EvalError::NotABool(Obj::Int(5)))));
}

#[test]
fn partial_application_yields_a_first_class_value() {
    let r = eval(list(vec![sym("plus"), Sexp::Int(2)])).expect("partial application succeeds");
    assert!(matches!(r, Obj::CurriedPrimitive(_)));
    // Supplying the second argument then yields the final result.
    assert_eq!(eval_int(list(vec![sym("plus"), Sexp::Int(2), Sexp::Int(3)])), 5);
}

#[test]
fn wrongly_typed_argument_is_a_descriptive_error() {
    let r = eval(list(vec![sym("plus"), Sexp::Int(2), Sexp::Bool(true)]));
    match r {
        Err(EvalError::PrimitiveType { primitive, expected, got }) => {
            assert_eq!(primitive, Primitive::Plus);
            assert_eq!(expected, ObjType::Int);
            assert!(matches!(got, Obj::Bool(true)));
        }
        other => panic!("expected a primitive type error, got {:?}", other),
    }
    // The same wrong first argument is rejected at position zero too.
    let r = eval(list(vec![sym("car"), Sexp::Int(2)]));
    assert!(matches!(
        r,
        Err(EvalError::PrimitiveType { expected: ObjType::Cons, .. })
    ));
}

#[test]
fn undefined_reference_names_the_identifier() {
    let program = list(vec![
        list(vec![kw("lambda"), sym("x"), sym("w")]),
        Sexp::Int(0),
    ]);
    match eval(program) {
        Err(EvalError::UndefinedName(n)) => assert_eq!(n.resolve_and_clone(), "w"),
        other => panic!("expected an undefined-name error, got {:?}", other),
    }
}

#[test]
fn applying_a_non_function_is_an_error() {
    let r = eval(list(vec![Sexp::Int(3), Sexp::Int(4)]));
    assert!(matches!(r, Err(EvalError::NotApplicable(Obj::Int(3)))));
}

#[test]
fn comment_evaluates_as_its_body() {
    let program = list(vec![kw("comment"), Sexp::Str("why".to_string()), Sexp::Int(42)]);
    assert_eq!(eval_int(program), 42);
}

#[test]
fn the_step_budget_is_respected() {
    let expr = lexpr_to_mir(&list(vec![sym("plus"), Sexp::Int(2), Sexp::Int(3)]))
        .unwrap()
        .desugar();
    assert!(matches!(run(&expr, 1), Err(EvalError::OutOfSteps)));
}

#[test]
fn self_application_runs_out_of_steps_without_overflowing() {
    // ((lambda x (x x)) (lambda x (x x))) loops forever; the explicit
    // continuation stack keeps it from touching the host stack.
    let omega = list(vec![kw("lambda"), sym("x"), list(vec![sym("x"), sym("x")])]);
    let program = list(vec![omega.clone(), omega]);
    assert!(matches!(eval(program), Err(EvalError::OutOfSteps)));
}

#[test]
fn a_deep_tower_of_additions_evaluates() {
    // A right-nested tower of additions a couple of thousand levels
    // deep: evaluation depth lives on the explicit continuation stack.
    let mut program = Sexp::Int(0);
    for _ in 0..2_000 {
        program = list(vec![sym("plus"), Sexp::Int(1), program]);
    }
    let expr = lexpr_to_mir(&program).unwrap().desugar();
    assert!(is_runnable(&expr));
    match run(&expr, 10_000_000) {
        Ok(Obj::Int(n)) => assert_eq!(n, 2_000),
        other => panic!("expected an integer, got {:?}", other),
    }
}

#[test]
fn higher_level_primitives_are_rejected_before_evaluation() {
    assert!(!is_runnable(&MirExpr::Primitive(Primitive::Pure)));
    assert!(!is_runnable(&MirExpr::nop()));
    assert!(!is_runnable(&MirExpr::Primitive(Primitive::Get(0))));
    let ok = MirExpr::apply(
        MirExpr::Primitive(Primitive::Plus),
        MirExpr::literal(MirLiteral::Int(1)),
    );
    assert!(is_runnable(&ok));
}

#[test]
fn undesugared_let_is_rejected_before_evaluation() {
    let expr = lexpr_to_mir(&list(vec![
        kw("let"),
        list(vec![sym("x"), Sexp::Int(1)]),
        sym("x"),
    ]))
    .unwrap();
    assert!(!is_runnable(&expr));
    assert!(is_runnable(&expr.desugar()));
}
