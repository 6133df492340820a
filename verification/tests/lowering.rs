use brine::cfg::{switch, Cfg, Jump};
use brine::compiler::{compile, create_res_lambda, lift, CompileError, Compiler};
use brine::expr::Value;
use brine::hir::{Declaration, Expr, ExprType, FuncDef, LiteralValue, Stmt, Type};
use brine::mir::{MirExpr, MirInternedStr, MirLiteral, Primitive};
use brine::miri::{is_runnable, run, Obj};

const BUDGET: u64 = 100_000;

fn ident(s: &str) -> MirInternedStr {
    MirInternedStr::get_or_intern(s)
}

fn int_lit(i: i64) -> Expr {
    Expr { expr: ExprType::Literal(LiteralValue::Int(i)), ctype: Type::Int }
}

fn eval_int(expr: &MirExpr) -> i64 {
    let expr = expr.desugar();
    assert!(is_runnable(&expr), "lowered program should be runnable");
    match run(&expr, BUDGET) {
        Ok(Obj::Int(i)) => i,
        other => panic!("expected an integer result, got {:?}", other),
    }
}

#[test]
fn jump_and_return_block_discipline() {
    // One session: the jump and the return block are each set once and
    // the lowering reflects exactly that shape.
    let mut cfg = Cfg::default();
    let ret = cfg.add_block();
    cfg.set_return_block(ret);
    cfg.add_instr(create_res_lambda(MirExpr::literal(MirLiteral::Int(9))));
    cfg.set_jump(Jump::Jmp(ret));
    let lowered = cfg.to_mir().expect("a closed graph lowers");
    assert_eq!(eval_int(&lowered), 9);
}

#[test]
fn lowering_fails_without_a_return_block() {
    let cfg = Cfg::default();
    assert!(cfg.to_mir().is_none());
}

#[test]
fn lowering_fails_on_a_dead_end_block() {
    let mut cfg = Cfg::default();
    let ret = cfg.add_block();
    cfg.set_return_block(ret);
    // The entry block has no jump, so control never reaches the return
    // block.
    assert!(cfg.to_mir().is_none());
}

#[test]
fn conditional_jump_selects_a_branch() {
    let mut cfg = Cfg::default();
    let then_block = cfg.add_block();
    let else_block = cfg.add_block();
    let ret = cfg.add_block();
    cfg.set_return_block(ret);
    cfg.add_instr(create_res_lambda(MirExpr::literal(MirLiteral::Bool(false))));
    cfg.set_jump(Jump::Br(then_block, else_block));
    cfg.switch_to_block(then_block);
    cfg.add_instr(create_res_lambda(MirExpr::literal(MirLiteral::Int(1))));
    cfg.set_jump(Jump::Jmp(ret));
    cfg.switch_to_block(else_block);
    cfg.add_instr(create_res_lambda(MirExpr::literal(MirLiteral::Int(2))));
    cfg.set_jump(Jump::Jmp(ret));
    let lowered = cfg.to_mir().expect("a closed graph lowers");
    assert_eq!(eval_int(&lowered), 2);
}

#[test]
fn switch_selects_by_discriminant() {
    let candidates = vec![
        MirExpr::literal(MirLiteral::Int(10)),
        MirExpr::literal(MirLiteral::Int(20)),
        MirExpr::literal(MirLiteral::Int(30)),
    ];
    let s = switch(MirExpr::literal(MirLiteral::Int(1)), candidates);
    assert_eq!(eval_int(&s), 20);
}

#[test]
fn switch_falls_through_to_the_last_candidate() {
    let candidates = vec![
        MirExpr::literal(MirLiteral::Int(10)),
        MirExpr::literal(MirLiteral::Int(20)),
        MirExpr::literal(MirLiteral::Int(30)),
    ];
    let s = switch(MirExpr::literal(MirLiteral::Int(7)), candidates);
    assert_eq!(eval_int(&s), 30);
}

#[test]
fn compile_returns_main() {
    let main = FuncDef {
        name: ident("main"),
        stmts: vec![Stmt::Return(Some(int_lit(42)))],
    };
    let lowered = compile(vec![main]).expect("compiles");
    assert_eq!(eval_int(&lowered), 42);
}

#[test]
fn compile_without_main_is_an_error() {
    let f = FuncDef {
        name: ident("helper"),
        stmts: vec![Stmt::Return(Some(int_lit(1)))],
    };
    assert!(matches!(compile(vec![f]), Err(CompileError::NoMain)));
}

#[test]
fn compile_rejects_a_function_that_never_returns() {
    let main = FuncDef {
        name: ident("main"),
        stmts: vec![Stmt::Expr(int_lit(1))],
    };
    assert!(matches!(compile(vec![main]), Err(CompileError::OpenControlFlow)));
}

#[test]
fn compile_reports_undeclared_names() {
    let main = FuncDef {
        name: ident("main"),
        stmts: vec![Stmt::Return(Some(Expr {
            expr: ExprType::Id(ident("x")),
            ctype: Type::Int,
        }))],
    };
    match compile(vec![main]) {
        Err(CompileError::UndeclaredName(n)) => assert_eq!(n.resolve_and_clone(), "x"),
        other => panic!("expected an undeclared-name error, got {:?}", other),
    }
}

#[test]
fn declarations_bind_stack_slots() {
    // A declared name compiles to a slot read; slots count up from zero.
    let main = FuncDef {
        name: ident("main"),
        stmts: vec![
            Stmt::Decl(vec![Declaration { name: ident("a") }, Declaration { name: ident("b") }]),
            Stmt::Return(Some(Expr { expr: ExprType::Id(ident("b")), ctype: Type::Int })),
        ],
    };
    let lowered = compile(vec![main]).expect("compiles");
    // The lowered form holds the slot-read primitive for slot 1 inside
    // the filled entry block.
    let text = format!("{:?}", lowered);
    assert!(text.contains("Get(1)"), "lowered form should read slot 1: {}", text);
}

#[test]
fn literal_lowering_follows_the_type() {
    let mut c = Compiler::new();
    let v = c
        .compile_literal(Type::Bool, LiteralValue::Int(5))
        .expect("literals lower");
    assert_eq!(v.val, MirExpr::literal(MirLiteral::Bool(true)));
    assert!(v.pure);
    let v = c.compile_literal(Type::Int, LiteralValue::Char(65)).expect("literals lower");
    assert_eq!(v.val, MirExpr::literal(MirLiteral::Int(65)));
}

#[test]
fn compound_statements_flatten() {
    let main = FuncDef {
        name: ident("main"),
        stmts: vec![Stmt::Compound(vec![
            Stmt::Expr(int_lit(1)),
            Stmt::Return(Some(int_lit(7))),
        ])],
    };
    let lowered = compile(vec![main]).expect("compiles");
    assert_eq!(eval_int(&lowered), 7);
}

#[test]
fn if_statements_join_in_a_continuation_block() {
    let main = FuncDef {
        name: ident("main"),
        stmts: vec![
            Stmt::If(
                Expr { expr: ExprType::Literal(LiteralValue::Int(1)), ctype: Type::Bool },
                Box::new(Stmt::Expr(int_lit(1))),
                Some(Box::new(Stmt::Expr(int_lit(2)))),
            ),
            Stmt::Return(Some(int_lit(3))),
        ],
    };
    let lowered = compile(vec![main]).expect("compiles");
    assert_eq!(eval_int(&lowered), 3);
}

#[test]
fn returns_inside_branches_select_by_the_condition() {
    let branching = |cond: i64| FuncDef {
        name: ident("main"),
        stmts: vec![Stmt::If(
            Expr { expr: ExprType::Literal(LiteralValue::Int(cond)), ctype: Type::Bool },
            Box::new(Stmt::Return(Some(int_lit(1)))),
            Some(Box::new(Stmt::Return(Some(int_lit(2))))),
        )],
    };
    let then_taken = compile(vec![branching(1)]).expect("compiles");
    assert_eq!(eval_int(&then_taken), 1);
    let else_taken = compile(vec![branching(0)]).expect("compiles");
    assert_eq!(eval_int(&else_taken), 2);
}

#[test]
fn a_missing_else_arm_falls_through() {
    let main = FuncDef {
        name: ident("main"),
        stmts: vec![
            Stmt::If(
                Expr { expr: ExprType::Literal(LiteralValue::Int(0)), ctype: Type::Bool },
                Box::new(Stmt::Return(Some(int_lit(1)))),
                None,
            ),
            Stmt::Return(Some(int_lit(9))),
        ],
    };
    let lowered = compile(vec![main]).expect("compiles");
    assert_eq!(eval_int(&lowered), 9);
}

#[test]
fn gensym_counts_up() {
    let mut c = Compiler::new();
    assert_eq!(c.gensym("tmp").resolve_and_clone(), "__tmp_0");
    assert_eq!(c.gensym("tmp").resolve_and_clone(), "__tmp_1");
    assert_eq!(c.gensym("branch").resolve_and_clone(), "__branch_2");
    let mut big = Compiler::new();
    for _ in 0..1234 {
        big.gensym("x");
    }
    assert_eq!(big.gensym("x").resolve_and_clone(), "__x_1234");
}

#[test]
fn lift_wraps_in_the_unit_action() {
    let v = Value { val: MirExpr::literal(MirLiteral::Int(1)), ctype: Type::Int, pure: true };
    let lifted = lift(v);
    assert_eq!(
        lifted.val,
        MirExpr::apply(
            MirExpr::Primitive(Primitive::Pure),
            MirExpr::literal(MirLiteral::Int(1))
        )
    );
    assert!(!lifted.pure);
}

#[test]
fn res_lambda_binds_the_result_name() {
    let l = create_res_lambda(MirExpr::literal(MirLiteral::Int(3)));
    assert_eq!(l.arg.resolve_and_clone(), "_res");
    assert_eq!(l.body, MirExpr::literal(MirLiteral::Int(3)));
}
