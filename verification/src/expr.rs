//! Expression lowering: typed expressions become MIR values, with
//! purity tracked so later passes know what may be reordered.

use vstd::prelude::*;

use crate::compiler::{lookup_slot, Compiler, CompileError, CompileErrorV, CompilerV};
use crate::hir::{Expr, ExprType, ExprTypeV, ExprV, LiteralValue, Type};
use crate::mir::{MirExpr, MirExprV, MirLiteral, Primitive};

verus! {

/// A lowered expression: the MIR form, the value type it bears, and
/// whether it is free of effects.
#[derive(Debug)]
pub struct Value {
    pub val: MirExpr,
    pub ctype: Type,
    pub pure: bool,
}

pub struct ValueV {
    pub val: MirExprV,
    pub ctype: Type,
    pub pure: bool,
}

impl View for Value {
    type V = ValueV;

    open spec fn view(&self) -> ValueV {
        ValueV { val: self.val@, ctype: self.ctype, pure: self.pure }
    }
}

impl Clone for Value {
    fn clone(&self) -> (r: Self)
        ensures
            r@ == self@,
    {
        Value { val: self.val.clone(), ctype: self.ctype, pure: self.pure }
    }
}

/// What a literal token lowers to: an integer destined for a boolean
/// slot becomes its truth value; characters widen to integers.
pub open spec fn compile_literal_view(ctype: Type, token: LiteralValue) -> MirExprV {
    match (token, ctype) {
        (LiteralValue::Int(i), Type::Bool) => MirExprV::Literal(MirLiteral::Bool(i != 0)),
        (LiteralValue::Int(i), _) => MirExprV::Literal(MirLiteral::Int(i)),
        (LiteralValue::Char(c), _) => MirExprV::Literal(MirLiteral::Int(c as i64)),
    }
}

/// What an expression lowers to: a literal is pure; a resolved variable
/// becomes a slot read, an effect.
pub open spec fn compile_expr_view(c: CompilerV, e: ExprV) -> Result<ValueV, CompileErrorV> {
    match e.expr {
        ExprTypeV::Literal(tok) => Ok(ValueV {
            val: compile_literal_view(e.ctype, tok),
            ctype: e.ctype,
            pure: true,
        }),
        ExprTypeV::Id(name) => match lookup_slot(c.stack_positions, name) {
            Some(slot) => Ok(ValueV {
                val: MirExprV::Primitive(Primitive::Get(slot)),
                ctype: e.ctype,
                pure: false,
            }),
            None => Err(CompileErrorV::UndeclaredName(name)),
        },
    }
}

impl Compiler {
    /// Lower one typed expression. The session itself is unchanged.
    pub fn compile_expr(&mut self, expr: Expr) -> (r: Result<Value, CompileError>)
        ensures
            final(self)@ == old(self)@,
            match r {
                Ok(v) => compile_expr_view(old(self)@, expr@) == Ok::<ValueV, CompileErrorV>(v@),
                Err(e) => compile_expr_view(old(self)@, expr@) == Err::<ValueV, CompileErrorV>(
                    e@,
                ),
            },
    {
        let Expr { expr: inner, ctype } = expr;
        match inner {
            ExprType::Literal(token) => self.compile_literal(ctype, token),
            ExprType::Id(name) => {
                let slot = match self.get_stack(&name) {
                    Ok(slot) => slot,
                    Err(e) => {
                        return Err(e);
                    },
                };
                Ok(Value {
                    val: MirExpr::Primitive(Primitive::Get(slot)),
                    ctype,
                    pure: false,
                })
            }
        }
    }

    /// Lower one literal token under the type it bears. Never fails.
    pub fn compile_literal(&mut self, ctype: Type, token: LiteralValue) -> (r: Result<
        Value,
        CompileError,
    >)
        ensures
            final(self)@ == old(self)@,
            match r {
                Ok(v) => v@ == (ValueV {
                    val: compile_literal_view(ctype, token),
                    ctype,
                    pure: true,
                }),
                Err(_) => false,
            },
    {
        let val = match (token, ctype) {
            (LiteralValue::Int(i), Type::Bool) => MirExpr::literal(MirLiteral::Bool(i != 0)),
            (LiteralValue::Int(i), _) => MirExpr::literal(MirLiteral::Int(i)),
            (LiteralValue::Char(c), _) => MirExpr::literal(MirLiteral::Int(c as i64)),
        };
        Ok(Value { val, ctype, pure: true })
    }
}

} // verus!
