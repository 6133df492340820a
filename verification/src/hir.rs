//! The typed statement language the lowering consumes: an already
//! checked list of statements and declarations, with expressions bearing
//! a resolved literal value or a resolved variable identifier. Types are
//! trusted as given and never re-validated here.

use vstd::prelude::*;

use crate::mir::MirInternedStr;

verus! {

broadcast use vstd::std_specs::vec::axiom_vec_decreases_to_view, vstd::std_specs::vec::axiom_vec_index_decreases;

/// A resolved literal token.
#[derive(Debug, Clone, Copy, PartialEq, Eq, Structural)]
pub enum LiteralValue {
    Int(i64),
    Char(u8),
}

/// The value type an expression bears.
#[derive(Debug, Clone, Copy, PartialEq, Eq, Structural)]
pub enum Type {
    Bool,
    Int,
}

/// A typed expression: a literal or a resolved variable reference.
#[derive(Debug)]
pub struct Expr {
    pub expr: ExprType,
    pub ctype: Type,
}

#[derive(Debug)]
pub enum ExprType {
    Literal(LiteralValue),
    Id(MirInternedStr),
}

/// A declaration: a name to be given a stack slot.
#[derive(Debug)]
pub struct Declaration {
    pub name: MirInternedStr,
}

/// A structured statement.
#[derive(Debug)]
pub enum Stmt {
    Compound(Vec<Stmt>),
    Decl(Vec<Declaration>),
    Expr(Expr),
    Return(Option<Expr>),
    If(Expr, Box<Stmt>, Option<Box<Stmt>>),
}

/// A function definition: its name and its body statements.
#[derive(Debug)]
pub struct FuncDef {
    pub name: MirInternedStr,
    pub stmts: Vec<Stmt>,
}

pub struct ExprV {
    pub expr: ExprTypeV,
    pub ctype: Type,
}

pub enum ExprTypeV {
    Literal(LiteralValue),
    Id(Seq<char>),
}

pub struct DeclV {
    pub name: Seq<char>,
}

pub enum StmtV {
    Compound(Seq<StmtV>),
    Decl(Seq<DeclV>),
    Expr(ExprV),
    Return(Option<ExprV>),
    If(ExprV, Box<StmtV>, Option<Box<StmtV>>),
}

pub struct FuncDefV {
    pub name: Seq<char>,
    pub stmts: Seq<StmtV>,
}

impl Clone for Expr {
    fn clone(&self) -> (r: Self)
        ensures
            r@ == self@,
    {
        Expr {
            expr: match &self.expr {
                ExprType::Literal(t) => ExprType::Literal(*t),
                ExprType::Id(n) => ExprType::Id(n.clone()),
            },
            ctype: self.ctype,
        }
    }
}

impl Clone for Declaration {
    fn clone(&self) -> (r: Self)
        ensures
            r@ == self@,
    {
        Declaration { name: self.name.clone() }
    }
}

impl View for Expr {
    type V = ExprV;

    open spec fn view(&self) -> ExprV {
        ExprV {
            expr: match self.expr {
                ExprType::Literal(t) => ExprTypeV::Literal(t),
                ExprType::Id(ref n) => ExprTypeV::Id(n@),
            },
            ctype: self.ctype,
        }
    }
}

impl View for Declaration {
    type V = DeclV;

    open spec fn view(&self) -> DeclV {
        DeclV { name: self.name@ }
    }
}

pub open spec fn stmts_view(s: Seq<Stmt>) -> Seq<StmtV>
    decreases s,
{
    if s.len() == 0 {
        Seq::empty()
    } else {
        stmts_view(s.drop_last()).push(stmt_view(s.last()))
    }
}

pub open spec fn stmt_view(s: Stmt) -> StmtV
    decreases s,
{
    match s {
        Stmt::Compound(stmts) => StmtV::Compound(stmts_view(stmts@)),
        Stmt::Decl(decls) => StmtV::Decl(decls@.map_values(|d: Declaration| d@)),
        Stmt::Expr(e) => StmtV::Expr(e@),
        Stmt::Return(e) => StmtV::Return(
            match e {
                None => None,
                Some(x) => Some(x@),
            },
        ),
        Stmt::If(cond, body, otherwise) => StmtV::If(
            cond@,
            Box::new(stmt_view(*body)),
            match otherwise {
                None => None,
                Some(o) => Some(Box::new(stmt_view(*o))),
            },
        ),
    }
}

impl View for Stmt {
    type V = StmtV;

    open spec fn view(&self) -> StmtV {
        stmt_view(*self)
    }
}

impl View for FuncDef {
    type V = FuncDefV;

    open spec fn view(&self) -> FuncDefV {
        FuncDefV { name: self.name@, stmts: stmts_view(self.stmts@) }
    }
}

} // verus!
