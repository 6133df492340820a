//! The MIR expression language: literals, references, lambda abstraction,
//! application, conditionals, let-bindings, primitive operations, and the
//! desugaring transform that rewrites every `let` into a lambda application.

use vstd::prelude::*;

verus! {

/// An identifier. Identifiers are compared by their text; the type keeps
/// the name the wider project uses for its interning-table handles.
#[derive(Debug)]
pub struct MirInternedStr {
    text: String,
}

impl View for MirInternedStr {
    type V = Seq<char>;

    closed spec fn view(&self) -> Seq<char> {
        self.text@
    }
}

impl MirInternedStr {
    /// Make an identifier from its text.
    pub fn get_or_intern(val: &str) -> (r: MirInternedStr)
        ensures
            r@ == val@,
    {
        MirInternedStr { text: val.to_owned() }
    }

    pub fn is_empty(&self) -> (r: bool)
        ensures
            r == (self@.len() == 0),
    {
        self.text.as_str().unicode_len() == 0
    }

    /// The identifier's text as a fresh `String`.
    pub fn resolve_and_clone(&self) -> (r: String)
        ensures
            r@ == self@,
    {
        self.text.clone()
    }
}

impl Clone for MirInternedStr {
    fn clone(&self) -> (r: Self)
        ensures
            r == *self,
    {
        MirInternedStr { text: self.text.clone() }
    }
}

impl PartialEq for MirInternedStr {
    fn eq(&self, other: &Self) -> (r: bool)
        ensures
            r == (self@ == other@),
    {
        self.text == other.text
    }
}

impl vstd::std_specs::cmp::PartialEqSpecImpl for MirInternedStr {
    open spec fn obeys_eq_spec() -> bool {
        true
    }

    open spec fn eq_spec(&self, other: &Self) -> bool {
        self@ == other@
    }
}

/// A primitive operation tag. The first group fires with a fixed arity
/// during interpretation; the tags from `Get` on are higher-level forms
/// that must be rewritten away before an expression reaches the
/// interpreter.
#[derive(Debug, Clone, Copy, PartialEq, Eq, Structural)]
pub enum Primitive {
    Plus,
    Minus,
    Times,
    Div,
    Mod,
    Neg,
    And,
    Or,
    Xor,
    Cons,
    Car,
    Cdr,
    Eq,
    Lt,
    Le,
    Gt,
    Ge,
    BoolToInt,
    Get(usize),
    Store(usize),
    Pure,
    Lift,
    Then,
    Y,
}

/// A literal value: boolean, 64-bit signed integer, or the unit/null value.
#[derive(Debug, Clone, Copy, PartialEq, Eq, Structural)]
pub enum MirLiteral {
    Bool(bool),
    Int(i64),
    Null,
}

/// A MIR expression.
#[derive(Debug, PartialEq)]
pub enum MirExpr {
    Let(Box<Let>),
    Lambda(Box<Lambda>),
    If(Box<If>),
    Apply(Box<Apply>),
    Primitive(Primitive),
    Literal(Box<MirLiteral>),
    Ref(MirInternedStr),
    Comment(String, Box<MirExpr>),
}

#[derive(Debug, PartialEq)]
pub struct Let {
    pub ident: MirInternedStr,
    pub value: MirExpr,
    pub body: MirExpr,
}

#[derive(Debug, PartialEq)]
pub struct Lambda {
    pub arg: MirInternedStr,
    pub body: MirExpr,
}

#[derive(Debug, PartialEq)]
pub struct If {
    pub condition: MirExpr,
    pub consequent: MirExpr,
    pub alternative: MirExpr,
}

#[derive(Debug, PartialEq)]
pub struct Apply {
    pub func: MirExpr,
    pub arg: MirExpr,
}

/// The mathematical shape of a MIR expression: identifiers are character
/// sequences, structure is as in `MirExpr`.
pub enum MirExprV {
    Let { ident: Seq<char>, value: Box<MirExprV>, body: Box<MirExprV> },
    Lambda { arg: Seq<char>, body: Box<MirExprV> },
    If { condition: Box<MirExprV>, consequent: Box<MirExprV>, alternative: Box<MirExprV> },
    Apply { func: Box<MirExprV>, arg: Box<MirExprV> },
    Primitive(Primitive),
    Literal(MirLiteral),
    Ref(Seq<char>),
    Comment(Seq<char>, Box<MirExprV>),
}

pub open spec fn expr_view(e: MirExpr) -> MirExprV
    decreases e,
{
    match e {
        MirExpr::Let(l) => MirExprV::Let {
            ident: l.ident@,
            value: Box::new(expr_view(l.value)),
            body: Box::new(expr_view(l.body)),
        },
        MirExpr::Lambda(l) => MirExprV::Lambda {
            arg: l.arg@,
            body: Box::new(expr_view(l.body)),
        },
        MirExpr::If(i) => MirExprV::If {
            condition: Box::new(expr_view(i.condition)),
            consequent: Box::new(expr_view(i.consequent)),
            alternative: Box::new(expr_view(i.alternative)),
        },
        MirExpr::Apply(a) => MirExprV::Apply {
            func: Box::new(expr_view(a.func)),
            arg: Box::new(expr_view(a.arg)),
        },
        MirExpr::Primitive(p) => MirExprV::Primitive(p),
        MirExpr::Literal(l) => MirExprV::Literal(*l),
        MirExpr::Ref(r) => MirExprV::Ref(r@),
        MirExpr::Comment(text, inner) => MirExprV::Comment(text@, Box::new(expr_view(*inner))),
    }
}

impl View for MirExpr {
    type V = MirExprV;

    open spec fn view(&self) -> MirExprV {
        expr_view(*self)
    }
}

impl MirExpr {
    pub fn apply(func: MirExpr, arg: MirExpr) -> (r: MirExpr)
        ensures
            r@ == (MirExprV::Apply { func: Box::new(func@), arg: Box::new(arg@) }),
    {
        MirExpr::Apply(Box::new(Apply { func, arg }))
    }

    pub fn literal(ml: MirLiteral) -> (r: MirExpr)
        ensures
            r@ == MirExprV::Literal(ml),
    {
        MirExpr::Literal(Box::new(ml))
    }

    pub fn if_(condition: MirExpr, consequent: MirExpr, alternative: MirExpr) -> (r: MirExpr)
        ensures
            r@ == (MirExprV::If {
                condition: Box::new(condition@),
                consequent: Box::new(consequent@),
                alternative: Box::new(alternative@),
            }),
    {
        MirExpr::If(Box::new(If { condition, consequent, alternative }))
    }

    pub fn lambda(arg: MirInternedStr, body: MirExpr) -> (r: MirExpr)
        ensures
            r@ == (MirExprV::Lambda { arg: arg@, body: Box::new(body@) }),
    {
        MirExpr::Lambda(Box::new(Lambda { arg, body }))
    }

    pub fn let_(ident: MirInternedStr, value: MirExpr, body: MirExpr) -> (r: MirExpr)
        ensures
            r@ == (MirExprV::Let {
                ident: ident@,
                value: Box::new(value@),
                body: Box::new(body@),
            }),
    {
        MirExpr::Let(Box::new(Let { ident, value, body }))
    }

    /// The canonical side-effect-free unit action.
    pub fn nop() -> (r: MirExpr)
        ensures
            r@ == nop_view(),
    {
        MirExpr::apply(
            MirExpr::Primitive(Primitive::Pure),
            MirExpr::literal(MirLiteral::Null),
        )
    }
}

pub open spec fn nop_view() -> MirExprV {
    MirExprV::Apply {
        func: Box::new(MirExprV::Primitive(Primitive::Pure)),
        arg: Box::new(MirExprV::Literal(MirLiteral::Null)),
    }
}

impl Clone for MirExpr {
    fn clone(&self) -> (r: Self)
        ensures
            r@ == self@,
        decreases *self,
    {
        match self {
            MirExpr::Let(l) => MirExpr::let_(l.ident.clone(), l.value.clone(), l.body.clone()),
            MirExpr::Lambda(l) => MirExpr::lambda(l.arg.clone(), l.body.clone()),
            MirExpr::If(i) => MirExpr::if_(
                i.condition.clone(),
                i.consequent.clone(),
                i.alternative.clone(),
            ),
            MirExpr::Apply(a) => MirExpr::apply(a.func.clone(), a.arg.clone()),
            MirExpr::Primitive(p) => MirExpr::Primitive(*p),
            MirExpr::Literal(l) => MirExpr::literal(**l),
            MirExpr::Ref(r) => MirExpr::Ref(r.clone()),
            MirExpr::Comment(text, inner) => MirExpr::Comment(
                text.clone(),
                Box::new((**inner).clone()),
            ),
        }
    }
}

/// What desugaring yields: every `Let(ident, value, body)` becomes
/// `Apply(Lambda(ident, body), value)`, with children rewritten first;
/// all other variants keep their shape.
pub open spec fn desugar_view(e: MirExprV) -> MirExprV
    decreases e,
{
    match e {
        MirExprV::Let { ident, value, body } => MirExprV::Apply {
            func: Box::new(MirExprV::Lambda { arg: ident, body: Box::new(desugar_view(*body)) }),
            arg: Box::new(desugar_view(*value)),
        },
        MirExprV::Lambda { arg, body } => MirExprV::Lambda {
            arg,
            body: Box::new(desugar_view(*body)),
        },
        MirExprV::If { condition, consequent, alternative } => MirExprV::If {
            condition: Box::new(desugar_view(*condition)),
            consequent: Box::new(desugar_view(*consequent)),
            alternative: Box::new(desugar_view(*alternative)),
        },
        MirExprV::Apply { func, arg } => MirExprV::Apply {
            func: Box::new(desugar_view(*func)),
            arg: Box::new(desugar_view(*arg)),
        },
        MirExprV::Comment(text, inner) => MirExprV::Comment(
            text,
            Box::new(desugar_view(*inner)),
        ),
        _ => e,
    }
}

/// No `Let` node occurs anywhere in the tree.
pub open spec fn has_no_let(e: MirExprV) -> bool
    decreases e,
{
    match e {
        MirExprV::Let { .. } => false,
        MirExprV::Lambda { body, .. } => has_no_let(*body),
        MirExprV::If { condition, consequent, alternative } => has_no_let(*condition)
            && has_no_let(*consequent) && has_no_let(*alternative),
        MirExprV::Apply { func, arg } => has_no_let(*func) && has_no_let(*arg),
        MirExprV::Comment(_, inner) => has_no_let(*inner),
        _ => true,
    }
}

impl MirExpr {
    /// Rewrite every `Let` into a lambda application, throughout the tree.
    pub fn desugar(&self) -> (r: MirExpr)
        ensures
            r@ == desugar_view(self@),
        decreases *self,
    {
        match self {
            MirExpr::Let(l) => MirExpr::apply(
                MirExpr::lambda(l.ident.clone(), l.body.desugar()),
                l.value.desugar(),
            ),
            MirExpr::Lambda(l) => MirExpr::lambda(l.arg.clone(), l.body.desugar()),
            MirExpr::If(i) => MirExpr::if_(
                i.condition.desugar(),
                i.consequent.desugar(),
                i.alternative.desugar(),
            ),
            MirExpr::Apply(a) => MirExpr::apply(a.func.desugar(), a.arg.desugar()),
            MirExpr::Primitive(p) => MirExpr::Primitive(*p),
            MirExpr::Literal(l) => MirExpr::literal(**l),
            MirExpr::Ref(r) => MirExpr::Ref(r.clone()),
            MirExpr::Comment(text, inner) => MirExpr::Comment(
                text.clone(),
                Box::new(inner.desugar()),
            ),
        }
    }
}

/// Law: a desugared expression contains no `Let` node.
pub proof fn lemma_desugar_no_let(e: MirExprV)
    ensures
        has_no_let(desugar_view(e)),
    decreases e,
{
    match e {
        MirExprV::Let { ident, value, body } => {
            lemma_desugar_no_let(*value);
            lemma_desugar_no_let(*body);
            assert(has_no_let(
                MirExprV::Lambda { arg: ident, body: Box::new(desugar_view(*body)) },
            ));
        }
        MirExprV::Lambda { arg, body } => lemma_desugar_no_let(*body),
        MirExprV::If { condition, consequent, alternative } => {
            lemma_desugar_no_let(*condition);
            lemma_desugar_no_let(*consequent);
            lemma_desugar_no_let(*alternative);
        }
        MirExprV::Apply { func, arg } => {
            lemma_desugar_no_let(*func);
            lemma_desugar_no_let(*arg);
        }
        MirExprV::Comment(_, inner) => lemma_desugar_no_let(*inner),
        _ => {}
    }
}

/// Desugaring does not change an expression that is already free of `Let`.
pub proof fn lemma_desugar_fixes_no_let(e: MirExprV)
    requires
        has_no_let(e),
    ensures
        desugar_view(e) == e,
    decreases e,
{
    match e {
        MirExprV::Lambda { arg, body } => lemma_desugar_fixes_no_let(*body),
        MirExprV::If { condition, consequent, alternative } => {
            lemma_desugar_fixes_no_let(*condition);
            lemma_desugar_fixes_no_let(*consequent);
            lemma_desugar_fixes_no_let(*alternative);
        }
        MirExprV::Apply { func, arg } => {
            lemma_desugar_fixes_no_let(*func);
            lemma_desugar_fixes_no_let(*arg);
        }
        MirExprV::Comment(_, inner) => lemma_desugar_fixes_no_let(*inner),
        _ => {}
    }
}

/// Law: desugaring is idempotent.
pub proof fn lemma_desugar_idempotent(e: MirExprV)
    ensures
        desugar_view(desugar_view(e)) == desugar_view(e),
{
    lemma_desugar_no_let(e);
    lemma_desugar_fixes_no_let(desugar_view(e));
}

} // verus!
