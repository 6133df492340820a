//! The textual interchange shape for MIR: a symbolic-expression tree, with
//! the encoder from MIR and the decoder back.
//!
//! Keyword forms carry a fixed arity (`let`, `lambda`, `if`, `comment`);
//! application is plain juxtaposition; primitive tags serialize to fixed
//! lowercase hyphenated symbol names; a bare symbol that is not a primitive
//! name is a free reference.

use vstd::prelude::*;

use crate::mir::{MirExpr, MirExprV, MirInternedStr, MirLiteral, Primitive};

verus! {

/// A symbolic-expression value: what a reader hands the decoder and what
/// the encoder hands a printer. Cons cells make lists; `Null` ends a
/// proper list.
#[derive(Debug, PartialEq)]
pub enum Sexp {
    Null,
    Nil,
    Bool(bool),
    Int(i64),
    /// A number that does not fit a 64-bit signed integer, kept as text.
    BigNumber(String),
    Symbol(String),
    Keyword(String),
    Str(String),
    Char(char),
    Bytes(Vec<u8>),
    Cons(Box<Sexp>, Box<Sexp>),
    Vector,
}

/// The mathematical shape of a symbolic expression.
pub enum SexpV {
    Null,
    Nil,
    Bool(bool),
    Int(i64),
    BigNumber(Seq<char>),
    Symbol(Seq<char>),
    Keyword(Seq<char>),
    Str(Seq<char>),
    Char(char),
    Bytes(Seq<u8>),
    Cons(Box<SexpV>, Box<SexpV>),
    Vector,
}

pub open spec fn sexp_view(s: Sexp) -> SexpV
    decreases s,
{
    match s {
        Sexp::Null => SexpV::Null,
        Sexp::Nil => SexpV::Nil,
        Sexp::Bool(b) => SexpV::Bool(b),
        Sexp::Int(i) => SexpV::Int(i),
        Sexp::BigNumber(t) => SexpV::BigNumber(t@),
        Sexp::Symbol(t) => SexpV::Symbol(t@),
        Sexp::Keyword(t) => SexpV::Keyword(t@),
        Sexp::Str(t) => SexpV::Str(t@),
        Sexp::Char(c) => SexpV::Char(c),
        Sexp::Bytes(b) => SexpV::Bytes(b@),
        Sexp::Cons(car, cdr) => SexpV::Cons(
            Box::new(sexp_view(*car)),
            Box::new(sexp_view(*cdr)),
        ),
        Sexp::Vector => SexpV::Vector,
    }
}

impl View for Sexp {
    type V = SexpV;

    open spec fn view(&self) -> SexpV {
        sexp_view(*self)
    }
}

impl Clone for Sexp {
    fn clone(&self) -> (r: Self)
        ensures
            r@ == self@,
        decreases *self,
    {
        match self {
            Sexp::Null => Sexp::Null,
            Sexp::Nil => Sexp::Nil,
            Sexp::Bool(b) => Sexp::Bool(*b),
            Sexp::Int(i) => Sexp::Int(*i),
            Sexp::BigNumber(t) => Sexp::BigNumber(t.clone()),
            Sexp::Symbol(t) => Sexp::Symbol(t.clone()),
            Sexp::Keyword(t) => Sexp::Keyword(t.clone()),
            Sexp::Str(t) => Sexp::Str(t.clone()),
            Sexp::Char(c) => Sexp::Char(*c),
            Sexp::Bytes(b) => {
                let mut copy: Vec<u8> = Vec::new();
                let mut i: usize = 0;
                while i < b.len()
                    invariant
                        i <= b.len(),
                        copy@ == b@.subrange(0, i as int),
                    decreases b.len() - i,
                {
                    copy.push(b[i]);
                    i = i + 1;
                    proof {
                        assert(copy@ =~= b@.subrange(0, i as int));
                    }
                }
                proof {
                    assert(copy@ =~= b@);
                }
                Sexp::Bytes(copy)
            }
            Sexp::Cons(car, cdr) => Sexp::Cons(
                Box::new((**car).clone()),
                Box::new((**cdr).clone()),
            ),
            Sexp::Vector => Sexp::Vector,
        }
    }
}

/// Why decoding failed, carrying the offending piece.
#[derive(Debug)]
pub enum DecodeError {
    /// A number with no 64-bit signed representation, as text.
    UnsupportedNumber(String),
    /// A keyword where a value was expected.
    KeywordAtTopLevel(String),
    /// A shape with no MIR meaning (a string, character, byte vector,
    /// vector, or empty-nil at value position).
    UnsupportedObject(Sexp),
    /// A list whose tail is not `Null`; carries the offending tail.
    ImproperList(Sexp),
    /// A keyword form with the wrong number of arguments: the form's
    /// name and the count it requires.
    WrongArity(String, usize),
    /// A `let` binding that is not a two-element list.
    BindingArity,
    /// Something other than a list where a `let` binding was expected.
    ExpectedPair(Sexp),
    /// Something other than a symbol where an identifier was expected.
    ExpectedSymbol(Sexp),
    /// Something other than a string literal as a comment's text.
    ExpectedString(Sexp),
    /// An unrecognized keyword.
    UnknownKeyword(String),
}

pub enum DecodeErrorV {
    UnsupportedNumber(Seq<char>),
    KeywordAtTopLevel(Seq<char>),
    UnsupportedObject(SexpV),
    ImproperList(SexpV),
    WrongArity(Seq<char>, usize),
    BindingArity,
    ExpectedPair(SexpV),
    ExpectedSymbol(SexpV),
    ExpectedString(SexpV),
    UnknownKeyword(Seq<char>),
}

impl View for DecodeError {
    type V = DecodeErrorV;

    open spec fn view(&self) -> DecodeErrorV {
        match self {
            DecodeError::UnsupportedNumber(t) => DecodeErrorV::UnsupportedNumber(t@),
            DecodeError::KeywordAtTopLevel(t) => DecodeErrorV::KeywordAtTopLevel(t@),
            DecodeError::UnsupportedObject(s) => DecodeErrorV::UnsupportedObject(s@),
            DecodeError::ImproperList(s) => DecodeErrorV::ImproperList(s@),
            DecodeError::WrongArity(t, n) => DecodeErrorV::WrongArity(t@, *n),
            DecodeError::BindingArity => DecodeErrorV::BindingArity,
            DecodeError::ExpectedPair(s) => DecodeErrorV::ExpectedPair(s@),
            DecodeError::ExpectedSymbol(s) => DecodeErrorV::ExpectedSymbol(s@),
            DecodeError::ExpectedString(s) => DecodeErrorV::ExpectedString(s@),
            DecodeError::UnknownKeyword(t) => DecodeErrorV::UnknownKeyword(t@),
        }
    }
}

/// Compare a `String` with a literal by contents.
fn string_is(a: &String, b: &str) -> (r: bool)
    ensures
        r == (a@ == b@),
{
    let b_owned: String = b.to_owned();
    *a == b_owned
}

/// The symbol name of each primitive tag.
pub open spec fn prim_name_view(p: Primitive) -> Seq<char> {
    match p {
        Primitive::Plus => "plus"@,
        Primitive::Minus => "minus"@,
        Primitive::Times => "times"@,
        Primitive::Div => "div"@,
        Primitive::Mod => "mod"@,
        Primitive::Neg => "neg"@,
        Primitive::And => "and"@,
        Primitive::Or => "or"@,
        Primitive::Xor => "xor"@,
        Primitive::Cons => "cons"@,
        Primitive::Car => "car"@,
        Primitive::Cdr => "cdr"@,
        Primitive::Eq => "eq"@,
        Primitive::Lt => "lt"@,
        Primitive::Le => "le"@,
        Primitive::Gt => "gt"@,
        Primitive::Ge => "ge"@,
        Primitive::BoolToInt => "bool-to-int"@,
        Primitive::Get(_) => "get"@,
        Primitive::Store(_) => "set"@,
        Primitive::Pure => "pure"@,
        Primitive::Lift => "lift"@,
        Primitive::Then => "then"@,
        Primitive::Y => "y"@,
    }
}

/// The primitive tag a symbol name denotes, if any. The slot-indexed
/// tags have no symbol of their own: their names read back as free
/// references, so they are absent here.
pub open spec fn prim_of_name_view(name: Seq<char>) -> Option<Primitive> {
    if name == "plus"@ {
        Some(Primitive::Plus)
    } else if name == "minus"@ {
        Some(Primitive::Minus)
    } else if name == "times"@ {
        Some(Primitive::Times)
    } else if name == "div"@ {
        Some(Primitive::Div)
    } else if name == "mod"@ {
        Some(Primitive::Mod)
    } else if name == "neg"@ {
        Some(Primitive::Neg)
    } else if name == "and"@ {
        Some(Primitive::And)
    } else if name == "or"@ {
        Some(Primitive::Or)
    } else if name == "xor"@ {
        Some(Primitive::Xor)
    } else if name == "cons"@ {
        Some(Primitive::Cons)
    } else if name == "car"@ {
        Some(Primitive::Car)
    } else if name == "cdr"@ {
        Some(Primitive::Cdr)
    } else if name == "eq"@ {
        Some(Primitive::Eq)
    } else if name == "lt"@ {
        Some(Primitive::Lt)
    } else if name == "le"@ {
        Some(Primitive::Le)
    } else if name == "gt"@ {
        Some(Primitive::Gt)
    } else if name == "ge"@ {
        Some(Primitive::Ge)
    } else if name == "bool-to-int"@ {
        Some(Primitive::BoolToInt)
    } else if name == "pure"@ {
        Some(Primitive::Pure)
    } else if name == "lift"@ {
        Some(Primitive::Lift)
    } else if name == "then"@ {
        Some(Primitive::Then)
    } else if name == "y"@ {
        Some(Primitive::Y)
    } else {
        None
    }
}

/// The serialized name of a primitive tag.
pub fn prim_name(p: Primitive) -> (r: String)
    ensures
        r@ == prim_name_view(p),
{
    match p {
        Primitive::Plus => "plus".to_owned(),
        Primitive::Minus => "minus".to_owned(),
        Primitive::Times => "times".to_owned(),
        Primitive::Div => "div".to_owned(),
        Primitive::Mod => "mod".to_owned(),
        Primitive::Neg => "neg".to_owned(),
        Primitive::And => "and".to_owned(),
        Primitive::Or => "or".to_owned(),
        Primitive::Xor => "xor".to_owned(),
        Primitive::Cons => "cons".to_owned(),
        Primitive::Car => "car".to_owned(),
        Primitive::Cdr => "cdr".to_owned(),
        Primitive::Eq => "eq".to_owned(),
        Primitive::Lt => "lt".to_owned(),
        Primitive::Le => "le".to_owned(),
        Primitive::Gt => "gt".to_owned(),
        Primitive::Ge => "ge".to_owned(),
        Primitive::BoolToInt => "bool-to-int".to_owned(),
        Primitive::Get(_) => "get".to_owned(),
        Primitive::Store(_) => "set".to_owned(),
        Primitive::Pure => "pure".to_owned(),
        Primitive::Lift => "lift".to_owned(),
        Primitive::Then => "then".to_owned(),
        Primitive::Y => "y".to_owned(),
    }
}

/// The primitive tag a symbol denotes, if any.
pub fn prim_of_name(name: &String) -> (r: Option<Primitive>)
    ensures
        r == prim_of_name_view(name@),
{
    if string_is(name, "plus") {
        Some(Primitive::Plus)
    } else if string_is(name, "minus") {
        Some(Primitive::Minus)
    } else if string_is(name, "times") {
        Some(Primitive::Times)
    } else if string_is(name, "div") {
        Some(Primitive::Div)
    } else if string_is(name, "mod") {
        Some(Primitive::Mod)
    } else if string_is(name, "neg") {
        Some(Primitive::Neg)
    } else if string_is(name, "and") {
        Some(Primitive::And)
    } else if string_is(name, "or") {
        Some(Primitive::Or)
    } else if string_is(name, "xor") {
        Some(Primitive::Xor)
    } else if string_is(name, "cons") {
        Some(Primitive::Cons)
    } else if string_is(name, "car") {
        Some(Primitive::Car)
    } else if string_is(name, "cdr") {
        Some(Primitive::Cdr)
    } else if string_is(name, "eq") {
        Some(Primitive::Eq)
    } else if string_is(name, "lt") {
        Some(Primitive::Lt)
    } else if string_is(name, "le") {
        Some(Primitive::Le)
    } else if string_is(name, "gt") {
        Some(Primitive::Gt)
    } else if string_is(name, "ge") {
        Some(Primitive::Ge)
    } else if string_is(name, "bool-to-int") {
        Some(Primitive::BoolToInt)
    } else if string_is(name, "pure") {
        Some(Primitive::Pure)
    } else if string_is(name, "lift") {
        Some(Primitive::Lift)
    } else if string_is(name, "then") {
        Some(Primitive::Then)
    } else if string_is(name, "y") {
        Some(Primitive::Y)
    } else {
        None
    }
}

pub open spec fn slist2(a: SexpV, b: SexpV) -> SexpV {
    SexpV::Cons(Box::new(a), Box::new(SexpV::Cons(Box::new(b), Box::new(SexpV::Null))))
}

pub open spec fn slist3(a: SexpV, b: SexpV, c: SexpV) -> SexpV {
    SexpV::Cons(Box::new(a), Box::new(slist2(b, c)))
}

pub open spec fn slist4(a: SexpV, b: SexpV, c: SexpV, d: SexpV) -> SexpV {
    SexpV::Cons(Box::new(a), Box::new(slist3(b, c, d)))
}

/// The symbolic-expression form of a MIR expression: keyword forms for
/// `let`, `lambda`, `if` and `comment`; juxtaposition for application;
/// fixed symbol names for primitive tags; literal atoms for literals.
pub open spec fn encode_view(e: MirExprV) -> SexpV
    decreases e,
{
    match e {
        MirExprV::Let { ident, value, body } => slist3(
            SexpV::Keyword("let"@),
            slist2(SexpV::Symbol(ident), encode_view(*value)),
            encode_view(*body),
        ),
        MirExprV::Lambda { arg, body } => slist3(
            SexpV::Keyword("lambda"@),
            SexpV::Symbol(arg),
            encode_view(*body),
        ),
        MirExprV::If { condition, consequent, alternative } => slist4(
            SexpV::Keyword("if"@),
            encode_view(*condition),
            encode_view(*consequent),
            encode_view(*alternative),
        ),
        MirExprV::Apply { func, arg } => slist2(encode_view(*func), encode_view(*arg)),
        MirExprV::Primitive(p) => SexpV::Symbol(prim_name_view(p)),
        MirExprV::Literal(MirLiteral::Bool(b)) => SexpV::Bool(b),
        MirExprV::Literal(MirLiteral::Int(i)) => SexpV::Int(i),
        MirExprV::Literal(MirLiteral::Null) => SexpV::Null,
        MirExprV::Ref(name) => SexpV::Symbol(name),
        MirExprV::Comment(text, inner) => slist3(
            SexpV::Keyword("comment"@),
            SexpV::Str(text),
            encode_view(*inner),
        ),
    }
}

fn cons2(a: Sexp, b: Sexp) -> (r: Sexp)
    ensures
        r@ == slist2(a@, b@),
{
    proof {
        reveal_with_fuel(sexp_view, 3);
    }
    Sexp::Cons(Box::new(a), Box::new(Sexp::Cons(Box::new(b), Box::new(Sexp::Null))))
}

fn cons3(a: Sexp, b: Sexp, c: Sexp) -> (r: Sexp)
    ensures
        r@ == slist3(a@, b@, c@),
{
    Sexp::Cons(Box::new(a), Box::new(cons2(b, c)))
}

fn cons4(a: Sexp, b: Sexp, c: Sexp, d: Sexp) -> (r: Sexp)
    ensures
        r@ == slist4(a@, b@, c@, d@),
{
    Sexp::Cons(Box::new(a), Box::new(cons3(b, c, d)))
}

/// Encode a MIR expression as a symbolic expression. Total for every
/// well-formed expression.
pub fn mir_to_lexpr(expr: &MirExpr) -> (r: Sexp)
    ensures
        r@ == encode_view(expr@),
    decreases *expr,
{
    match expr {
        MirExpr::Let(l) => cons3(
            Sexp::Keyword("let".to_owned()),
            cons2(Sexp::Symbol(l.ident.resolve_and_clone()), mir_to_lexpr(&l.value)),
            mir_to_lexpr(&l.body),
        ),
        MirExpr::Lambda(l) => cons3(
            Sexp::Keyword("lambda".to_owned()),
            Sexp::Symbol(l.arg.resolve_and_clone()),
            mir_to_lexpr(&l.body),
        ),
        MirExpr::If(i) => cons4(
            Sexp::Keyword("if".to_owned()),
            mir_to_lexpr(&i.condition),
            mir_to_lexpr(&i.consequent),
            mir_to_lexpr(&i.alternative),
        ),
        MirExpr::Apply(a) => cons2(mir_to_lexpr(&a.func), mir_to_lexpr(&a.arg)),
        MirExpr::Primitive(p) => Sexp::Symbol(prim_name(*p)),
        MirExpr::Literal(l) => match **l {
            MirLiteral::Bool(b) => Sexp::Bool(b),
            MirLiteral::Int(i) => Sexp::Int(i),
            MirLiteral::Null => Sexp::Null,
        },
        MirExpr::Ref(name) => Sexp::Symbol(name.resolve_and_clone()),
        MirExpr::Comment(text, inner) => cons3(
            Sexp::Keyword("comment".to_owned()),
            Sexp::Str(text.clone()),
            mir_to_lexpr(inner),
        ),
    }
}

/// The non-`Null` tail that makes a list improper, if one exists along
/// the spine.
pub open spec fn proper_tail(s: SexpV) -> Option<SexpV>
    decreases s,
{
    match s {
        SexpV::Null => None,
        SexpV::Cons(_, d) => proper_tail(*d),
        _ => Some(s),
    }
}

/// What decoding yields, piece by piece. Atoms decode to literals,
/// primitives, or references; a cons list headed by a keyword is a fixed
/// form; any other cons list is a left-nested application chain.
pub open spec fn parse_view(s: SexpV) -> Result<MirExprV, DecodeErrorV>
    decreases s,
{
    match s {
        SexpV::Null => Ok(MirExprV::Literal(MirLiteral::Null)),
        SexpV::Bool(b) => Ok(MirExprV::Literal(MirLiteral::Bool(b))),
        SexpV::Int(i) => Ok(MirExprV::Literal(MirLiteral::Int(i))),
        SexpV::BigNumber(t) => Err(DecodeErrorV::UnsupportedNumber(t)),
        SexpV::Symbol(name) => match prim_of_name_view(name) {
            Some(p) => Ok(MirExprV::Primitive(p)),
            None => Ok(MirExprV::Ref(name)),
        },
        SexpV::Keyword(k) => Err(DecodeErrorV::KeywordAtTopLevel(k)),
        SexpV::Cons(car, cdr) => match proper_tail(*cdr) {
            Some(t) => Err(DecodeErrorV::ImproperList(t)),
            None => match *car {
                SexpV::Keyword(k) => parse_kw_view(k, *cdr),
                _ => match parse_view(*car) {
                    Err(e) => Err(e),
                    Ok(f) => parse_chain_view(f, *cdr),
                },
            },
        },
        _ => Err(DecodeErrorV::UnsupportedObject(s)),
    }
}

/// Fold the remaining proper-list elements onto `acc` as applications,
/// left to right.
pub open spec fn parse_chain_view(acc: MirExprV, rest: SexpV) -> Result<MirExprV, DecodeErrorV>
    decreases rest,
{
    match rest {
        SexpV::Null => Ok(acc),
        SexpV::Cons(a, d) => match parse_view(*a) {
            Err(e) => Err(e),
            Ok(arg) => parse_chain_view(
                MirExprV::Apply { func: Box::new(acc), arg: Box::new(arg) },
                *d,
            ),
        },
        _ => Err(DecodeErrorV::ImproperList(rest)),
    }
}

/// Decode one keyword form, given the keyword and the argument list.
pub open spec fn parse_kw_view(kw: Seq<char>, rest: SexpV) -> Result<MirExprV, DecodeErrorV>
    decreases rest,
{
    if kw == "let"@ {
        match rest {
            SexpV::Cons(binding, t0) => match *t0 {
                SexpV::Cons(body_s, t1) => match *t1 {
                    SexpV::Null => match parse_view(*body_s) {
                        Err(e) => Err(e),
                        Ok(body) => parse_let_binding_view(*binding, body),
                    },
                    _ => Err(DecodeErrorV::WrongArity("let"@, 2)),
                },
                _ => Err(DecodeErrorV::WrongArity("let"@, 2)),
            },
            _ => Err(DecodeErrorV::WrongArity("let"@, 2)),
        }
    } else if kw == "lambda"@ {
        match rest {
            SexpV::Cons(ident_s, t0) => match *t0 {
                SexpV::Cons(body_s, t1) => match *t1 {
                    SexpV::Null => match parse_view(*body_s) {
                        Err(e) => Err(e),
                        Ok(body) => match *ident_s {
                            SexpV::Symbol(id) => Ok(MirExprV::Lambda {
                                arg: id,
                                body: Box::new(body),
                            }),
                            other => Err(DecodeErrorV::ExpectedSymbol(other)),
                        },
                    },
                    _ => Err(DecodeErrorV::WrongArity("lambda"@, 2)),
                },
                _ => Err(DecodeErrorV::WrongArity("lambda"@, 2)),
            },
            _ => Err(DecodeErrorV::WrongArity("lambda"@, 2)),
        }
    } else if kw == "if"@ {
        match rest {
            SexpV::Cons(cond_s, t0) => match *t0 {
                SexpV::Cons(cons_s, t1) => match *t1 {
                    SexpV::Cons(alt_s, t2) => match *t2 {
                        SexpV::Null => match parse_view(*alt_s) {
                            Err(e) => Err(e),
                            Ok(alternative) => match parse_view(*cons_s) {
                                Err(e) => Err(e),
                                Ok(consequent) => match parse_view(*cond_s) {
                                    Err(e) => Err(e),
                                    Ok(condition) => Ok(MirExprV::If {
                                        condition: Box::new(condition),
                                        consequent: Box::new(consequent),
                                        alternative: Box::new(alternative),
                                    }),
                                },
                            },
                        },
                        _ => Err(DecodeErrorV::WrongArity("if"@, 3)),
                    },
                    _ => Err(DecodeErrorV::WrongArity("if"@, 3)),
                },
                _ => Err(DecodeErrorV::WrongArity("if"@, 3)),
            },
            _ => Err(DecodeErrorV::WrongArity("if"@, 3)),
        }
    } else if kw == "comment"@ {
        match rest {
            SexpV::Cons(text_s, t0) => match *t0 {
                SexpV::Cons(body_s, t1) => match *t1 {
                    SexpV::Null => match parse_view(*body_s) {
                        Err(e) => Err(e),
                        Ok(body) => match *text_s {
                            SexpV::Str(t) => Ok(MirExprV::Comment(t, Box::new(body))),
                            other => Err(DecodeErrorV::ExpectedString(other)),
                        },
                    },
                    _ => Err(DecodeErrorV::WrongArity("comment"@, 2)),
                },
                _ => Err(DecodeErrorV::WrongArity("comment"@, 2)),
            },
            _ => Err(DecodeErrorV::WrongArity("comment"@, 2)),
        }
    } else {
        Err(DecodeErrorV::UnknownKeyword(kw))
    }
}

/// Decode a `let` binding pair `(name value)` once the body is known.
pub open spec fn parse_let_binding_view(binding: SexpV, body: MirExprV) -> Result<
    MirExprV,
    DecodeErrorV,
>
    decreases binding,
{
    match binding {
        SexpV::Cons(name_s, b0) => match proper_tail(*b0) {
            Some(t) => Err(DecodeErrorV::ImproperList(t)),
            None => match *b0 {
                SexpV::Cons(value_s, b1) => match *b1 {
                    SexpV::Null => match parse_view(*value_s) {
                        Err(e) => Err(e),
                        Ok(value) => match *name_s {
                            SexpV::Symbol(id) => Ok(MirExprV::Let {
                                ident: id,
                                value: Box::new(value),
                                body: Box::new(body),
                            }),
                            other => Err(DecodeErrorV::ExpectedSymbol(other)),
                        },
                    },
                    _ => Err(DecodeErrorV::BindingArity),
                },
                _ => Err(DecodeErrorV::BindingArity),
            },
        },
        other => Err(DecodeErrorV::ExpectedPair(other)),
    }
}

/// Find the non-`Null` tail of an improper list, if any.
fn proper_tail_of(s: &Sexp) -> (r: Option<&Sexp>)
    ensures
        match r {
            Some(t) => proper_tail(s@) == Some(t@),
            None => proper_tail(s@) is None,
        },
    decreases *s,
{
    match s {
        Sexp::Null => None,
        Sexp::Cons(_, d) => proper_tail_of(d),
        _ => Some(s),
    }
}

/// Decode a symbolic expression into MIR. Fails, with a description of
/// the offending piece, on wrong keyword-form arity, a non-symbol where
/// an identifier is required, an improper list tail, an unknown keyword,
/// and unsupported atom shapes; succeeds on everything else.
pub fn lexpr_to_mir(v: &Sexp) -> (r: Result<MirExpr, DecodeError>)
    ensures
        match r {
            Ok(e) => parse_view(v@) == Ok::<MirExprV, DecodeErrorV>(e@),
            Err(err) => parse_view(v@) == Err::<MirExprV, DecodeErrorV>(err@),
        },
    decreases *v,
{
    proof {
        reveal_with_fuel(sexp_view, 4);
    }
    match v {
        Sexp::Null => Ok(MirExpr::literal(MirLiteral::Null)),
        Sexp::Bool(b) => Ok(MirExpr::literal(MirLiteral::Bool(*b))),
        Sexp::Int(i) => Ok(MirExpr::literal(MirLiteral::Int(*i))),
        Sexp::BigNumber(t) => Err(DecodeError::UnsupportedNumber(t.clone())),
        Sexp::Symbol(name) => match prim_of_name(name) {
            Some(p) => Ok(MirExpr::Primitive(p)),
            None => Ok(MirExpr::Ref(MirInternedStr::get_or_intern(name.as_str()))),
        },
        Sexp::Keyword(k) => Err(DecodeError::KeywordAtTopLevel(k.clone())),
        Sexp::Cons(car, cdr) => match proper_tail_of(cdr) {
            Some(t) => Err(DecodeError::ImproperList(t.clone())),
            None => match &**car {
                Sexp::Keyword(k) => parse_kw(k, cdr),
                _ => match lexpr_to_mir(car) {
                    Err(e) => Err(e),
                    Ok(f) => parse_apply_chain(f, cdr),
                },
            },
        },
        _ => Err(DecodeError::UnsupportedObject(v.clone())),
    }
}

/// Fold the remaining list elements onto `acc` as applications.
fn parse_apply_chain(acc: MirExpr, rest: &Sexp) -> (r: Result<MirExpr, DecodeError>)
    ensures
        match r {
            Ok(e) => parse_chain_view(acc@, rest@) == Ok::<MirExprV, DecodeErrorV>(e@),
            Err(err) => parse_chain_view(acc@, rest@) == Err::<MirExprV, DecodeErrorV>(err@),
        },
    decreases *rest,
{
    match rest {
        Sexp::Null => Ok(acc),
        Sexp::Cons(a, d) => match lexpr_to_mir(a) {
            Err(e) => Err(e),
            Ok(arg) => parse_apply_chain(MirExpr::apply(acc, arg), d),
        },
        _ => Err(DecodeError::ImproperList(rest.clone())),
    }
}

/// Decode one keyword form.
fn parse_kw(kw: &String, rest: &Sexp) -> (r: Result<MirExpr, DecodeError>)
    ensures
        match r {
            Ok(e) => parse_kw_view(kw@, rest@) == Ok::<MirExprV, DecodeErrorV>(e@),
            Err(err) => parse_kw_view(kw@, rest@) == Err::<MirExprV, DecodeErrorV>(err@),
        },
    decreases *rest,
{
    proof {
        reveal_with_fuel(sexp_view, 6);
    }
    if string_is(kw, "let") {
        match rest {
            Sexp::Cons(binding, t0) => match &**t0 {
                Sexp::Cons(body_s, t1) => match &**t1 {
                    Sexp::Null => match lexpr_to_mir(body_s) {
                        Err(e) => Err(e),
                        Ok(body) => parse_let_binding(binding, body),
                    },
                    _ => Err(DecodeError::WrongArity("let".to_owned(), 2)),
                },
                _ => Err(DecodeError::WrongArity("let".to_owned(), 2)),
            },
            _ => Err(DecodeError::WrongArity("let".to_owned(), 2)),
        }
    } else if string_is(kw, "lambda") {
        match rest {
            Sexp::Cons(ident_s, t0) => match &**t0 {
                Sexp::Cons(body_s, t1) => match &**t1 {
                    Sexp::Null => match lexpr_to_mir(body_s) {
                        Err(e) => Err(e),
                        Ok(body) => match &**ident_s {
                            Sexp::Symbol(id) => Ok(MirExpr::lambda(
                                MirInternedStr::get_or_intern(id.as_str()),
                                body,
                            )),
                            other => Err(DecodeError::ExpectedSymbol(other.clone())),
                        },
                    },
                    _ => Err(DecodeError::WrongArity("lambda".to_owned(), 2)),
                },
                _ => Err(DecodeError::WrongArity("lambda".to_owned(), 2)),
            },
            _ => Err(DecodeError::WrongArity("lambda".to_owned(), 2)),
        }
    } else if string_is(kw, "if") {
        match rest {
            Sexp::Cons(cond_s, t0) => match &**t0 {
                Sexp::Cons(cons_s, t1) => match &**t1 {
                    Sexp::Cons(alt_s, t2) => match &**t2 {
                        Sexp::Null => match lexpr_to_mir(alt_s) {
                            Err(e) => Err(e),
                            Ok(alternative) => match lexpr_to_mir(cons_s) {
                                Err(e) => Err(e),
                                Ok(consequent) => match lexpr_to_mir(cond_s) {
                                    Err(e) => Err(e),
                                    Ok(condition) => Ok(MirExpr::if_(
                                        condition,
                                        consequent,
                                        alternative,
                                    )),
                                },
                            },
                        },
                        _ => Err(DecodeError::WrongArity("if".to_owned(), 3)),
                    },
                    _ => Err(DecodeError::WrongArity("if".to_owned(), 3)),
                },
                _ => Err(DecodeError::WrongArity("if".to_owned(), 3)),
            },
            _ => Err(DecodeError::WrongArity("if".to_owned(), 3)),
        }
    } else if string_is(kw, "comment") {
        match rest {
            Sexp::Cons(text_s, t0) => match &**t0 {
                Sexp::Cons(body_s, t1) => match &**t1 {
                    Sexp::Null => match lexpr_to_mir(body_s) {
                        Err(e) => Err(e),
                        Ok(body) => match &**text_s {
                            Sexp::Str(t) => Ok(MirExpr::Comment(t.clone(), Box::new(body))),
                            other => Err(DecodeError::ExpectedString(other.clone())),
                        },
                    },
                    _ => Err(DecodeError::WrongArity("comment".to_owned(), 2)),
                },
                _ => Err(DecodeError::WrongArity("comment".to_owned(), 2)),
            },
            _ => Err(DecodeError::WrongArity("comment".to_owned(), 2)),
        }
    } else {
        Err(DecodeError::UnknownKeyword(kw.clone()))
    }
}

/// Decode a `let` binding pair.
fn parse_let_binding(binding: &Sexp, body: MirExpr) -> (r: Result<MirExpr, DecodeError>)
    ensures
        match r {
            Ok(e) => parse_let_binding_view(binding@, body@) == Ok::<MirExprV, DecodeErrorV>(e@),
            Err(err) => parse_let_binding_view(binding@, body@) == Err::<
                MirExprV,
                DecodeErrorV,
            >(err@),
        },
    decreases *binding,
{
    proof {
        reveal_with_fuel(sexp_view, 6);
    }
    match binding {
        Sexp::Cons(name_s, b0) => match proper_tail_of(b0) {
            Some(t) => Err(DecodeError::ImproperList(t.clone())),
            None => match &**b0 {
                Sexp::Cons(value_s, b1) => match &**b1 {
                    Sexp::Null => match lexpr_to_mir(value_s) {
                        Err(e) => Err(e),
                        Ok(value) => match &**name_s {
                            Sexp::Symbol(id) => Ok(MirExpr::let_(
                                MirInternedStr::get_or_intern(id.as_str()),
                                value,
                                body,
                            )),
                            other => Err(DecodeError::ExpectedSymbol(other.clone())),
                        },
                    },
                    _ => Err(DecodeError::BindingArity),
                },
                _ => Err(DecodeError::BindingArity),
            },
        },
        other => Err(DecodeError::ExpectedPair(other.clone())),
    }
}

/// Serializing a primitive tag and reading the symbol back returns the
/// same tag, for every tag that owns a symbol of its own (the
/// slot-indexed tags do not).
pub proof fn lemma_prim_name_inverse(p: Primitive)
    requires
        !(p is Get),
        !(p is Store),
    ensures
        prim_of_name_view(prim_name_view(p)) == Some(p),
{
    reveal_strlit("plus");
    reveal_strlit("minus");
    reveal_strlit("times");
    reveal_strlit("div");
    reveal_strlit("mod");
    reveal_strlit("neg");
    reveal_strlit("and");
    reveal_strlit("or");
    reveal_strlit("xor");
    reveal_strlit("cons");
    reveal_strlit("car");
    reveal_strlit("cdr");
    reveal_strlit("eq");
    reveal_strlit("lt");
    reveal_strlit("le");
    reveal_strlit("gt");
    reveal_strlit("ge");
    reveal_strlit("bool-to-int");
    reveal_strlit("pure");
    reveal_strlit("lift");
    reveal_strlit("then");
    reveal_strlit("y");
    assert("plus"@.len() == 4 && "plus"@[0] == 'p' && "plus"@[1] == 'l');
    assert("minus"@.len() == 5 && "minus"@[0] == 'm');
    assert("times"@.len() == 5 && "times"@[0] == 't');
    assert("div"@.len() == 3 && "div"@[0] == 'd');
    assert("mod"@.len() == 3 && "mod"@[0] == 'm');
    assert("neg"@.len() == 3 && "neg"@[0] == 'n');
    assert("and"@.len() == 3 && "and"@[0] == 'a');
    assert("or"@.len() == 2 && "or"@[0] == 'o');
    assert("xor"@.len() == 3 && "xor"@[0] == 'x');
    assert("cons"@.len() == 4 && "cons"@[0] == 'c');
    assert("car"@.len() == 3 && "car"@[0] == 'c' && "car"@[1] == 'a');
    assert("cdr"@.len() == 3 && "cdr"@[0] == 'c' && "cdr"@[1] == 'd');
    assert("eq"@.len() == 2 && "eq"@[0] == 'e');
    assert("lt"@.len() == 2 && "lt"@[0] == 'l' && "lt"@[1] == 't');
    assert("le"@.len() == 2 && "le"@[0] == 'l' && "le"@[1] == 'e');
    assert("gt"@.len() == 2 && "gt"@[0] == 'g' && "gt"@[1] == 't');
    assert("ge"@.len() == 2 && "ge"@[0] == 'g' && "ge"@[1] == 'e');
    assert("bool-to-int"@.len() == 11);
    assert("pure"@.len() == 4 && "pure"@[0] == 'p' && "pure"@[1] == 'u');
    assert("lift"@.len() == 4 && "lift"@[0] == 'l');
    assert("then"@.len() == 4 && "then"@[0] == 't');
    assert("y"@.len() == 1);
}

/// Law: primitive-tag serialization is injective on the tags that own
/// a symbol: distinct tags never share a spelled name.
pub proof fn lemma_prim_name_injective(p1: Primitive, p2: Primitive)
    requires
        !(p1 is Get),
        !(p1 is Store),
        !(p2 is Get),
        !(p2 is Store),
        prim_name_view(p1) == prim_name_view(p2),
    ensures
        p1 == p2,
{
    lemma_prim_name_inverse(p1);
    lemma_prim_name_inverse(p2);
}

/// An expression the textual encoding can carry losslessly: it holds no
/// slot-indexed primitive tag, and no free reference spells a primitive's
/// symbol name.
pub open spec fn encodable(e: MirExprV) -> bool
    decreases e,
{
    match e {
        MirExprV::Let { ident, value, body } => encodable(*value) && encodable(*body),
        MirExprV::Lambda { arg, body } => encodable(*body),
        MirExprV::If { condition, consequent, alternative } => encodable(*condition)
            && encodable(*consequent) && encodable(*alternative),
        MirExprV::Apply { func, arg } => encodable(*func) && encodable(*arg),
        MirExprV::Primitive(p) => !(p is Get) && !(p is Store),
        MirExprV::Literal(_) => true,
        MirExprV::Ref(name) => prim_of_name_view(name) is None,
        MirExprV::Comment(_, inner) => encodable(*inner),
    }
}

/// The encoder never yields a bare keyword.
proof fn lemma_encode_not_keyword(e: MirExprV)
    ensures
        !(encode_view(e) is Keyword),
{
    match e {
        MirExprV::Literal(l) => {
            match l {
                MirLiteral::Bool(_) => {}
                MirLiteral::Int(_) => {}
                MirLiteral::Null => {}
            }
        }
        _ => {}
    }
}

/// Law: decoding inverts encoding. For every encodable expression `e`,
/// `lexpr_to_mir(mir_to_lexpr(e))` succeeds and returns `e` itself.
pub proof fn lemma_round_trip(e: MirExprV)
    requires
        encodable(e),
    ensures
        parse_view(encode_view(e)) == Ok::<MirExprV, DecodeErrorV>(e),
    decreases e,
{
    reveal_strlit("let");
    reveal_strlit("lambda");
    reveal_strlit("if");
    reveal_strlit("comment");
    reveal_with_fuel(proper_tail, 6);
    reveal_with_fuel(parse_chain_view, 3);
    reveal_with_fuel(parse_view, 2);
    assert("let"@.len() == 3);
    assert("lambda"@.len() == 6);
    assert("if"@.len() == 2);
    assert("comment"@.len() == 7);
    match e {
        MirExprV::Let { ident, value, body } => {
            lemma_round_trip(*value);
            lemma_round_trip(*body);
            let bind = slist2(SexpV::Symbol(ident), encode_view(*value));
            assert(parse_let_binding_view(bind, *body) == Ok::<MirExprV, DecodeErrorV>(e));
            assert(parse_kw_view("let"@, slist2(bind, encode_view(*body)))
                == Ok::<MirExprV, DecodeErrorV>(e));
        }
        MirExprV::Lambda { arg, body } => {
            lemma_round_trip(*body);
        }
        MirExprV::If { condition, consequent, alternative } => {
            lemma_round_trip(*condition);
            lemma_round_trip(*consequent);
            lemma_round_trip(*alternative);
        }
        MirExprV::Apply { func, arg } => {
            lemma_round_trip(*func);
            lemma_round_trip(*arg);
            lemma_encode_not_keyword(*func);
            let encf = encode_view(*func);
            let enca = encode_view(*arg);
            let rest = SexpV::Cons(Box::new(enca), Box::new(SexpV::Null));
            assert(encode_view(e) == SexpV::Cons(Box::new(encf), Box::new(rest)));
            assert(proper_tail(rest) is None);
            assert(parse_view(encf) == Ok::<MirExprV, DecodeErrorV>(*func));
            assert(parse_chain_view(*func, rest) == Ok::<MirExprV, DecodeErrorV>(e));
        }
        MirExprV::Primitive(p) => {
            lemma_prim_name_inverse(p);
        }
        MirExprV::Literal(l) => {
            match l {
                MirLiteral::Bool(_) => {}
                MirLiteral::Int(_) => {}
                MirLiteral::Null => {}
            }
        }
        MirExprV::Ref(name) => {}
        MirExprV::Comment(text, inner) => {
            lemma_round_trip(*inner);
        }
    }
}

} // verus!
