//! Miri: an explicit-continuation interpreter for desugared MIR.
//!
//! Evaluation never recurses on the host stack: pending work lives in an
//! explicit stack of continuations, and a single current-value register
//! holds the most recently produced runtime object. Environments are
//! persistent, reference-counted chains of single-binding frames.

use std::rc::Rc;

use vstd::prelude::*;

use crate::mir::{has_no_let, MirExpr, MirExprV, MirInternedStr, MirLiteral, Primitive};

verus! {

/// A runtime object.
#[derive(Debug)]
pub enum Obj {
    Bool(bool),
    Int(i64),
    Null,
    Lambda(Box<Lambda>),
    CurriedPrimitive(CurriedPrimitive),
    Cons(Rc<Obj>, Rc<Obj>),
}

/// A closure: a captured environment, the bound argument name, and the
/// body expression.
#[derive(Debug)]
pub struct Lambda {
    env: Env,
    arg: MirInternedStr,
    body: MirExpr,
}

/// A partially applied primitive: the tag and the argument supplied so
/// far, if any. Arities are one or two, so at most one argument is ever
/// pending.
#[derive(Debug)]
pub struct CurriedPrimitive {
    primitive: Primitive,
    arg0: Option<Rc<Obj>>,
}

/// A persistent environment: a chain of single-binding frames, shared by
/// reference. Extension allocates a new frame; no frame is ever mutated.
#[derive(Debug)]
pub struct Env(Rc<EnvNode>);

#[derive(Debug)]
pub(crate) enum EnvNode {
    Root,
    Frame { parent: Env, name: MirInternedStr, value: Rc<Obj> },
}

/// The mathematical shape of a runtime object. An environment is the map
/// from names to values that lookup realizes.
pub enum ObjV {
    Bool(bool),
    Int(i64),
    Null,
    Lambda { env: Map<Seq<char>, ObjV>, arg: Seq<char>, body: MirExprV },
    Curried { primitive: Primitive, arg0: Option<Box<ObjV>> },
    Cons(Box<ObjV>, Box<ObjV>),
}

pub closed spec fn obj_view(o: Obj) -> ObjV
    decreases o,
{
    match o {
        Obj::Bool(b) => ObjV::Bool(b),
        Obj::Int(i) => ObjV::Int(i),
        Obj::Null => ObjV::Null,
        Obj::Lambda(l) => ObjV::Lambda {
            env: env_map(*l.env.0),
            arg: l.arg@,
            body: l.body@,
        },
        Obj::CurriedPrimitive(cp) => ObjV::Curried {
            primitive: cp.primitive,
            arg0: match cp.arg0 {
                None => None,
                Some(a) => Some(Box::new(obj_view(*a))),
            },
        },
        Obj::Cons(car, cdr) => ObjV::Cons(Box::new(obj_view(*car)), Box::new(obj_view(*cdr))),
    }
}

/// The bindings an environment chain realizes: the parent's bindings,
/// with this frame's binding shadowing.
pub closed spec fn env_map(e: EnvNode) -> Map<Seq<char>, ObjV>
    decreases e,
{
    match e {
        EnvNode::Root => Map::empty(),
        EnvNode::Frame { parent, name, value } => env_map(*parent.0).insert(
            name@,
            obj_view(*value),
        ),
    }
}

impl View for Obj {
    type V = ObjV;

    closed spec fn view(&self) -> ObjV {
        obj_view(*self)
    }
}

impl View for Env {
    type V = Map<Seq<char>, ObjV>;

    closed spec fn view(&self) -> Map<Seq<char>, ObjV> {
        env_map(*self.0)
    }
}

impl Env {
    /// The empty top-level environment.
    pub fn root() -> (r: Env)
        ensures
            r@ == Map::<Seq<char>, ObjV>::empty(),
            wf_env(r),
    {
        Env(Rc::new(EnvNode::Root))
    }

    /// A new environment that binds `name` on top of `self`. The
    /// existing chain is shared, never copied or changed.
    pub fn with_value(&self, name: MirInternedStr, value: Rc<Obj>) -> (r: Env)
        ensures
            r@ == self@.insert(name@, obj_view(*value)),
            wf_env(*self) && wf_obj(*value) ==> wf_env(r),
    {
        Env(Rc::new(EnvNode::Frame { parent: Env(self.0.clone()), name, value }))
    }

    /// Look `name` up, innermost frame first.
    pub fn find_value(&self, name: &MirInternedStr) -> (r: Option<Rc<Obj>>)
        ensures
            match r {
                Some(v) => self@.contains_key(name@) && obj_view(*v) == self@[name@] && (wf_env(
                    *self,
                ) ==> wf_obj(*v)),
                None => !self@.contains_key(name@),
            },
    {
        find_in_node(&self.0, name)
    }
}

fn find_in_node(node: &EnvNode, name: &MirInternedStr) -> (r: Option<Rc<Obj>>)
    ensures
        match r {
            Some(v) => env_map(*node).contains_key(name@) && obj_view(*v) == env_map(
                *node,
            )[name@] && (wf_env_node(*node) ==> wf_obj(*v)),
            None => !env_map(*node).contains_key(name@),
        },
    decreases *node,
{
    match node {
        EnvNode::Root => None,
        EnvNode::Frame { parent, name: bound, value } => {
            if bound == name {
                Some(value.clone())
            } else {
                find_in_node(&parent.0, name)
            }
        }
    }
}

/// No higher-level primitive tag occurs in the tree: those exist only
/// before desugaring and must not reach the interpreter.
pub open spec fn has_no_high_prim(e: MirExprV) -> bool
    decreases e,
{
    match e {
        MirExprV::Let { ident, value, body } => has_no_high_prim(*value) && has_no_high_prim(
            *body,
        ),
        MirExprV::Lambda { arg, body } => has_no_high_prim(*body),
        MirExprV::If { condition, consequent, alternative } => has_no_high_prim(*condition)
            && has_no_high_prim(*consequent) && has_no_high_prim(*alternative),
        MirExprV::Apply { func, arg } => has_no_high_prim(*func) && has_no_high_prim(*arg),
        MirExprV::Primitive(p) => is_low_prim(p),
        MirExprV::Literal(_) => true,
        MirExprV::Ref(_) => true,
        MirExprV::Comment(_, inner) => has_no_high_prim(*inner),
    }
}

/// The primitive tags with a runtime meaning.
pub open spec fn is_low_prim(p: Primitive) -> bool {
    match p {
        Primitive::Get(_) => false,
        Primitive::Store(_) => false,
        Primitive::Pure => false,
        Primitive::Lift => false,
        Primitive::Then => false,
        Primitive::Y => false,
        _ => true,
    }
}

/// What the interpreter accepts: a tree free of `Let` nodes and of
/// higher-level primitive tags.
pub open spec fn runnable(e: MirExprV) -> bool {
    has_no_let(e) && has_no_high_prim(e)
}

/// Whether a tree may be handed to the interpreter. Unverified callers
/// test this before calling `run`.
pub fn is_runnable(e: &MirExpr) -> (r: bool)
    ensures
        r == runnable(e@),
    decreases *e,
{
    match e {
        MirExpr::Let(_) => false,
        MirExpr::Lambda(l) => is_runnable(&l.body),
        MirExpr::If(i) => is_runnable(&i.condition) && is_runnable(&i.consequent) && is_runnable(
            &i.alternative,
        ),
        MirExpr::Apply(a) => is_runnable(&a.func) && is_runnable(&a.arg),
        MirExpr::Primitive(p) => match p {
            Primitive::Get(_) => false,
            Primitive::Store(_) => false,
            Primitive::Pure => false,
            Primitive::Lift => false,
            Primitive::Then => false,
            Primitive::Y => false,
            _ => true,
        },
        MirExpr::Literal(_) => true,
        MirExpr::Ref(_) => true,
        MirExpr::Comment(_, inner) => is_runnable(inner),
    }
}

/// Structural well-formedness of a runtime object: closure bodies are
/// runnable, curried primitives are low-level with a type-correct stored
/// argument, and everything reachable is well-formed too.
pub closed spec fn wf_obj(o: Obj) -> bool
    decreases o,
{
    match o {
        Obj::Bool(_) => true,
        Obj::Int(_) => true,
        Obj::Null => true,
        Obj::Lambda(l) => runnable(l.body@) && wf_env_node(*l.env.0),
        Obj::CurriedPrimitive(cp) => is_low_prim(cp.primitive) && match cp.arg0 {
            None => true,
            Some(a) => arity_view(cp.primitive) == 2 && wf_obj(*a) && check_type_view(
                expected_arg_view(cp.primitive, 0),
                obj_view(*a),
            ),
        },
        Obj::Cons(car, cdr) => wf_obj(*car) && wf_obj(*cdr),
    }
}

spec fn wf_env_node(e: EnvNode) -> bool
    decreases e,
{
    match e {
        EnvNode::Root => true,
        EnvNode::Frame { parent, name, value } => wf_env_node(*parent.0) && wf_obj(*value),
    }
}

pub closed spec fn wf_env(e: Env) -> bool {
    wf_env_node(*e.0)
}

/// The runtime type classes a primitive argument position can demand.
#[derive(Debug, Clone, Copy, PartialEq, Eq, Structural)]
pub enum ObjType {
    Bool,
    Int,
    Null,
    Lambda,
    CurriedPrimitive,
    Cons,
    Any,
}

pub open spec fn check_type_view(t: ObjType, o: ObjV) -> bool {
    match (t, o) {
        (ObjType::Any, _) => true,
        (ObjType::Bool, ObjV::Bool(_)) => true,
        (ObjType::Int, ObjV::Int(_)) => true,
        (ObjType::Null, ObjV::Null) => true,
        (ObjType::Lambda, ObjV::Lambda { .. }) => true,
        (ObjType::CurriedPrimitive, ObjV::Curried { .. }) => true,
        (ObjType::Cons, ObjV::Cons(_, _)) => true,
        _ => false,
    }
}

impl ObjType {
    /// Whether `obj` belongs to this type class.
    pub fn check_type(&self, obj: &Obj) -> (r: bool)
        ensures
            r == check_type_view(*self, obj@),
    {
        match (self, obj) {
            (ObjType::Any, _) => true,
            (ObjType::Bool, Obj::Bool(_)) => true,
            (ObjType::Int, Obj::Int(_)) => true,
            (ObjType::Null, Obj::Null) => true,
            (ObjType::Lambda, Obj::Lambda(_)) => true,
            (ObjType::CurriedPrimitive, Obj::CurriedPrimitive(_)) => true,
            (ObjType::Cons, Obj::Cons(_, _)) => true,
            _ => false,
        }
    }
}

/// How many arguments a low-level primitive takes before it fires.
pub open spec fn arity_view(p: Primitive) -> int {
    match p {
        Primitive::Neg => 1,
        Primitive::Car => 1,
        Primitive::Cdr => 1,
        Primitive::BoolToInt => 1,
        _ => 2,
    }
}

/// The type class a low-level primitive demands at argument position
/// `pos`.
pub open spec fn expected_arg_view(p: Primitive, pos: int) -> ObjType {
    match p {
        Primitive::Plus => ObjType::Int,
        Primitive::Minus => ObjType::Int,
        Primitive::Times => ObjType::Int,
        Primitive::Div => ObjType::Int,
        Primitive::Mod => ObjType::Int,
        Primitive::Neg => ObjType::Bool,
        Primitive::And => ObjType::Bool,
        Primitive::Or => ObjType::Bool,
        Primitive::Xor => ObjType::Bool,
        Primitive::Cons => ObjType::Any,
        Primitive::Car => ObjType::Cons,
        Primitive::Cdr => ObjType::Cons,
        Primitive::Eq => ObjType::Int,
        Primitive::Lt => ObjType::Int,
        Primitive::Le => ObjType::Int,
        Primitive::Gt => ObjType::Int,
        Primitive::Ge => ObjType::Int,
        Primitive::BoolToInt => ObjType::Bool,
        _ => ObjType::Any,
    }
}

impl Clone for Env {
    fn clone(&self) -> (r: Self)
        ensures
            r == *self,
    {
        Env(self.0.clone())
    }
}

impl Clone for Obj {
    fn clone(&self) -> (r: Self)
        ensures
            r@ == self@,
            wf_obj(*self) ==> wf_obj(r),
    {
        match self {
            Obj::Bool(b) => Obj::Bool(*b),
            Obj::Int(i) => Obj::Int(*i),
            Obj::Null => Obj::Null,
            Obj::Lambda(l) => Obj::Lambda(Box::new(Lambda {
                env: l.env.clone(),
                arg: l.arg.clone(),
                body: l.body.clone(),
            })),
            Obj::CurriedPrimitive(cp) => Obj::CurriedPrimitive(CurriedPrimitive {
                primitive: cp.primitive,
                arg0: match &cp.arg0 {
                    None => None,
                    Some(a) => Some(a.clone()),
                },
            }),
            Obj::Cons(car, cdr) => Obj::Cons(car.clone(), cdr.clone()),
        }
    }
}

/// Why evaluation failed, carrying the offending value or name.
#[derive(Debug)]
pub enum EvalError {
    /// A reference to a name with no binding in scope.
    UndefinedName(MirInternedStr),
    /// A conditional whose condition is not a boolean.
    NotABool(Obj),
    /// An application whose function position holds neither a closure
    /// nor a primitive.
    NotApplicable(Obj),
    /// A primitive argument of the wrong runtime type: the primitive,
    /// the class it demands at this position, and the value supplied.
    PrimitiveType { primitive: Primitive, expected: ObjType, got: Obj },
    /// Division or remainder with a zero divisor.
    DivisionByZero(Primitive),
    /// Division or remainder whose result has no 64-bit representation.
    Overflow(Primitive),
    /// The step budget ran out before evaluation finished.
    OutOfSteps,
}

pub enum EvalErrorV {
    UndefinedName(Seq<char>),
    NotABool(ObjV),
    NotApplicable(ObjV),
    PrimitiveType { primitive: Primitive, expected: ObjType, got: ObjV },
    DivisionByZero(Primitive),
    Overflow(Primitive),
    OutOfSteps,
}

impl View for EvalError {
    type V = EvalErrorV;

    open spec fn view(&self) -> EvalErrorV {
        match self {
            EvalError::UndefinedName(n) => EvalErrorV::UndefinedName(n@),
            EvalError::NotABool(o) => EvalErrorV::NotABool(o@),
            EvalError::NotApplicable(o) => EvalErrorV::NotApplicable(o@),
            EvalError::PrimitiveType { primitive, expected, got } => EvalErrorV::PrimitiveType {
                primitive: *primitive,
                expected: *expected,
                got: got@,
            },
            EvalError::DivisionByZero(p) => EvalErrorV::DivisionByZero(*p),
            EvalError::Overflow(p) => EvalErrorV::Overflow(*p),
            EvalError::OutOfSteps => EvalErrorV::OutOfSteps,
        }
    }
}

/// One pending piece of evaluation work.
enum Continuation {
    Eval { expr: MirExpr, environment: Env },
    If { consequent: MirExpr, alternative: MirExpr, environment: Env },
    EvalArg { arg: MirExpr, environment: Env },
    Apply { func: Rc<Obj>, environment: Env },
}

/// The mathematical shape of a continuation.
pub enum ContV {
    Eval { expr: MirExprV, env: Map<Seq<char>, ObjV> },
    If { consequent: MirExprV, alternative: MirExprV, env: Map<Seq<char>, ObjV> },
    EvalArg { arg: MirExprV, env: Map<Seq<char>, ObjV> },
    Apply { func: ObjV, env: Map<Seq<char>, ObjV> },
}

spec fn cont_view(c: Continuation) -> ContV {
    match c {
        Continuation::Eval { expr, environment } => ContV::Eval { expr: expr@, env: environment@ },
        Continuation::If { consequent, alternative, environment } => ContV::If {
            consequent: consequent@,
            alternative: alternative@,
            env: environment@,
        },
        Continuation::EvalArg { arg, environment } => ContV::EvalArg {
            arg: arg@,
            env: environment@,
        },
        Continuation::Apply { func, environment } => ContV::Apply {
            func: obj_view(*func),
            env: environment@,
        },
    }
}

spec fn wf_cont(c: Continuation) -> bool {
    match c {
        Continuation::Eval { expr, environment } => runnable(expr@) && wf_env(environment),
        Continuation::If { consequent, alternative, environment } => runnable(consequent@)
            && runnable(alternative@) && wf_env(environment),
        Continuation::EvalArg { arg, environment } => runnable(arg@) && wf_env(environment),
        Continuation::Apply { func, environment } => wf_obj(*func) && wf_env(environment),
    }
}

/// The whole machine state: the continuation stack, innermost work last,
/// and the current-value register.
pub struct StateV {
    pub stack: Seq<ContV>,
    pub value: ObjV,
}

spec fn conts_view(s: Seq<Continuation>) -> Seq<ContV> {
    s.map_values(|c: Continuation| cont_view(c))
}

spec fn state_of(stack: Seq<Continuation>, value: ObjV) -> StateV {
    StateV { stack: conts_view(stack), value }
}

/// The machine's starting state for an expression: one pending
/// evaluation under the empty environment, with `Null` in the register.
pub open spec fn init_state(e: MirExprV) -> StateV {
    StateV {
        stack: seq![ContV::Eval { expr: e, env: Map::empty() }],
        value: ObjV::Null,
    }
}

pub open spec fn lit_obj_view(l: MirLiteral) -> ObjV {
    match l {
        MirLiteral::Bool(b) => ObjV::Bool(b),
        MirLiteral::Int(i) => ObjV::Int(i),
        MirLiteral::Null => ObjV::Null,
    }
}

/// What one machine step yields: the next state, a reported evaluation
/// failure, or `Stuck` for the internal-consistency states that
/// desugaring is required to rule out.
pub enum StepResult {
    Next(StateV),
    Fail(EvalErrorV),
    Stuck,
}

/// Supply one more argument to a partially applied primitive: reject a
/// type-mismatched argument, hold the argument if the arity is not yet
/// reached, and fire otherwise.
pub open spec fn apply_prim_view(p: Primitive, stored: Option<ObjV>, arg: ObjV) -> Result<
    ObjV,
    EvalErrorV,
> {
    let pos: int = if stored is Some {
        1
    } else {
        0
    };
    let expected = expected_arg_view(p, pos);
    if !check_type_view(expected, arg) {
        Err(EvalErrorV::PrimitiveType { primitive: p, expected, got: arg })
    } else if pos + 1 < arity_view(p) {
        Ok(ObjV::Curried { primitive: p, arg0: Some(Box::new(arg)) })
    } else {
        let a0 = if stored is Some {
            stored->0
        } else {
            arg
        };
        fire_view(p, a0, arg)
    }
}

/// What a primitive produces once its arguments are complete. `a1` is
/// the last argument; for arity-one primitives `a0` and `a1` coincide.
pub open spec fn fire_view(p: Primitive, a0: ObjV, a1: ObjV) -> Result<ObjV, EvalErrorV> {
    match p {
        Primitive::Plus => Ok(ObjV::Int((a0->Int_0).wrapping_add(a1->Int_0))),
        Primitive::Minus => Ok(ObjV::Int((a0->Int_0).wrapping_sub(a1->Int_0))),
        Primitive::Times => Ok(ObjV::Int((a0->Int_0).wrapping_mul(a1->Int_0))),
        Primitive::Div => if a1->Int_0 == 0 {
            Err(EvalErrorV::DivisionByZero(p))
        } else {
            match (a0->Int_0).checked_div(a1->Int_0) {
                Some(v) => Ok(ObjV::Int(v)),
                None => Err(EvalErrorV::Overflow(p)),
            }
        },
        Primitive::Mod => if a1->Int_0 == 0 {
            Err(EvalErrorV::DivisionByZero(p))
        } else {
            match (a0->Int_0).checked_rem(a1->Int_0) {
                Some(v) => Ok(ObjV::Int(v)),
                None => Err(EvalErrorV::Overflow(p)),
            }
        },
        Primitive::Neg => Ok(ObjV::Bool(!(a0->Bool_0))),
        Primitive::And => Ok(ObjV::Bool(a0->Bool_0 && a1->Bool_0)),
        Primitive::Or => Ok(ObjV::Bool(a0->Bool_0 || a1->Bool_0)),
        Primitive::Xor => Ok(ObjV::Bool(a0->Bool_0 != a1->Bool_0)),
        Primitive::Cons => Ok(ObjV::Cons(Box::new(a0), Box::new(a1))),
        Primitive::Car => Ok(*(a0->Cons_0)),
        Primitive::Cdr => Ok(*(a0->Cons_1)),
        Primitive::Eq => Ok(ObjV::Bool(a0->Int_0 == a1->Int_0)),
        Primitive::Lt => Ok(ObjV::Bool(a0->Int_0 < a1->Int_0)),
        Primitive::Le => Ok(ObjV::Bool(a0->Int_0 <= a1->Int_0)),
        Primitive::Gt => Ok(ObjV::Bool(a0->Int_0 > a1->Int_0)),
        Primitive::Ge => Ok(ObjV::Bool(a0->Int_0 >= a1->Int_0)),
        Primitive::BoolToInt => Ok(ObjV::Int(
            if a0->Bool_0 {
                1
            } else {
                0
            },
        )),
        _ => Err(EvalErrorV::NotApplicable(a0)),
    }
}

/// One step of the machine, dispatching on the innermost continuation.
pub open spec fn step_view(s: StateV) -> StepResult
    recommends
        s.stack.len() > 0,
{
    let cont = s.stack.last();
    let rest = s.stack.drop_last();
    match cont {
        ContV::Eval { expr, env } => match expr {
            MirExprV::Lambda { arg, body } => StepResult::Next(StateV {
                stack: rest,
                value: ObjV::Lambda { env, arg, body: *body },
            }),
            MirExprV::If { condition, consequent, alternative } => StepResult::Next(StateV {
                stack: rest.push(ContV::If {
                    consequent: *consequent,
                    alternative: *alternative,
                    env,
                }).push(ContV::Eval { expr: *condition, env }),
                value: s.value,
            }),
            MirExprV::Apply { func, arg } => StepResult::Next(StateV {
                stack: rest.push(ContV::EvalArg { arg: *arg, env }).push(ContV::Eval {
                    expr: *func,
                    env,
                }),
                value: s.value,
            }),
            MirExprV::Primitive(p) => if is_low_prim(p) {
                StepResult::Next(StateV {
                    stack: rest,
                    value: ObjV::Curried { primitive: p, arg0: None },
                })
            } else {
                StepResult::Stuck
            },
            MirExprV::Literal(l) => StepResult::Next(StateV { stack: rest, value: lit_obj_view(l) }),
            MirExprV::Ref(name) => if env.contains_key(name) {
                StepResult::Next(StateV { stack: rest, value: env[name] })
            } else {
                StepResult::Fail(EvalErrorV::UndefinedName(name))
            },
            MirExprV::Comment(text, inner) => StepResult::Next(StateV {
                stack: rest.push(ContV::Eval { expr: *inner, env }),
                value: s.value,
            }),
            MirExprV::Let { .. } => StepResult::Stuck,
        },
        ContV::If { consequent, alternative, env } => match s.value {
            ObjV::Bool(b) => StepResult::Next(StateV {
                stack: rest.push(ContV::Eval {
                    expr: if b {
                        consequent
                    } else {
                        alternative
                    },
                    env,
                }),
                value: s.value,
            }),
            v => StepResult::Fail(EvalErrorV::NotABool(v)),
        },
        ContV::EvalArg { arg, env } => StepResult::Next(StateV {
            stack: rest.push(ContV::Apply { func: s.value, env }).push(ContV::Eval {
                expr: arg,
                env,
            }),
            value: s.value,
        }),
        ContV::Apply { func, env } => match func {
            ObjV::Lambda { env: cenv, arg, body } => StepResult::Next(StateV {
                stack: rest.push(ContV::Eval { expr: body, env: cenv.insert(arg, s.value) }),
                value: s.value,
            }),
            ObjV::Curried { primitive, arg0 } => if is_low_prim(primitive) {
                match apply_prim_view(
                    primitive,
                    match arg0 {
                        None => None,
                        Some(b) => Some(*b),
                    },
                    s.value,
                ) {
                    Ok(v) => StepResult::Next(StateV { stack: rest, value: v }),
                    Err(e) => StepResult::Fail(e),
                }
            } else {
                StepResult::Stuck
            },
            v => StepResult::Fail(EvalErrorV::NotApplicable(v)),
        },
    }
}

/// How a run ends within a step budget.
pub enum Outcome {
    Done(ObjV),
    Fail(EvalErrorV),
    Stuck,
}

/// Run the machine from `s` for at most `fuel` steps: the result value
/// once the stack empties, the failure a step reports, `OutOfSteps` when
/// the budget runs dry, and `Stuck` only from states that well-formed
/// input can never reach.
pub open spec fn run_view(s: StateV, fuel: nat) -> Outcome
    decreases fuel,
{
    if s.stack.len() == 0 {
        Outcome::Done(s.value)
    } else if fuel == 0 {
        Outcome::Fail(EvalErrorV::OutOfSteps)
    } else {
        match step_view(s) {
            StepResult::Next(s2) => run_view(s2, (fuel - 1) as nat),
            StepResult::Fail(e) => Outcome::Fail(e),
            StepResult::Stuck => Outcome::Stuck,
        }
    }
}

fn arity_of(p: Primitive) -> (r: usize)
    requires
        is_low_prim(p),
    ensures
        r as int == arity_view(p),
{
    match p {
        Primitive::Neg => 1,
        Primitive::Car => 1,
        Primitive::Cdr => 1,
        Primitive::BoolToInt => 1,
        _ => 2,
    }
}

fn expected_of(p: Primitive, pos: usize) -> (r: ObjType)
    requires
        is_low_prim(p),
    ensures
        r == expected_arg_view(p, pos as int),
{
    match p {
        Primitive::Plus => ObjType::Int,
        Primitive::Minus => ObjType::Int,
        Primitive::Times => ObjType::Int,
        Primitive::Div => ObjType::Int,
        Primitive::Mod => ObjType::Int,
        Primitive::Neg => ObjType::Bool,
        Primitive::And => ObjType::Bool,
        Primitive::Or => ObjType::Bool,
        Primitive::Xor => ObjType::Bool,
        Primitive::Cons => ObjType::Any,
        Primitive::Car => ObjType::Cons,
        Primitive::Cdr => ObjType::Cons,
        Primitive::Eq => ObjType::Int,
        Primitive::Lt => ObjType::Int,
        Primitive::Le => ObjType::Int,
        Primitive::Gt => ObjType::Int,
        Primitive::Ge => ObjType::Int,
        Primitive::BoolToInt => ObjType::Bool,
        _ => ObjType::Any,
    }
}

fn get_int(obj: &Obj) -> (r: i64)
    requires
        obj@ is Int,
    ensures
        obj@ == ObjV::Int(r),
{
    match obj {
        Obj::Int(i) => *i,
        _ => vstd::pervasive::unreached(),
    }
}

fn get_bool(obj: &Obj) -> (r: bool)
    requires
        obj@ is Bool,
    ensures
        obj@ == ObjV::Bool(r),
{
    match obj {
        Obj::Bool(b) => *b,
        _ => vstd::pervasive::unreached(),
    }
}

fn get_pair(obj: &Obj) -> (r: (Rc<Obj>, Rc<Obj>))
    requires
        obj@ is Cons,
    ensures
        obj@ == ObjV::Cons(Box::new(obj_view(*r.0)), Box::new(obj_view(*r.1))),
        wf_obj(*obj) ==> wf_obj(*r.0) && wf_obj(*r.1),
{
    match obj {
        Obj::Cons(car, cdr) => (car.clone(), cdr.clone()),
        _ => vstd::pervasive::unreached(),
    }
}

spec fn wf_curried(cp: CurriedPrimitive) -> bool {
    wf_obj(Obj::CurriedPrimitive(cp))
}

spec fn stored_view(a: Option<Rc<Obj>>) -> Option<ObjV> {
    match a {
        None => None,
        Some(x) => Some(obj_view(*x)),
    }
}

/// Supply one more argument to a partially applied primitive. A wrongly
/// typed argument is a descriptive error and consumes nothing; below
/// arity the result is a new partial application; at arity the
/// primitive fires.
fn apply_primitive(prim: &CurriedPrimitive, arg: Rc<Obj>) -> (r: Result<Rc<Obj>, EvalError>)
    requires
        wf_curried(*prim),
        wf_obj(*arg),
    ensures
        match r {
            Ok(v) => apply_prim_view(prim.primitive, stored_view(prim.arg0), obj_view(*arg))
                == Ok::<ObjV, EvalErrorV>(obj_view(*v)) && wf_obj(*v),
            Err(e) => apply_prim_view(prim.primitive, stored_view(prim.arg0), obj_view(*arg))
                == Err::<ObjV, EvalErrorV>(e@),
        },
{
    let pos: usize = if prim.arg0.is_some() {
        1
    } else {
        0
    };
    let expected = expected_of(prim.primitive, pos);
    if !expected.check_type(&arg) {
        return Err(EvalError::PrimitiveType {
            primitive: prim.primitive,
            expected,
            got: (*arg).clone(),
        });
    }
    let arity = arity_of(prim.primitive);
    if pos + 1 < arity {
        return Ok(Rc::new(Obj::CurriedPrimitive(CurriedPrimitive {
            primitive: prim.primitive,
            arg0: Some(arg),
        })));
    }
    let a0: Rc<Obj> = match &prim.arg0 {
        Some(a) => a.clone(),
        None => arg.clone(),
    };
    let a1: Rc<Obj> = arg;
    let val: Obj = match prim.primitive {
        Primitive::Plus => Obj::Int(get_int(&a0).wrapping_add(get_int(&a1))),
        Primitive::Minus => Obj::Int(get_int(&a0).wrapping_sub(get_int(&a1))),
        Primitive::Times => Obj::Int(get_int(&a0).wrapping_mul(get_int(&a1))),
        Primitive::Div => {
            let d = get_int(&a1);
            if d == 0 {
                return Err(EvalError::DivisionByZero(prim.primitive));
            }
            match get_int(&a0).checked_div(d) {
                Some(v) => Obj::Int(v),
                None => {
                    return Err(EvalError::Overflow(prim.primitive));
                }
            }
        }
        Primitive::Mod => {
            let d = get_int(&a1);
            if d == 0 {
                return Err(EvalError::DivisionByZero(prim.primitive));
            }
            match get_int(&a0).checked_rem(d) {
                Some(v) => Obj::Int(v),
                None => {
                    return Err(EvalError::Overflow(prim.primitive));
                }
            }
        }
        Primitive::Neg => Obj::Bool(!get_bool(&a0)),
        Primitive::And => {
            let x = get_bool(&a0);
            let y = get_bool(&a1);
            Obj::Bool(x && y)
        }
        Primitive::Or => {
            let x = get_bool(&a0);
            let y = get_bool(&a1);
            Obj::Bool(x || y)
        }
        Primitive::Xor => {
            let x = get_bool(&a0);
            let y = get_bool(&a1);
            Obj::Bool(x != y)
        }
        Primitive::Cons => Obj::Cons(a0.clone(), a1.clone()),
        Primitive::Car => (*get_pair(&a0).0).clone(),
        Primitive::Cdr => (*get_pair(&a0).1).clone(),
        Primitive::Eq => Obj::Bool(get_int(&a0) == get_int(&a1)),
        Primitive::Lt => Obj::Bool(get_int(&a0) < get_int(&a1)),
        Primitive::Le => Obj::Bool(get_int(&a0) <= get_int(&a1)),
        Primitive::Gt => Obj::Bool(get_int(&a0) > get_int(&a1)),
        Primitive::Ge => Obj::Bool(get_int(&a0) >= get_int(&a1)),
        Primitive::BoolToInt => Obj::Int(
            if get_bool(&a0) {
                1
            } else {
                0
            },
        ),
        _ => vstd::pervasive::unreached(),
    };
    Ok(Rc::new(val))
}

proof fn lemma_conts_view_push(s: Seq<Continuation>, c: Continuation)
    ensures
        conts_view(s.push(c)) =~= conts_view(s).push(cont_view(c)),
{
}

proof fn lemma_conts_view_drop_last(s: Seq<Continuation>)
    requires
        s.len() > 0,
    ensures
        conts_view(s.drop_last()) =~= conts_view(s).drop_last(),
        conts_view(s).last() == cont_view(s.last()),
{
}

/// Dispatch one expression: produce its value directly, or push the
/// continuations that will. The reported step is exactly what
/// `step_view` prescribes for an `Eval` continuation on top of the
/// incoming state.
fn eval(
    expr: MirExpr,
    environment: Env,
    stack: &mut Vec<Continuation>,
    value: &mut Rc<Obj>,
) -> (r: Result<(), EvalError>)
    requires
        runnable(expr@),
        wf_env(environment),
        forall|i: int| 0 <= i < old(stack)@.len() ==> wf_cont(#[trigger] old(stack)@[i]),
        wf_obj(**old(value)),
    ensures
        forall|i: int| 0 <= i < final(stack)@.len() ==> wf_cont(#[trigger] final(stack)@[i]),
        wf_obj(**final(value)),
        match r {
            Ok(()) => step_view(
                StateV {
                    stack: conts_view(old(stack)@).push(
                        ContV::Eval { expr: expr@, env: environment@ },
                    ),
                    value: (*old(value))@,
                },
            ) == StepResult::Next(
                StateV { stack: conts_view(final(stack)@), value: (*final(value))@ },
            ),
            Err(e) => step_view(
                StateV {
                    stack: conts_view(old(stack)@).push(
                        ContV::Eval { expr: expr@, env: environment@ },
                    ),
                    value: (*old(value))@,
                },
            ) == StepResult::Fail(e@),
        },
{
    let ghost pre = StateV {
        stack: conts_view(old(stack)@).push(ContV::Eval { expr: expr@, env: environment@ }),
        value: (*old(value))@,
    };
    proof {
        assert(pre.stack.drop_last() =~= conts_view(old(stack)@));
    }
    match expr {
        MirExpr::Lambda(l) => {
            let lam = *l;
            *value = Rc::new(Obj::Lambda(Box::new(Lambda {
                env: environment,
                arg: lam.arg,
                body: lam.body,
            })));
            proof {
                assert(step_view(pre) == StepResult::Next(
                    StateV { stack: conts_view(stack@), value: (**value)@ },
                ));
            }
        }
        MirExpr::If(i) => {
            let branch = *i;
            let ghost base = stack@;
            stack.push(Continuation::If {
                consequent: branch.consequent,
                alternative: branch.alternative,
                environment: environment.clone(),
            });
            let ghost mid = stack@;
            stack.push(Continuation::Eval { expr: branch.condition, environment });
            proof {
                lemma_conts_view_push(base, mid.last());
                lemma_conts_view_push(mid, stack@.last());
                assert(step_view(pre) == StepResult::Next(
                    StateV { stack: conts_view(stack@), value: (**value)@ },
                ));
            }
        }
        MirExpr::Apply(a) => {
            let app = *a;
            let ghost base = stack@;
            stack.push(Continuation::EvalArg {
                arg: app.arg,
                environment: environment.clone(),
            });
            let ghost mid = stack@;
            stack.push(Continuation::Eval { expr: app.func, environment });
            proof {
                lemma_conts_view_push(base, mid.last());
                lemma_conts_view_push(mid, stack@.last());
                assert(step_view(pre) == StepResult::Next(
                    StateV { stack: conts_view(stack@), value: (**value)@ },
                ));
            }
        }
        MirExpr::Primitive(p) => {
            *value = Rc::new(Obj::CurriedPrimitive(CurriedPrimitive { primitive: p, arg0: None }));
            proof {
                assert(step_view(pre) == StepResult::Next(
                    StateV { stack: conts_view(stack@), value: (**value)@ },
                ));
            }
        }
        MirExpr::Literal(l) => {
            *value = Rc::new(
                match *l {
                    MirLiteral::Bool(b) => Obj::Bool(b),
                    MirLiteral::Int(i) => Obj::Int(i),
                    MirLiteral::Null => Obj::Null,
                },
            );
            proof {
                assert(step_view(pre) == StepResult::Next(
                    StateV { stack: conts_view(stack@), value: (**value)@ },
                ));
            }
        }
        MirExpr::Ref(name) => {
            match environment.find_value(&name) {
                Some(v) => {
                    *value = v;
                    proof {
                        assert(step_view(pre) == StepResult::Next(
                            StateV { stack: conts_view(stack@), value: (**value)@ },
                        ));
                    }
                }
                None => {
                    let err = EvalError::UndefinedName(name);
                    proof {
                        assert(step_view(pre) == StepResult::Fail(err@));
                    }
                    return Err(err);
                }
            }
        }
        MirExpr::Comment(_, inner) => {
            let ghost mid = stack@;
            stack.push(Continuation::Eval { expr: *inner, environment });
            proof {
                lemma_conts_view_push(mid, stack@.last());
                assert(mid.push(stack@.last()) =~= stack@);
                assert(step_view(pre) == StepResult::Next(
                    StateV { stack: conts_view(stack@), value: (**value)@ },
                ));
            }
        }
        MirExpr::Let(_) => {
            vstd::pervasive::unreached::<()>();
        }
    }
    Ok(())
}

/// Evaluate one desugared expression to a runtime object, within a step
/// budget, on an explicit continuation stack.
///
/// The result is exactly what the machine of `step_view` yields from
/// `init_state`: the final register value if the stack empties within
/// `max_steps` steps, otherwise the first failure a step reports, or
/// `OutOfSteps` when the budget is exhausted first.
pub fn run(expr: &MirExpr, max_steps: u64) -> (r: Result<Obj, EvalError>)
    requires
        runnable(expr@),
    ensures
        match r {
            Ok(o) => run_view(init_state(expr@), max_steps as nat) == Outcome::Done(o@),
            Err(e) => run_view(init_state(expr@), max_steps as nat) == Outcome::Fail(e@),
        },
{
    let top_level = Env::root();
    let mut stack: Vec<Continuation> = Vec::new();
    stack.push(Continuation::Eval { expr: expr.clone(), environment: top_level });
    let mut value: Rc<Obj> = Rc::new(Obj::Null);
    let mut steps_left: u64 = max_steps;
    proof {
        assert(conts_view(stack@) =~= init_state(expr@).stack);
        assert(state_of(stack@, value@) == init_state(expr@));
    }
    loop
        invariant
            runnable(expr@),
            forall|i: int| 0 <= i < stack@.len() ==> wf_cont(#[trigger] stack@[i]),
            wf_obj(*value),
            run_view(init_state(expr@), max_steps as nat) == run_view(
                state_of(stack@, value@),
                steps_left as nat,
            ),
        decreases steps_left,
    {
        if stack.len() == 0 {
            proof {
                assert(conts_view(stack@).len() == 0);
            }
            return Ok((*value).clone());
        }
        if steps_left == 0 {
            proof {
                assert(conts_view(stack@).len() > 0);
            }
            return Err(EvalError::OutOfSteps);
        }
        let ghost pre = state_of(stack@, value@);
        let ghost fuel: nat = steps_left as nat;
        proof {
            assert(pre.stack.len() == stack@.len());
        }
        let cont = match stack.pop() {
            Some(c) => c,
            None => vstd::pervasive::unreached(),
        };
        proof {
            lemma_conts_view_drop_last(stack@.push(cont));
            assert(stack@.push(cont).drop_last() =~= stack@);
            assert(conts_view(stack@) =~= pre.stack.drop_last());
            assert(cont_view(cont) == pre.stack.last());
        }
        steps_left = steps_left - 1;
        let ghost rest = conts_view(stack@);
        match cont {
            Continuation::Eval { expr: e, environment } => {
                proof {
                    assert(conts_view(stack@).push(
                        ContV::Eval { expr: e@, env: environment@ },
                    ) =~= pre.stack);
                }
                match eval(e, environment, &mut stack, &mut value) {
                    Ok(()) => {
                        proof {
                            assert(step_view(pre) == StepResult::Next(
                                state_of(stack@, value@),
                            ));
                        }
                    }
                    Err(err) => {
                        proof {
                            assert(step_view(pre) == StepResult::Fail(err@));
                        }
                        return Err(err);
                    }
                }
            }
            Continuation::If { consequent, alternative, environment } => {
                match &*value {
                    Obj::Bool(t) => {
                        let chosen = if *t {
                            consequent
                        } else {
                            alternative
                        };
                        let ghost mid = stack@;
                        stack.push(Continuation::Eval { expr: chosen, environment });
                        proof {
                            lemma_conts_view_push(mid, stack@.last());
                            assert(mid.push(stack@.last()) =~= stack@);
                            assert(step_view(pre) == StepResult::Next(
                                state_of(stack@, value@),
                            ));
                        }
                    }
                    _ => {
                        let err = EvalError::NotABool((*value).clone());
                        proof {
                            assert(step_view(pre) == StepResult::Fail(err@));
                        }
                        return Err(err);
                    }
                }
            }
            Continuation::EvalArg { arg, environment } => {
                let ghost base = stack@;
                stack.push(Continuation::Apply {
                    func: value.clone(),
                    environment: environment.clone(),
                });
                let ghost mid = stack@;
                stack.push(Continuation::Eval { expr: arg, environment });
                proof {
                    lemma_conts_view_push(base, mid.last());
                    lemma_conts_view_push(mid, stack@.last());
                    assert(step_view(pre) == StepResult::Next(state_of(stack@, value@)));
                }
            }
            Continuation::Apply { func, environment } => {
                match &*func {
                    Obj::Lambda(l) => {
                        let new_env = l.env.with_value(l.arg.clone(), value.clone());
                        let ghost mid = stack@;
                        stack.push(Continuation::Eval {
                            expr: l.body.clone(),
                            environment: new_env,
                        });
                        proof {
                            lemma_conts_view_push(mid, stack@.last());
                            assert(mid.push(stack@.last()) =~= stack@);
                            assert(step_view(pre) == StepResult::Next(
                                state_of(stack@, value@),
                            ));
                        }
                    }
                    Obj::CurriedPrimitive(p) => {
                        match apply_primitive(p, value.clone()) {
                            Ok(v) => {
                                value = v;
                                proof {
                                    assert(step_view(pre) == StepResult::Next(
                                        state_of(stack@, value@),
                                    ));
                                }
                            }
                            Err(e) => {
                                proof {
                                    assert(step_view(pre) == StepResult::Fail(e@));
                                }
                                return Err(e);
                            }
                        }
                    }
                    _ => {
                        let err = EvalError::NotApplicable((*func).clone());
                        proof {
                            assert(step_view(pre) == StepResult::Fail(err@));
                        }
                        return Err(err);
                    }
                }
            }
        }
        proof {
            assert(run_view(pre, fuel) == run_view(state_of(stack@, value@), steps_left as nat));
        }
    }
}

/// Law: a wrongly typed argument to a partially applied primitive
/// yields the descriptive type error, naming the primitive, the class
/// it demands, and the offending value — and consumes nothing. A
/// partial application is an immutable value: what a failed attempt
/// returns is the error alone, so the same partial accepts any later
/// argument exactly as if the failure had not happened.
pub proof fn lemma_partial_application_not_consumed(
    p: Primitive,
    stored: Option<ObjV>,
    bad: ObjV,
)
    requires
        !check_type_view(
            expected_arg_view(
                p,
                if stored is Some {
                    1int
                } else {
                    0int
                },
            ),
            bad,
        ),
    ensures
        apply_prim_view(p, stored, bad) == Err::<ObjV, EvalErrorV>(EvalErrorV::PrimitiveType {
            primitive: p,
            expected: expected_arg_view(
                p,
                if stored is Some {
                    1int
                } else {
                    0int
                },
            ),
            got: bad,
        }),
{
}

} // verus!
