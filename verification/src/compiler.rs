//! The lowering driver: one compiler session per function, holding the
//! graph under construction, the lexical name-to-stack-slot table, and a
//! fresh-name counter.

use vstd::prelude::*;

use crate::cfg::{res_name, BlockId, BlockV, Cfg, CfgV};
use crate::expr::Value;
use crate::hir::FuncDef;
use crate::mir::{Lambda, MirExpr, MirExprV, MirInternedStr, Primitive};

verus! {

/// Why lowering failed.
#[derive(Debug)]
pub enum CompileError {
    /// A variable reference with no declared stack slot.
    UndeclaredName(MirInternedStr),
    /// The stack-slot counter is exhausted.
    TooManyLocals,
    /// The block store is exhausted.
    TooManyBlocks,
    /// No function named `main` was compiled.
    NoMain,
    /// The graph cannot be lowered: a block chain never reaches the
    /// return block.
    OpenControlFlow,
}

pub enum CompileErrorV {
    UndeclaredName(Seq<char>),
    TooManyLocals,
    TooManyBlocks,
    NoMain,
    OpenControlFlow,
}

impl View for CompileError {
    type V = CompileErrorV;

    open spec fn view(&self) -> CompileErrorV {
        match self {
            CompileError::UndeclaredName(n) => CompileErrorV::UndeclaredName(n@),
            CompileError::TooManyLocals => CompileErrorV::TooManyLocals,
            CompileError::TooManyBlocks => CompileErrorV::TooManyBlocks,
            CompileError::NoMain => CompileErrorV::NoMain,
            CompileError::OpenControlFlow => CompileErrorV::OpenControlFlow,
        }
    }
}

/// One lowering session.
#[derive(Debug)]
pub struct Compiler {
    pub(crate) gensym_counter: usize,
    pub(crate) cfg: Cfg,
    pub(crate) current_block: BlockId,
    pub(crate) return_block: BlockId,
    pub(crate) stack_positions: Vec<(MirInternedStr, usize)>,
    pub(crate) next_stack_slot: usize,
}

/// The mathematical shape of a session.
pub struct CompilerV {
    pub gensym_counter: usize,
    pub cfg: CfgV,
    pub current_block: BlockId,
    pub return_block: BlockId,
    pub stack_positions: Seq<(Seq<char>, usize)>,
    pub next_stack_slot: usize,
}

impl View for Compiler {
    type V = CompilerV;

    closed spec fn view(&self) -> CompilerV {
        CompilerV {
            gensym_counter: self.gensym_counter,
            cfg: self.cfg@,
            current_block: self.current_block,
            return_block: self.return_block,
            stack_positions: self.stack_positions@.map_values(
                |p: (MirInternedStr, usize)| (p.0@, p.1),
            ),
            next_stack_slot: self.next_stack_slot,
        }
    }
}

/// The session invariant between statements: the cursor rests on an
/// existing, still-empty block, the mirror of the cursor agrees with
/// the graph's own, and the return block is designated.
pub open spec fn wf_compiler(c: CompilerV) -> bool {
    &&& c.cfg.current_block < c.cfg.blocks.len()
    &&& c.current_block == c.cfg.current_block
    &&& c.cfg.blocks[c.cfg.current_block as int].instr is None
    &&& c.cfg.blocks[c.cfg.current_block as int].jump is None
    &&& c.cfg.return_block_id == Some(c.return_block)
}

/// The slot a name resolves to: the most recently pushed entry wins,
/// so shadowing is innermost-first.
pub open spec fn lookup_slot(s: Seq<(Seq<char>, usize)>, name: Seq<char>) -> Option<usize>
    decreases s.len(),
{
    if s.len() == 0 {
        None
    } else if s.last().0 == name {
        Some(s.last().1)
    } else {
        lookup_slot(s.drop_last(), name)
    }
}

pub open spec fn dec_digit(d: int) -> char {
    if d == 0 {
        '0'
    } else if d == 1 {
        '1'
    } else if d == 2 {
        '2'
    } else if d == 3 {
        '3'
    } else if d == 4 {
        '4'
    } else if d == 5 {
        '5'
    } else if d == 6 {
        '6'
    } else if d == 7 {
        '7'
    } else if d == 8 {
        '8'
    } else {
        '9'
    }
}

/// The decimal spelling of a number.
pub open spec fn dec_view(n: int) -> Seq<char>
    decreases n,
{
    if n < 10 {
        seq![dec_digit(n)]
    } else {
        dec_view(n / 10).push(dec_digit(n % 10))
    }
}

/// Relies on std's `String::push`: appends exactly one character.
#[verifier::external_body]
pub(crate) fn push_char(s: &mut String, c: char)
    ensures
        final(s)@ == old(s)@.push(c),
{
    s.push(c);
}

fn digit_char(d: usize) -> (r: char)
    requires
        d < 10,
    ensures
        r == dec_digit(d as int),
{
    match d {
        0 => '0',
        1 => '1',
        2 => '2',
        3 => '3',
        4 => '4',
        5 => '5',
        6 => '6',
        7 => '7',
        8 => '8',
        _ => '9',
    }
}

fn push_decimal(n: usize, out: &mut String)
    ensures
        final(out)@ == old(out)@ + dec_view(n as int),
    decreases n,
{
    if n < 10 {
        push_char(out, digit_char(n));
        proof {
            assert(final(out)@ =~= old(out)@ + dec_view(n as int));
        }
    } else {
        push_decimal(n / 10, out);
        push_char(out, digit_char(n % 10));
        proof {
            assert(final(out)@ =~= old(out)@ + dec_view(n as int));
        }
    }
}

/// The name a fresh-name request yields: the prefix between fixed
/// markers, then the counter's decimal spelling.
pub open spec fn gensym_view(prefix: Seq<char>, n: int) -> Seq<char> {
    "__"@ + prefix + "_"@ + dec_view(n)
}

/// The state a fresh session starts from.
pub open spec fn fresh_session_view() -> CompilerV {
    CompilerV {
        gensym_counter: 0,
        cfg: CfgV {
            blocks: seq![BlockV { instr: None, jump: None }],
            return_block_id: None,
            current_block: 0,
        },
        current_block: 0,
        return_block: 0,
        stack_positions: Seq::empty(),
        next_stack_slot: 0,
    }
}

/// The session's shape is exactly its fields' shapes.
pub(crate) broadcast proof fn lemma_compiler_fields(c: &Compiler)
    ensures
        #[trigger] c@ == (CompilerV {
            gensym_counter: c.gensym_counter,
            cfg: c.cfg@,
            current_block: c.current_block,
            return_block: c.return_block,
            stack_positions: c.stack_positions@.map_values(
                |p: (MirInternedStr, usize)| (p.0@, p.1),
            ),
            next_stack_slot: c.next_stack_slot,
        }),
{
}

impl Compiler {
    /// A fresh session: an empty graph with no return block designated
    /// yet, no slots, and the counter at zero.
    pub fn new() -> (r: Compiler)
        ensures
            r@ == fresh_session_view(),
    {
        let r = Compiler {
            gensym_counter: 0,
            cfg: Cfg::default(),
            current_block: 0,
            return_block: 0,
            stack_positions: Vec::new(),
            next_stack_slot: 0,
        };
        proof {
            assert(r@.stack_positions =~= Seq::<(Seq<char>, usize)>::empty());
            assert(r@ == fresh_session_view());
        }
        r
    }

    /// A fresh name carrying `prefix`, distinct from every other name
    /// this session generates: the counter ticks once per call.
    pub fn gensym(&mut self, prefix: &str) -> (r: MirInternedStr)
        requires
            old(self)@.gensym_counter < usize::MAX,
        ensures
            r@ == gensym_view(prefix@, old(self)@.gensym_counter as int),
            final(self)@ == (CompilerV {
                gensym_counter: (old(self)@.gensym_counter + 1) as usize,
                ..old(self)@
            }),
    {
        let i = self.gensym_counter;
        self.gensym_counter = self.gensym_counter + 1;
        let mut s = String::new();
        s.append("__");
        s.append(prefix);
        s.append("_");
        push_decimal(i, &mut s);
        proof {
            assert(s@ =~= gensym_view(prefix@, i as int));
        }
        MirInternedStr::get_or_intern(s.as_str())
    }

    /// Give `identifier` the next stack slot; the previous binding of
    /// the same name, if any, is shadowed.
    pub(crate) fn declare_stack_slot(&mut self, identifier: MirInternedStr) -> (r: usize)
        requires
            old(self)@.next_stack_slot < usize::MAX,
        ensures
            r == old(self)@.next_stack_slot,
            final(self)@ == (CompilerV {
                stack_positions: old(self)@.stack_positions.push(
                    (identifier@, old(self)@.next_stack_slot),
                ),
                next_stack_slot: (old(self)@.next_stack_slot + 1) as usize,
                ..old(self)@
            }),
    {
        let slot = self.next_stack_slot;
        self.next_stack_slot = self.next_stack_slot + 1;
        let ghost pre = self.stack_positions@;
        self.stack_positions.push((identifier, slot));
        proof {
            assert(self.stack_positions@.map_values(|p: (MirInternedStr, usize)| (p.0@, p.1))
                =~= pre.map_values(|p: (MirInternedStr, usize)| (p.0@, p.1)).push(
                (identifier@, slot),
            ));
        }
        slot
    }

    /// The stack slot `identifier` resolves to, innermost declaration
    /// first; an error names the identifier when none is in scope.
    pub(crate) fn get_stack(&self, identifier: &MirInternedStr) -> (r: Result<usize, CompileError>)
        ensures
            match r {
                Ok(slot) => lookup_slot(self@.stack_positions, identifier@) == Some(slot),
                Err(e) => lookup_slot(self@.stack_positions, identifier@) is None && e@
                    == CompileErrorV::UndeclaredName(identifier@),
            },
    {
        let ghost all = self@.stack_positions;
        let mut i: usize = self.stack_positions.len();
        proof {
            assert(all.subrange(0, all.len() as int) =~= all);
            assert(all.len() == self.stack_positions@.len());
        }
        while i > 0
            invariant
                i <= self.stack_positions.len(),
                all == self@.stack_positions,
                lookup_slot(all, identifier@) == lookup_slot(
                    all.subrange(0, i as int),
                    identifier@,
                ),
            decreases i,
        {
            let entry = &self.stack_positions[i - 1];
            proof {
                assert(all.subrange(0, i as int).last() == all[i - 1]);
                assert(all[i - 1] == (entry.0@, entry.1));
                assert(all.subrange(0, i as int).drop_last() =~= all.subrange(0, i - 1));
            }
            if entry.0 == *identifier {
                return Ok(entry.1);
            }
            i = i - 1;
        }
        proof {
            assert(all.subrange(0, 0).len() == 0);
        }
        Err(CompileError::UndeclaredName(identifier.clone()))
    }
}

/// Wrap an expression as a block instruction: a one-argument function
/// binding the previous result to `_res`.
pub fn create_res_lambda(e: MirExpr) -> (r: Lambda)
    ensures
        r.arg@ == "_res"@,
        r.body@ == e@,
{
    Lambda { arg: res_name(), body: e }
}

/// Wrap a value in the state-threading unit action: the `pure`
/// primitive applied to it. The result is an action, no longer pure.
pub fn lift(v: Value) -> (r: Value)
    ensures
        r@.val == (MirExprV::Apply {
            func: Box::new(MirExprV::Primitive(Primitive::Pure)),
            arg: Box::new(v@.val),
        }),
        r@.ctype == v@.ctype,
        r@.pure == false,
{
    Value {
        val: MirExpr::apply(MirExpr::Primitive(Primitive::Pure), v.val),
        ctype: v.ctype,
        pure: false,
    }
}

spec fn opt_expr_view(o: Option<MirExpr>) -> Option<MirExprV> {
    match o {
        None => None,
        Some(e) => Some(e@),
    }
}

/// Compile a program: lower every function in one session and return
/// the MIR expression of the function named `main`.
pub fn compile(funcs: Vec<FuncDef>) -> (r: Result<MirExpr, CompileError>)
    ensures
        match r {
            Ok(e) => crate::stmt::compile_view(
                fresh_session_view(),
                crate::stmt::funcs_view(funcs@),
                None,
            ) == Ok::<MirExprV, CompileErrorV>(e@),
            Err(err) => crate::stmt::compile_view(
                fresh_session_view(),
                crate::stmt::funcs_view(funcs@),
                None,
            ) == Err::<MirExprV, CompileErrorV>(err@),
        },
{
    let mut compiler = Compiler::new();
    let ghost fv = crate::stmt::funcs_view(funcs@);
    let mut found: Option<MirExpr> = None;
    let main_name = MirInternedStr::get_or_intern("main");
    let mut i: usize = 0;
    proof {
        crate::stmt::lemma_funcs_view_index(funcs@);
        assert(fv.skip(0) =~= fv);
    }
    while i < funcs.len()
        invariant
            i <= funcs@.len(),
            main_name@ == "main"@,
            fv == crate::stmt::funcs_view(funcs@),
            fv.len() == funcs@.len(),
            forall|j: int| 0 <= j < funcs@.len() ==> fv[j] == #[trigger] funcs@[j]@,
            crate::stmt::compile_view(fresh_session_view(), fv, None)
                == crate::stmt::compile_view(compiler@, fv.skip(i as int), opt_expr_view(found)),
        decreases funcs@.len() - i,
    {
        let ghost pre_c = compiler@;
        let ghost pre_found = opt_expr_view(found);
        proof {
            assert(fv.skip(i as int)[0] == funcs@[i as int]@);
            assert(fv.skip(i as int).drop_first() =~= fv.skip(i as int + 1));
        }
        let f = &funcs[i];
        match compiler.compile_func_at(&f.stmts) {
            Ok(()) => {},
            Err(e) => {
                proof {
                    assert(crate::stmt::compile_view(pre_c, fv.skip(i as int), pre_found)
                        == Err::<MirExprV, CompileErrorV>(e@));
                }
                return Err(e);
            },
        }
        let lowered = match compiler.cfg.to_mir() {
            Some(e) => e,
            None => {
                proof {
                    assert(crate::stmt::compile_view(pre_c, fv.skip(i as int), pre_found)
                        == Err::<MirExprV, CompileErrorV>(CompileErrorV::OpenControlFlow));
                }
                return Err(CompileError::OpenControlFlow);
            },
        };
        if &f.name == &main_name {
            found = Some(lowered);
        }
        i = i + 1;
        proof {
            assert(crate::stmt::compile_view(pre_c, fv.skip(i - 1), pre_found)
                == crate::stmt::compile_view(compiler@, fv.skip(i as int), opt_expr_view(found)));
        }
    }
    proof {
        assert(fv.skip(i as int).len() == 0);
    }
    match found {
        Some(e) => Ok(e),
        None => Err(CompileError::NoMain),
    }
}

} // verus!
