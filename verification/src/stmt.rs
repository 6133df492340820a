//! Statement lowering: structured statements become basic blocks with
//! at most one instruction each, and the whole program becomes the MIR
//! expression of its `main` function.

use vstd::prelude::*;

use crate::cfg::{cfg_evolves, cfg_to_mir_view, lemma_cfg_evolves_trans, BlockV, Cfg, CfgV, Jump};
use crate::compiler::{
    create_res_lambda, wf_compiler, Compiler, CompileError, CompileErrorV, CompilerV,
};
use crate::expr::{compile_expr_view, Value, ValueV};
use crate::hir::{stmts_view, DeclV, Declaration, FuncDef, FuncDefV, Stmt, StmtV, Type};
use crate::mir::{MirExpr, MirExprV, MirLiteral};

verus! {

broadcast use vstd::std_specs::vec::axiom_vec_decreases_to_view, vstd::std_specs::vec::axiom_vec_index_decreases, crate::compiler::lemma_compiler_fields;

/// Give each declared name its stack slot, left to right; no
/// instruction is emitted.
pub open spec fn declare_all_view(c: CompilerV, decls: Seq<DeclV>) -> Result<
    CompilerV,
    CompileErrorV,
>
    decreases decls.len(),
{
    if decls.len() == 0 {
        Ok(c)
    } else if c.next_stack_slot >= usize::MAX {
        Err(CompileErrorV::TooManyLocals)
    } else {
        let c2 = CompilerV {
            stack_positions: c.stack_positions.push((decls[0].name, c.next_stack_slot)),
            next_stack_slot: (c.next_stack_slot + 1) as usize,
            ..c
        };
        declare_all_view(c2, decls.drop_first())
    }
}

/// What lowering one statement yields: the session afterwards and the
/// value threaded on to the next statement.
///
/// A compound block flattens into the sequence; declarations bind slots
/// and pass the previous value through; an expression statement becomes
/// the new value; `return` fills the current block with the result
/// computation, jumps to the return block, and opens a fresh block; a
/// conditional fills the current block with its condition and a two-way
/// branch into two fresh arm blocks, lowers each arm there (a missing
/// arm is an empty block), and joins both arms by a jump to a fresh
/// continuation block.
pub open spec fn compile_stmt_view(c: CompilerV, prev: ValueV, s: StmtV) -> Result<
    (CompilerV, ValueV),
    CompileErrorV,
>
    decreases s,
{
    match s {
        StmtV::Compound(stmts) => compile_all_view(c, prev, stmts),
        StmtV::Decl(decls) => match declare_all_view(c, decls) {
            Err(e) => Err(e),
            Ok(c2) => Ok((c2, prev)),
        },
        StmtV::Expr(e) => match compile_expr_view(c, e) {
            Err(e) => Err(e),
            Ok(v) => Ok((c, v)),
        },
        StmtV::Return(opt) => {
            let retval = match opt {
                Some(e) => compile_expr_view(c, e),
                None => Ok(ValueV {
                    val: MirExprV::Literal(MirLiteral::Null),
                    ctype: Type::Int,
                    pure: true,
                }),
            };
            match retval {
                Err(e) => Err(e),
                Ok(v) => if c.cfg.blocks.len() >= usize::MAX {
                    Err(CompileErrorV::TooManyBlocks)
                } else {
                    let cur = c.cfg.current_block as int;
                    let filled = c.cfg.blocks.update(
                        cur,
                        BlockV {
                            instr: Some(("_res"@, v.val)),
                            jump: Some(Jump::Jmp(c.return_block)),
                        },
                    );
                    let nb = filled.len() as usize;
                    Ok((
                        CompilerV {
                            cfg: CfgV {
                                blocks: filled.push(BlockV { instr: None, jump: None }),
                                return_block_id: c.cfg.return_block_id,
                                current_block: nb,
                            },
                            current_block: nb,
                            ..c
                        },
                        prev,
                    ))
                },
            }
        },
        StmtV::If(cond, body, otherwise) => match compile_expr_view(c, cond) {
            Err(e) => Err(e),
            Ok(cv) => if c.cfg.blocks.len() + 3 > usize::MAX {
                Err(CompileErrorV::TooManyBlocks)
            } else {
                let start = if_setup_view(c, cv);
                match compile_stmt_view(start, prev, *body) {
                    Err(e) => Err(e),
                    Ok((c2, _)) => {
                        let joined = if_arm_done_view(c, c2, false);
                        let alt = match otherwise {
                            Some(o) => compile_stmt_view(joined, prev, *o),
                            None => Ok((joined, prev)),
                        };
                        match alt {
                            Err(e) => Err(e),
                            Ok((c4, _)) => Ok((if_arm_done_view(c, c4, true), prev)),
                        }
                    },
                }
            },
        },
    }
}

/// Start lowering a conditional: the current block takes the condition
/// as its instruction and a two-way branch into two fresh arm blocks; a
/// third fresh block will receive the converging control flow, and the
/// cursor moves to the first arm.
pub open spec fn if_setup_view(c: CompilerV, cv: ValueV) -> CompilerV {
    let n = c.cfg.blocks.len();
    let empty = BlockV { instr: None, jump: None };
    CompilerV {
        cfg: CfgV {
            blocks: c.cfg.blocks.update(
                c.cfg.current_block as int,
                BlockV {
                    instr: Some(("_res"@, cv.val)),
                    jump: Some(Jump::Br(n as usize, (n + 1) as usize)),
                },
            ).push(empty).push(empty).push(empty),
            return_block_id: c.cfg.return_block_id,
            current_block: n as usize,
        },
        current_block: n as usize,
        ..c
    }
}

/// Close one lowered arm: its final block jumps to the continuation
/// block, and the cursor moves on — to the other arm block after the
/// first arm, to the continuation block after the second. `c` is the
/// state before the conditional began; `ca` the state the arm left.
pub open spec fn if_arm_done_view(c: CompilerV, ca: CompilerV, last: bool) -> CompilerV {
    let n = c.cfg.blocks.len();
    let cont = (n + 2) as usize;
    let next = if last {
        cont
    } else {
        (n + 1) as usize
    };
    let t = ca.cfg.current_block as int;
    CompilerV {
        cfg: CfgV {
            blocks: ca.cfg.blocks.update(
                t,
                BlockV { instr: ca.cfg.blocks[t].instr, jump: Some(Jump::Jmp(cont)) },
            ),
            return_block_id: ca.cfg.return_block_id,
            current_block: next,
        },
        current_block: next,
        ..ca
    }
}

/// Lowering one statement only ever rewrites the block under the
/// cursor and appends: every older block stands, and the cursor ends
/// on its old block or on a new one.
pub proof fn lemma_stmt_evolves(c: CompilerV, prev: ValueV, s: StmtV)
    requires
        wf_compiler(c),
    ensures
        compile_stmt_view(c, prev, s) matches Ok((c2, v)) ==> cfg_evolves(c.cfg, c2.cfg)
            && wf_compiler(c2),
    decreases s, 0int,
{
    match s {
        StmtV::Compound(stmts) => lemma_all_evolves(c, prev, stmts),
        StmtV::Decl(decls) => lemma_declare_evolves(c, decls),
        StmtV::Expr(_) => {},
        StmtV::Return(_) => {},
        StmtV::If(cond, body, otherwise) => {
            match compile_expr_view(c, cond) {
                Err(_) => {},
                Ok(cv) => {
                    if c.cfg.blocks.len() + 3 <= usize::MAX {
                        let start = if_setup_view(c, cv);
                        assert(wf_compiler(start));
                        lemma_stmt_evolves(start, prev, *body);
                        match compile_stmt_view(start, prev, *body) {
                            Err(_) => {},
                            Ok((c2, _)) => {
                                let joined = if_arm_done_view(c, c2, false);
                                assert(joined.cfg.blocks[joined.cfg.current_block as int]
                                    == (BlockV { instr: None, jump: None }));
                                assert(wf_compiler(joined));
                                let alt = match otherwise {
                                    Some(o) => {
                                        lemma_stmt_evolves(joined, prev, *o);
                                        compile_stmt_view(joined, prev, *o)
                                    },
                                    None => Ok((joined, prev)),
                                };
                                match alt {
                                    Err(_) => {},
                                    Ok((c4, _)) => {
                                        let fin = if_arm_done_view(c, c4, true);
                                        assert(fin.cfg.blocks[fin.cfg.current_block as int]
                                            == (BlockV { instr: None, jump: None }));
                                        assert(wf_compiler(fin));
                                        assert forall|j: int|
                                            0 <= j < c.cfg.blocks.len() && j
                                                != c.cfg.current_block implies fin.cfg.blocks[j]
                                            == c.cfg.blocks[j] by {
                                            assert(start.cfg.blocks[j] == c.cfg.blocks[j]);
                                            assert(c2.cfg.blocks[j] == start.cfg.blocks[j]);
                                            assert(joined.cfg.blocks[j] == c2.cfg.blocks[j]);
                                            assert(c4.cfg.blocks[j] == joined.cfg.blocks[j]);
                                            assert(fin.cfg.blocks[j] == c4.cfg.blocks[j]);
                                        }
                                        assert(cfg_evolves(c.cfg, fin.cfg));
                                    },
                                }
                            },
                        }
                    }
                },
            }
        },
    }
}

/// Statement sequences evolve the graph the same way.
pub proof fn lemma_all_evolves(c: CompilerV, prev: ValueV, stmts: Seq<StmtV>)
    requires
        wf_compiler(c),
    ensures
        compile_all_view(c, prev, stmts) matches Ok((c2, v)) ==> cfg_evolves(c.cfg, c2.cfg)
            && wf_compiler(c2),
    decreases stmts, 1int,
{
    if stmts.len() > 0 {
        lemma_stmt_evolves(c, prev, stmts[0]);
        match compile_stmt_view(c, prev, stmts[0]) {
            Err(_) => {},
            Ok((c1, v1)) => {
                lemma_all_evolves(c1, v1, stmts.drop_first());
                match compile_all_view(c1, v1, stmts.drop_first()) {
                    Err(_) => {},
                    Ok((c2, _)) => lemma_cfg_evolves_trans(c.cfg, c1.cfg, c2.cfg),
                }
            },
        }
    }
}

/// Declarations never touch the graph.
pub proof fn lemma_declare_evolves(c: CompilerV, decls: Seq<DeclV>)
    ensures
        declare_all_view(c, decls) matches Ok(c2) ==> c2.cfg == c.cfg && c2.current_block
            == c.current_block && c2.return_block == c.return_block,
    decreases decls.len(),
{
    if decls.len() > 0 && c.next_stack_slot < usize::MAX {
        let c2 = CompilerV {
            stack_positions: c.stack_positions.push((decls[0].name, c.next_stack_slot)),
            next_stack_slot: (c.next_stack_slot + 1) as usize,
            ..c
        };
        lemma_declare_evolves(c2, decls.drop_first());
    }
}

/// Lower a statement sequence, threading the session and value through.
pub open spec fn compile_all_view(c: CompilerV, prev: ValueV, stmts: Seq<StmtV>) -> Result<
    (CompilerV, ValueV),
    CompileErrorV,
>
    decreases stmts,
{
    if stmts.len() == 0 {
        Ok((c, prev))
    } else {
        match compile_stmt_view(c, prev, stmts[0]) {
            Err(e) => Err(e),
            Ok((c2, v)) => compile_all_view(c2, v, stmts.drop_first()),
        }
    }
}

/// The views of a statement vector's elements, element by element.
proof fn lemma_stmts_view_index(s: Seq<Stmt>)
    ensures
        stmts_view(s).len() == s.len(),
        forall|i: int| 0 <= i < s.len() ==> stmts_view(s)[i] == crate::hir::stmt_view(#[trigger] s[i]),
    decreases s,
{
    if s.len() > 0 {
        lemma_stmts_view_index(s.drop_last());
        assert forall|i: int| 0 <= i < s.len() implies stmts_view(s)[i] == crate::hir::stmt_view(
            s[i],
        ) by {
            if i < s.len() - 1 {
                assert(s.drop_last()[i] == s[i]);
                assert(stmts_view(s.drop_last())[i] == crate::hir::stmt_view(s.drop_last()[i]));
            } else {
                assert(stmts_view(s)[i] == crate::hir::stmt_view(s.last()));
            }
        }
    }
}

impl Compiler {
    /// Lower a statement sequence in order.
    pub fn compile_all(&mut self, prev: Value, stmts: Vec<Stmt>) -> (r: Result<
        Value,
        CompileError,
    >)
        requires
            wf_compiler(old(self)@),
        ensures
            wf_compiler(final(self)@),
            match r {
                Ok(v) => compile_all_view(old(self)@, prev@, stmts_view(stmts@)) == Ok::<
                    (CompilerV, ValueV),
                    CompileErrorV,
                >((final(self)@, v@)),
                Err(e) => compile_all_view(old(self)@, prev@, stmts_view(stmts@)) == Err::<
                    (CompilerV, ValueV),
                    CompileErrorV,
                >(e@),
            },
    {
        proof {
            assert(stmts_view(stmts@).skip(0) =~= stmts_view(stmts@));
        }
        self.compile_all_from(prev, &stmts, 0)
    }

    /// Lower the statements from position `from` on.
    fn compile_all_from(&mut self, prev: Value, stmts: &Vec<Stmt>, from: usize) -> (r: Result<
        Value,
        CompileError,
    >)
        requires
            wf_compiler(old(self)@),
            from <= stmts@.len(),
        ensures
            wf_compiler(final(self)@),
            match r {
                Ok(v) => compile_all_view(
                    old(self)@,
                    prev@,
                    stmts_view(stmts@).skip(from as int),
                ) == Ok::<(CompilerV, ValueV), CompileErrorV>((final(self)@, v@)),
                Err(e) => compile_all_view(
                    old(self)@,
                    prev@,
                    stmts_view(stmts@).skip(from as int),
                ) == Err::<(CompilerV, ValueV), CompileErrorV>(e@),
            },
        decreases stmts, stmts@.len() - from,
    {
        proof {
            lemma_stmts_view_index(stmts@);
        }
        if from >= stmts.len() {
            proof {
                assert(stmts_view(stmts@).skip(from as int).len() == 0);
            }
            return Ok(prev);
        }
        proof {
            assert(stmts_view(stmts@).skip(from as int)[0] == crate::hir::stmt_view(
                stmts@[from as int],
            ));
            assert(stmts_view(stmts@).skip(from as int).drop_first() =~= stmts_view(
                stmts@,
            ).skip(from as int + 1));
        }
        let v = match self.compile_stmt_at(prev, &stmts[from]) {
            Ok(v) => v,
            Err(e) => {
                return Err(e);
            },
        };
        self.compile_all_from(v, stmts, from + 1)
    }

    /// Lower one statement.
    pub fn compile_stmt(&mut self, prev: Value, stmt: Stmt) -> (r: Result<Value, CompileError>)
        requires
            wf_compiler(old(self)@),
        ensures
            wf_compiler(final(self)@),
            match r {
                Ok(v) => compile_stmt_view(old(self)@, prev@, stmt@) == Ok::<
                    (CompilerV, ValueV),
                    CompileErrorV,
                >((final(self)@, v@)),
                Err(e) => compile_stmt_view(old(self)@, prev@, stmt@) == Err::<
                    (CompilerV, ValueV),
                    CompileErrorV,
                >(e@),
            },
    {
        self.compile_stmt_at(prev, &stmt)
    }

    fn compile_stmt_at(&mut self, prev: Value, stmt: &Stmt) -> (r: Result<Value, CompileError>)
        requires
            wf_compiler(old(self)@),
        ensures
            wf_compiler(final(self)@),
            match r {
                Ok(v) => compile_stmt_view(old(self)@, prev@, (*stmt)@) == Ok::<
                    (CompilerV, ValueV),
                    CompileErrorV,
                >((final(self)@, v@)),
                Err(e) => compile_stmt_view(old(self)@, prev@, (*stmt)@) == Err::<
                    (CompilerV, ValueV),
                    CompileErrorV,
                >(e@),
            },
        decreases *stmt, 0int,
    {
        match stmt {
            Stmt::Compound(stmts) => {
                proof {
                    assert(stmts_view(stmts@).skip(0) =~= stmts_view(stmts@));
                }
                self.compile_all_from(prev, stmts, 0)
            },
            Stmt::Decl(decls) => {
                proof {
                    assert(decls@.map_values(|d: Declaration| d@).skip(0) =~= decls@.map_values(
                        |d: Declaration| d@,
                    ));
                }
                match self.declare_all_from(decls, 0) {
                    Ok(()) => Ok(prev),
                    Err(e) => Err(e),
                }
            },
            Stmt::Expr(expr) => self.compile_expr(expr.clone()),
            Stmt::Return(expr) => {
                let retval = match expr {
                    Some(e) => match self.compile_expr(e.clone()) {
                        Ok(v) => v.val,
                        Err(err) => {
                            return Err(err);
                        },
                    },
                    None => MirExpr::literal(MirLiteral::Null),
                };
                let ghost c0 = self@;
                let ghost rv = retval@;
                if self.cfg.num_blocks() == usize::MAX {
                    return Err(CompileError::TooManyBlocks);
                }
                self.cfg.add_instr(create_res_lambda(retval));
                self.cfg.set_jump(Jump::Jmp(self.return_block));
                let nb = self.cfg.add_block();
                self.cfg.switch_to_block(nb);
                self.current_block = nb;
                proof {
                    assert(self@.cfg.blocks =~= c0.cfg.blocks.update(
                        c0.cfg.current_block as int,
                        BlockV {
                            instr: Some(("_res"@, rv)),
                            jump: Some(Jump::Jmp(c0.return_block)),
                        },
                    ).push(BlockV { instr: None, jump: None }));
                    assert(self@ == (CompilerV {
                        cfg: CfgV {
                            blocks: c0.cfg.blocks.update(
                                c0.cfg.current_block as int,
                                BlockV {
                                    instr: Some(("_res"@, rv)),
                                    jump: Some(Jump::Jmp(c0.return_block)),
                                },
                            ).push(BlockV { instr: None, jump: None }),
                            return_block_id: c0.cfg.return_block_id,
                            current_block: nb,
                        },
                        current_block: nb,
                        ..c0
                    }));
                }
                Ok(prev)
            },
            Stmt::If(condition, body, otherwise) => {
                let ghost c0 = self@;
                let cv = match self.compile_expr(condition.clone()) {
                    Ok(v) => v,
                    Err(e) => {
                        return Err(e);
                    },
                };
                if self.cfg.num_blocks() > usize::MAX - 3 {
                    return Err(CompileError::TooManyBlocks);
                }
                let ghost cvv = cv@;
                self.cfg.add_instr(create_res_lambda(cv.val));
                let then_b = self.cfg.add_block();
                let else_b = self.cfg.add_block();
                let cont_b = self.cfg.add_block();
                self.cfg.set_jump(Jump::Br(then_b, else_b));
                self.cfg.switch_to_block(then_b);
                self.current_block = then_b;
                proof {
                    assert(self@.cfg.blocks =~= if_setup_view(c0, cvv).cfg.blocks);
                    assert(self@ == if_setup_view(c0, cvv));
                    assert(wf_compiler(self@));
                }
                let ghost c1 = self@;
                match self.compile_stmt_at(prev.clone(), body) {
                    Ok(_) => {},
                    Err(e) => {
                        return Err(e);
                    },
                }
                let ghost c2 = self@;
                proof {
                    lemma_stmt_evolves(c1, prev@, (*body)@);
                }
                self.cfg.set_jump(Jump::Jmp(cont_b));
                self.cfg.switch_to_block(else_b);
                self.current_block = else_b;
                proof {
                    assert(self@ == if_arm_done_view(c0, c2, false));
                    assert(self@.cfg.blocks[else_b as int] == (BlockV { instr: None, jump: None }));
                    assert(wf_compiler(self@));
                }
                let ghost c3 = self@;
                match otherwise {
                    Some(o) => {
                        match self.compile_stmt_at(prev.clone(), o) {
                            Ok(_) => {},
                            Err(e) => {
                                return Err(e);
                            },
                        }
                        proof {
                            lemma_stmt_evolves(c3, prev@, (**o)@);
                        }
                    },
                    None => {},
                }
                let ghost c4 = self@;
                self.cfg.set_jump(Jump::Jmp(cont_b));
                self.cfg.switch_to_block(cont_b);
                self.current_block = cont_b;
                proof {
                    assert(self@ == if_arm_done_view(c0, c4, true));
                    assert(self@.cfg.blocks[cont_b as int] == (BlockV { instr: None, jump: None }));
                    assert(wf_compiler(self@));
                }
                Ok(prev)
            },
        }
    }

    /// Bind the declarations from position `from` on.
    fn declare_all_from(&mut self, decls: &Vec<Declaration>, from: usize) -> (r: Result<
        (),
        CompileError,
    >)
        requires
            wf_compiler(old(self)@),
            from <= decls@.len(),
        ensures
            wf_compiler(final(self)@),
            match r {
                Ok(()) => declare_all_view(
                    old(self)@,
                    decls@.map_values(|d: Declaration| d@).skip(from as int),
                ) == Ok::<CompilerV, CompileErrorV>(final(self)@),
                Err(e) => declare_all_view(
                    old(self)@,
                    decls@.map_values(|d: Declaration| d@).skip(from as int),
                ) == Err::<CompilerV, CompileErrorV>(e@),
            },
        decreases decls@.len() - from,
    {
        let ghost dv = decls@.map_values(|d: Declaration| d@);
        if from >= decls.len() {
            proof {
                assert(dv.skip(from as int).len() == 0);
            }
            return Ok(());
        }
        proof {
            assert(dv.skip(from as int)[0] == decls@[from as int]@);
            assert(dv.skip(from as int).drop_first() =~= dv.skip(from as int + 1));
        }
        if self.next_stack_slot_at_max() {
            return Err(CompileError::TooManyLocals);
        }
        self.declare_stack(decls[from].clone());
        self.declare_all_from(decls, from + 1)
    }

    /// Give each declared name a fresh stack slot; nothing is emitted.
    pub fn declare_stack(&mut self, decl: Declaration)
        requires
            wf_compiler(old(self)@),
            old(self)@.next_stack_slot < usize::MAX,
        ensures
            wf_compiler(final(self)@),
            final(self)@ == (CompilerV {
                stack_positions: old(self)@.stack_positions.push(
                    (decl.name@, old(self)@.next_stack_slot),
                ),
                next_stack_slot: (old(self)@.next_stack_slot + 1) as usize,
                ..old(self)@
            }),
    {
        self.declare_stack_slot(decl.name);
    }

    /// Whether the slot counter is exhausted.
    fn next_stack_slot_at_max(&self) -> (r: bool)
        ensures
            r == (self@.next_stack_slot == usize::MAX),
    {
        self.next_stack_slot == usize::MAX
    }

    /// Start one function's lowering session: a fresh graph whose entry
    /// is block zero and whose designated return block is block one,
    /// then the body statements, seeded with a pure null value.
    pub fn compile_func(&mut self, stmts: Vec<Stmt>) -> (r: Result<(), CompileError>)
        ensures
            match r {
                Ok(()) => compile_func_view(old(self)@, stmts_view(stmts@)) == Ok::<
                    CompilerV,
                    CompileErrorV,
                >(final(self)@) && wf_compiler(final(self)@),
                Err(e) => compile_func_view(old(self)@, stmts_view(stmts@)) == Err::<
                    CompilerV,
                    CompileErrorV,
                >(e@),
            },
    {
        self.compile_func_at(&stmts)
    }

    pub(crate) fn compile_func_at(&mut self, stmts: &Vec<Stmt>) -> (r: Result<(), CompileError>)
        ensures
            match r {
                Ok(()) => compile_func_view(old(self)@, stmts_view(stmts@)) == Ok::<
                    CompilerV,
                    CompileErrorV,
                >(final(self)@) && wf_compiler(final(self)@),
                Err(e) => compile_func_view(old(self)@, stmts_view(stmts@)) == Err::<
                    CompilerV,
                    CompileErrorV,
                >(e@),
            },
    {
        self.cfg = Cfg::default();
        let rb = self.cfg.add_block();
        self.return_block = rb;
        self.cfg.set_return_block(rb);
        self.cfg.switch_to_block(0);
        self.current_block = 0;
        proof {
            assert(self@.cfg.blocks =~= seq![
                BlockV { instr: None, jump: None },
                BlockV { instr: None, jump: None },
            ]);
        }
        let v0 = Value {
            val: MirExpr::literal(MirLiteral::Null),
            ctype: Type::Int,
            pure: true,
        };
        proof {
            assert(stmts_view(stmts@).skip(0) =~= stmts_view(stmts@));
        }
        match self.compile_all_from(v0, stmts, 0) {
            Ok(_) => Ok(()),
            Err(e) => Err(e),
        }
    }
}

/// What starting a session does to the state, before the body lowers.
pub open spec fn compile_func_view(c: CompilerV, stmts: Seq<StmtV>) -> Result<
    CompilerV,
    CompileErrorV,
> {
    let c1 = CompilerV {
        cfg: CfgV {
            blocks: seq![
                BlockV { instr: None, jump: None },
                BlockV { instr: None, jump: None },
            ],
            return_block_id: Some(1),
            current_block: 0,
        },
        current_block: 0,
        return_block: 1,
        ..c
    };
    let seed = ValueV {
        val: MirExprV::Literal(MirLiteral::Null),
        ctype: Type::Int,
        pure: true,
    };
    match compile_all_view(c1, seed, stmts) {
        Err(e) => Err(e),
        Ok((c2, _)) => Ok(c2),
    }
}

/// The views of a definition vector's elements.
pub open spec fn funcs_view(s: Seq<FuncDef>) -> Seq<FuncDefV>
    decreases s,
{
    if s.len() == 0 {
        Seq::empty()
    } else {
        funcs_view(s.drop_last()).push(s.last()@)
    }
}

pub proof fn lemma_funcs_view_index(s: Seq<FuncDef>)
    ensures
        funcs_view(s).len() == s.len(),
        forall|i: int| 0 <= i < s.len() ==> funcs_view(s)[i] == #[trigger] s[i]@,
    decreases s,
{
    if s.len() > 0 {
        lemma_funcs_view_index(s.drop_last());
        assert forall|i: int| 0 <= i < s.len() implies funcs_view(s)[i] == s[i]@ by {
            if i < s.len() - 1 {
                assert(s.drop_last()[i] == s[i]);
                assert(funcs_view(s.drop_last())[i] == s.drop_last()[i]@);
            } else {
                assert(funcs_view(s)[i] == s.last()@);
            }
        }
    }
}

/// What compiling a program yields: each function lowered in turn on
/// one session, and the lowered graph of the one named `main` — the
/// last such, where names repeat — handed back.
pub open spec fn compile_view(c: CompilerV, funcs: Seq<FuncDefV>, acc: Option<MirExprV>) -> Result<
    MirExprV,
    CompileErrorV,
>
    decreases funcs.len(),
{
    if funcs.len() == 0 {
        match acc {
            Some(e) => Ok(e),
            None => Err(CompileErrorV::NoMain),
        }
    } else {
        match compile_func_view(c, funcs[0].stmts) {
            Err(e) => Err(e),
            Ok(c2) => match cfg_to_mir_view(c2.cfg) {
                None => Err(CompileErrorV::OpenControlFlow),
                Some(e) => compile_view(
                    c2,
                    funcs.drop_first(),
                    if funcs[0].name == "main"@ {
                        Some(e)
                    } else {
                        acc
                    },
                ),
            },
        }
    }
}

} // verus!
