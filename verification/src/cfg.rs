//! The control-flow-graph builder: basic blocks, each holding at most
//! one pending instruction and at most one jump, lowered at the end into
//! a single MIR expression.
//!
//! Each basic block has exactly one implicit parameter, the previous
//! block's result, bound to the name `_res` in the lowered form.

use vstd::prelude::*;

use crate::mir::{Lambda, MirExpr, MirExprV, MirInternedStr, MirLiteral, Primitive};

verus! {

/// A basic block: zero-or-one pending instruction (a one-argument
/// function of the previous result) and zero-or-one jump.
#[derive(Debug)]
pub struct BasicBlock {
    instr: Option<Lambda>,
    jump: Option<Jump>,
}

pub type BlockId = usize;

/// A jump out of a basic block.
#[derive(Debug, Clone, Copy, PartialEq, Eq, Structural)]
pub enum Jump {
    /// Unconditionally continue at the pointed block.
    Jmp(BlockId),
    /// If the block's value is true, continue at the first block;
    /// otherwise at the second.
    Br(BlockId, BlockId),
}

/// A builder for one function's control-flow graph.
#[derive(Debug)]
pub struct Cfg {
    blocks: Vec<BasicBlock>,
    return_block_id: Option<BlockId>,
    current_block: BlockId,
}

/// The mathematical shape of a basic block: the instruction as a bound
/// name and body, and the jump.
pub struct BlockV {
    pub instr: Option<(Seq<char>, MirExprV)>,
    pub jump: Option<Jump>,
}

/// The mathematical shape of a builder.
pub struct CfgV {
    pub blocks: Seq<BlockV>,
    pub return_block_id: Option<BlockId>,
    pub current_block: BlockId,
}

pub closed spec fn block_view(b: BasicBlock) -> BlockV {
    BlockV {
        instr: match b.instr {
            None => None,
            Some(l) => Some((l.arg@, l.body@)),
        },
        jump: b.jump,
    }
}

pub closed spec fn blocks_view(v: Seq<BasicBlock>) -> Seq<BlockV> {
    v.map_values(|b: BasicBlock| block_view(b))
}

impl View for Cfg {
    type V = CfgV;

    closed spec fn view(&self) -> CfgV {
        CfgV {
            blocks: blocks_view(self.blocks@),
            return_block_id: self.return_block_id,
            current_block: self.current_block,
        }
    }
}

/// How one lowering step may reshape a graph: blocks are only
/// appended, the return designation stands, the cursor either stays or
/// moves into the new blocks, and no block but the one under the
/// cursor is rewritten.
pub open spec fn cfg_evolves(pre: CfgV, post: CfgV) -> bool {
    &&& post.blocks.len() >= pre.blocks.len()
    &&& post.return_block_id == pre.return_block_id
    &&& (post.current_block == pre.current_block || post.current_block >= pre.blocks.len())
    &&& forall|j: int|
        0 <= j < pre.blocks.len() && j != pre.current_block ==> post.blocks[j] == pre.blocks[j]
}

/// Graph evolution composes.
pub proof fn lemma_cfg_evolves_trans(a: CfgV, b: CfgV, c: CfgV)
    requires
        cfg_evolves(a, b),
        cfg_evolves(b, c),
    ensures
        cfg_evolves(a, c),
{
    assert forall|j: int|
        0 <= j < a.blocks.len() && j != a.current_block implies c.blocks[j] == a.blocks[j] by {
        assert(b.blocks[j] == a.blocks[j]);
    }
}

impl Cfg {
    /// The builder's cursor always rests on an existing block.
    pub open spec fn wf(&self) -> bool {
        self@.current_block < self@.blocks.len()
    }

    /// Allocate a new empty block and return its identifier.
    /// Identifiers are dense zero-based indices in allocation order.
    pub fn add_block(&mut self) -> (r: BlockId)
        requires
            old(self).wf(),
            old(self)@.blocks.len() < usize::MAX,
        ensures
            r == old(self)@.blocks.len(),
            final(self)@.blocks == old(self)@.blocks.push(BlockV { instr: None, jump: None }),
            final(self)@.return_block_id == old(self)@.return_block_id,
            final(self)@.current_block == old(self)@.current_block,
            final(self).wf(),
    {
        self.blocks.push(BasicBlock { instr: None, jump: None });
        proof {
            assert(blocks_view(self.blocks@) =~= blocks_view(old(self).blocks@).push(
                BlockV { instr: None, jump: None },
            ));
        }
        self.blocks.len() - 1
    }

    /// Attach the pending instruction to the current block. A block
    /// holds at most one: attaching to a block that already has one is
    /// builder misuse and is rejected.
    pub fn add_instr(&mut self, instr: Lambda)
        requires
            old(self).wf(),
            old(self)@.blocks[old(self)@.current_block as int].instr is None,
        ensures
            final(self)@.blocks == old(self)@.blocks.update(
                old(self)@.current_block as int,
                BlockV {
                    instr: Some((instr.arg@, instr.body@)),
                    jump: old(self)@.blocks[old(self)@.current_block as int].jump,
                },
            ),
            final(self)@.return_block_id == old(self)@.return_block_id,
            final(self)@.current_block == old(self)@.current_block,
            final(self).wf(),
    {
        let ghost pre = self.blocks@;
        let cur = self.current_block;
        let old_jump = self.blocks[cur].jump;
        self.blocks.set(cur, BasicBlock { instr: Some(instr), jump: old_jump });
        proof {
            assert(blocks_view(self.blocks@) =~= blocks_view(pre).update(
                self.current_block as int,
                block_view(self.blocks@[self.current_block as int]),
            ));
        }
    }

    /// Attach the jump to the current block. A jump, once set, is never
    /// overwritten: setting it twice is builder misuse and is rejected.
    pub fn set_jump(&mut self, jump: Jump)
        requires
            old(self).wf(),
            old(self)@.blocks[old(self)@.current_block as int].jump is None,
        ensures
            final(self)@.blocks == old(self)@.blocks.update(
                old(self)@.current_block as int,
                BlockV {
                    instr: old(self)@.blocks[old(self)@.current_block as int].instr,
                    jump: Some(jump),
                },
            ),
            final(self)@.return_block_id == old(self)@.return_block_id,
            final(self)@.current_block == old(self)@.current_block,
            final(self).wf(),
    {
        let ghost pre = self.blocks@;
        let cur = self.current_block;
        let old_block = self.blocks.remove(cur);
        self.blocks.insert(cur, BasicBlock { instr: old_block.instr, jump: Some(jump) });
        proof {
            assert(blocks_view(self.blocks@) =~= blocks_view(pre).update(
                self.current_block as int,
                block_view(self.blocks@[self.current_block as int]),
            ));
        }
    }

    /// Designate the function's unique exit block. It is designated at
    /// most once: a second call is builder misuse and is rejected.
    pub fn set_return_block(&mut self, id: BlockId)
        requires
            old(self)@.return_block_id is None,
        ensures
            final(self)@ == (CfgV { return_block_id: Some(id), ..old(self)@ }),
    {
        self.return_block_id = Some(id);
    }

    /// Move the cursor: later instruction and jump updates target this
    /// block.
    pub fn switch_to_block(&mut self, id: BlockId)
        requires
            id < old(self)@.blocks.len(),
        ensures
            final(self)@ == (CfgV { current_block: id, ..old(self)@ }),
            final(self).wf(),
    {
        self.current_block = id;
    }
}

impl Default for Cfg {
    /// A fresh builder: one empty block, the cursor on it, no return
    /// block designated.
    fn default() -> (r: Cfg)
        ensures
            r@.blocks == seq![BlockV { instr: None, jump: None }],
            r@.return_block_id is None,
            r@.current_block == 0,
            r.wf(),
    {
        let mut blocks: Vec<BasicBlock> = Vec::new();
        blocks.push(BasicBlock { instr: None, jump: None });
        let r = Cfg { blocks, return_block_id: None, current_block: 0 };
        proof {
            assert(blocks_view(r.blocks@) =~= seq![BlockV { instr: None, jump: None }]);
        }
        r
    }
}

/// The name that binds each block's implicit parameter, the previous
/// result.
pub fn res_name() -> (r: MirInternedStr)
    ensures
        r@ == "_res"@,
{
    MirInternedStr::get_or_intern("_res")
}

/// A block's computation as an expression of the incoming value `_res`:
/// the instruction applied to it, or the value itself when the block
/// holds no instruction.
pub open spec fn instr_chain_view(instr: Option<(Seq<char>, MirExprV)>) -> MirExprV {
    match instr {
        Some((arg, body)) => MirExprV::Apply {
            func: Box::new(MirExprV::Lambda { arg, body: Box::new(body) }),
            arg: Box::new(MirExprV::Ref("_res"@)),
        },
        None => MirExprV::Ref("_res"@),
    }
}

/// The one-argument function a block denotes, expanded through its
/// jumps: `None` when the expansion runs off the graph — a missing
/// jump, a target out of range, or a jump chain longer than the fuel
/// allows (a cycle).
pub open spec fn block_fun_view(blocks: Seq<BlockV>, ret: BlockId, i: int, fuel: nat) -> Option<
    MirExprV,
>
    decreases fuel,
{
    if fuel == 0 || i < 0 || i >= blocks.len() {
        None
    } else {
        let b = blocks[i];
        let inner = instr_chain_view(b.instr);
        if i == ret {
            Some(MirExprV::Lambda { arg: "_res"@, body: Box::new(inner) })
        } else {
            match b.jump {
                None => None,
                Some(Jump::Jmp(t)) => match block_fun_view(blocks, ret, t as int, (fuel - 1) as nat) {
                    None => None,
                    Some(f) => Some(MirExprV::Lambda {
                        arg: "_res"@,
                        body: Box::new(MirExprV::Apply { func: Box::new(f), arg: Box::new(inner) }),
                    }),
                },
                Some(Jump::Br(t1, t2)) => match (
                    block_fun_view(blocks, ret, t1 as int, (fuel - 1) as nat),
                    block_fun_view(blocks, ret, t2 as int, (fuel - 1) as nat),
                ) {
                    (Some(f1), Some(f2)) => Some(MirExprV::Lambda {
                        arg: "_res"@,
                        body: Box::new(MirExprV::Let {
                            ident: "_res"@,
                            value: Box::new(inner),
                            body: Box::new(MirExprV::If {
                                condition: Box::new(MirExprV::Ref("_res"@)),
                                consequent: Box::new(MirExprV::Apply {
                                    func: Box::new(f1),
                                    arg: Box::new(MirExprV::Ref("_res"@)),
                                }),
                                alternative: Box::new(MirExprV::Apply {
                                    func: Box::new(f2),
                                    arg: Box::new(MirExprV::Ref("_res"@)),
                                }),
                            }),
                        }),
                    }),
                    _ => None,
                },
            }
        }
    }
}

/// What lowering a whole graph yields: the entry block's function,
/// applied to the null literal that seeds the first block's implicit
/// parameter; `None` when no return block was designated or the
/// expansion runs off the graph.
pub open spec fn cfg_to_mir_view(c: CfgV) -> Option<MirExprV> {
    match c.return_block_id {
        None => None,
        Some(ret) => match block_fun_view(c.blocks, ret, 0, c.blocks.len()) {
            None => None,
            Some(f) => Some(MirExprV::Apply {
                func: Box::new(f),
                arg: Box::new(MirExprV::Literal(MirLiteral::Null)),
            }),
        },
    }
}

fn block_fun(blocks: &Vec<BasicBlock>, ret: BlockId, i: BlockId, fuel: usize) -> (r: Option<
    MirExpr,
>)
    ensures
        match r {
            Some(e) => block_fun_view(blocks_view(blocks@), ret, i as int, fuel as nat) == Some(
                e@,
            ),
            None => block_fun_view(blocks_view(blocks@), ret, i as int, fuel as nat) is None,
        },
    decreases fuel,
{
    if fuel == 0 {
        return None;
    }
    if i >= blocks.len() {
        return None;
    }
    let b = &blocks[i];
    let inner: MirExpr = match &b.instr {
        Some(lam) => MirExpr::apply(
            MirExpr::lambda(lam.arg.clone(), lam.body.clone()),
            MirExpr::Ref(res_name()),
        ),
        None => MirExpr::Ref(res_name()),
    };
    if i == ret {
        return Some(MirExpr::lambda(res_name(), inner));
    }
    match &b.jump {
        None => None,
        Some(Jump::Jmp(t)) => match block_fun(blocks, ret, *t, fuel - 1) {
            None => None,
            Some(f) => Some(MirExpr::lambda(res_name(), MirExpr::apply(f, inner))),
        },
        Some(Jump::Br(t1, t2)) => {
            let f1 = block_fun(blocks, ret, *t1, fuel - 1);
            let f2 = block_fun(blocks, ret, *t2, fuel - 1);
            match (f1, f2) {
                (Some(f1), Some(f2)) => Some(MirExpr::lambda(
                    res_name(),
                    MirExpr::let_(
                        res_name(),
                        inner,
                        MirExpr::if_(
                            MirExpr::Ref(res_name()),
                            MirExpr::apply(f1, MirExpr::Ref(res_name())),
                            MirExpr::apply(f2, MirExpr::Ref(res_name())),
                        ),
                    ),
                )),
                _ => None,
            }
        }
    }
}

impl Cfg {
    /// How many blocks have been allocated.
    pub fn num_blocks(&self) -> (r: usize)
        ensures
            r == self@.blocks.len(),
    {
        self.blocks.len()
    }

    /// Lower the whole graph into one MIR expression, starting at block
    /// zero. `None` when no return block was designated or a jump chain
    /// runs off the graph.
    pub fn to_mir(&self) -> (r: Option<MirExpr>)
        ensures
            match r {
                Some(e) => cfg_to_mir_view(self@) == Some(e@),
                None => cfg_to_mir_view(self@) is None,
            },
    {
        let ret = match self.return_block_id {
            None => {
                return None;
            },
            Some(id) => id,
        };
        match block_fun(&self.blocks, ret, 0, self.blocks.len()) {
            None => None,
            Some(f) => Some(MirExpr::apply(f, MirExpr::literal(MirLiteral::Null))),
        }
    }
}

/// The name a switch binds its discriminant to.
pub fn discriminant_name() -> (r: MirInternedStr)
    ensures
        r@ == "discriminant"@,
{
    MirInternedStr::get_or_intern("discriminant")
}

pub open spec fn eq_expr_view(n: i64, e: MirExprV) -> MirExprV {
    MirExprV::Apply {
        func: Box::new(MirExprV::Apply {
            func: Box::new(MirExprV::Primitive(Primitive::Eq)),
            arg: Box::new(MirExprV::Literal(MirLiteral::Int(n))),
        }),
        arg: Box::new(e),
    }
}

fn eq_expr(n: i64, e: MirExpr) -> (r: MirExpr)
    ensures
        r@ == eq_expr_view(n, e@),
{
    MirExpr::apply(
        MirExpr::apply(MirExpr::Primitive(Primitive::Eq), MirExpr::literal(MirLiteral::Int(n))),
        e,
    )
}

/// The selection ladder over candidates `exprs[i..]`: candidate `j` is
/// selected where the discriminant equals `current_pos + (j - i)`, and
/// the last candidate catches everything else.
pub open spec fn switch_helper_view(current_pos: i64, exprs: Seq<MirExprV>, i: int) -> MirExprV
    recommends
        0 <= i < exprs.len(),
    decreases exprs.len() - i,
{
    if i >= exprs.len() - 1 || i < 0 {
        exprs[i]
    } else {
        MirExprV::If {
            condition: Box::new(eq_expr_view(current_pos, MirExprV::Ref("discriminant"@))),
            consequent: Box::new(exprs[i]),
            alternative: Box::new(
                switch_helper_view((current_pos + 1) as i64, exprs, i + 1),
            ),
        }
    }
}

/// The whole switch: the discriminant bound to a fresh name, then the
/// selection ladder, so that discriminant `n` selects the `n`th
/// candidate and the last candidate catches everything else.
pub open spec fn switch_view(discriminant: MirExprV, exprs: Seq<MirExprV>) -> MirExprV {
    MirExprV::Let {
        ident: "discriminant"@,
        value: Box::new(discriminant),
        body: Box::new(switch_helper_view(0, exprs, 0)),
    }
}

fn switch_helper(current_pos: i64, exprs: Vec<MirExpr>, i: usize) -> (r: MirExpr)
    requires
        i < exprs.len(),
        current_pos + exprs.len() - i <= i64::MAX,
    ensures
        r@ == switch_helper_view(current_pos, exprs@.map_values(|e: MirExpr| e@), i as int),
    decreases exprs.len() - i,
{
    if i >= exprs.len() - 1 {
        exprs[i].clone()
    } else {
        MirExpr::if_(
            eq_expr(current_pos, MirExpr::Ref(discriminant_name())),
            exprs[i].clone(),
            switch_helper(current_pos + 1, exprs, i + 1),
        )
    }
}

/// Build a switch: when the discriminant is `n`, the `n`th candidate is
/// selected; a discriminant outside `0..exprs.len() - 1` falls through
/// to the last candidate.
pub fn switch(discriminant: MirExpr, exprs: Vec<MirExpr>) -> (r: MirExpr)
    requires
        exprs.len() >= 1,
        exprs.len() <= i64::MAX,
    ensures
        r@ == switch_view(discriminant@, exprs@.map_values(|e: MirExpr| e@)),
{
    let body = switch_helper(0, exprs, 0);
    MirExpr::let_(discriminant_name(), discriminant, body)
}

} // verus!
