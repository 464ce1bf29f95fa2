//! A small control-flow-graph intermediate representation and its
//! builder.
//!
//! A function is an ordered sequence of basic blocks; a block is an
//! ordered sequence of instructions and at most one terminator. Values
//! are constants or numbered registers; a variable's storage handle is
//! the register of the `Alloc` instruction that created it. The builder
//! keeps a current block; an instruction or terminator handed to a block
//! that is already terminated is silently skipped, so translation after
//! an early `return` is deterministic and never fails.

use vstd::prelude::*;

use crate::operator::BinaryOperator;

verus! {

/// A type of the intermediate representation: 32-bit integer or 1-bit
/// boolean.
#[derive(Debug, Copy, Clone, PartialEq, Eq, Structural)]
pub enum IrType {
    I32,
    I1,
}

/// A value: an integer constant, a boolean constant, or the numbered
/// result of an instruction.
#[derive(Debug, Copy, Clone, PartialEq, Eq, Structural)]
pub enum IrValue {
    ConstI32(i32),
    ConstI1(bool),
    Reg(u64),
}

/// An instruction of a basic block. `Alloc` creates storage and names
/// its handle `dst`; `Load` and `Store` move values through storage;
/// `Bin` applies a binary or comparison operator.
#[derive(Debug, Copy, Clone, PartialEq, Eq, Structural)]
pub enum IrInst {
    Alloc { dst: u64, ty: IrType },
    Store { addr: IrValue, val: IrValue },
    Load { dst: u64, addr: IrValue },
    Bin { dst: u64, op: BinaryOperator, lhs: IrValue, rhs: IrValue },
}

/// The single terminator of a basic block: an unconditional branch, a
/// conditional branch, or a return.
#[derive(Debug, Copy, Clone, PartialEq, Eq, Structural)]
pub enum IrTerm {
    Br { target: usize },
    CondBr { cond: IrValue, then_blk: usize, else_blk: usize },
    Ret { value: Option<IrValue> },
}

/// A basic block: instructions in order, then at most one terminator.
#[derive(Debug, PartialEq)]
pub struct IrBlock {
    pub insts: Vec<IrInst>,
    pub term: Option<IrTerm>,
}

/// Mathematical model of a basic block.
pub struct BlockS {
    pub insts: Seq<IrInst>,
    pub term: Option<IrTerm>,
}

impl View for IrBlock {
    type V = BlockS;

    open spec fn view(&self) -> BlockS {
        BlockS { insts: self.insts@, term: self.term }
    }
}

/// A function under construction: its blocks, the index of the current
/// block, and the next free register number.
#[derive(Debug, PartialEq)]
pub struct IrFunction {
    pub name: String,
    pub ret_typ: IrType,
    pub blocks: Vec<IrBlock>,
    pub cur: usize,
    pub next_reg: u64,
}

/// Mathematical model of a function under construction.
pub struct FuncS {
    pub name: Seq<char>,
    pub ret_typ: IrType,
    pub blocks: Seq<BlockS>,
    pub cur: usize,
    pub next_reg: u64,
}

impl View for IrFunction {
    type V = FuncS;

    open spec fn view(&self) -> FuncS {
        FuncS {
            name: self.name@,
            ret_typ: self.ret_typ,
            blocks: self.blocks@.map_values(|b: IrBlock| b@),
            cur: self.cur,
            next_reg: self.next_reg,
        }
    }
}

/// A whole lowered module: its functions in order.
#[derive(Debug, PartialEq)]
pub struct IrModule {
    pub functions: Vec<IrFunction>,
}

impl View for IrModule {
    type V = Seq<FuncS>;

    open spec fn view(&self) -> Seq<FuncS> {
        self.functions@.map_values(|f: IrFunction| f@)
    }
}

/// An empty, unterminated block.
pub open spec fn empty_block() -> BlockS {
    BlockS { insts: Seq::empty(), term: None }
}

/// The state of a fresh function: one empty entry block, selected, and
/// no registers used.
pub open spec fn spec_new_function(name: Seq<char>, ret_typ: IrType) -> FuncS {
    FuncS { name, ret_typ, blocks: seq![empty_block()], cur: 0, next_reg: 0 }
}

/// Appending a new empty block; its index is the old block count.
pub open spec fn spec_new_block(f: FuncS) -> FuncS {
    FuncS {
        name: f.name,
        ret_typ: f.ret_typ,
        blocks: f.blocks.push(empty_block()),
        cur: f.cur,
        next_reg: f.next_reg,
    }
}

/// Selecting a block as the current one.
pub open spec fn spec_set_block(f: FuncS, b: usize) -> FuncS {
    FuncS { name: f.name, ret_typ: f.ret_typ, blocks: f.blocks, cur: b, next_reg: f.next_reg }
}

/// Whether the current block already has its terminator. A current
/// index outside the block list counts as terminated: nothing can be
/// appended there.
pub open spec fn spec_is_terminated(f: FuncS) -> bool {
    if (f.cur as int) < f.blocks.len() {
        f.blocks[f.cur as int].term is Some
    } else {
        true
    }
}

/// Appending an instruction to the current block; skipped silently if
/// that block is already terminated.
pub open spec fn spec_emit(f: FuncS, inst: IrInst) -> FuncS {
    if spec_is_terminated(f) {
        f
    } else {
        FuncS {
            name: f.name,
            ret_typ: f.ret_typ,
            blocks: f.blocks.update(
                f.cur as int,
                BlockS {
                    insts: f.blocks[f.cur as int].insts.push(inst),
                    term: f.blocks[f.cur as int].term,
                },
            ),
            cur: f.cur,
            next_reg: f.next_reg,
        }
    }
}

/// Setting the current block's terminator; skipped silently if it
/// already has one.
pub open spec fn spec_terminate(f: FuncS, t: IrTerm) -> FuncS {
    if spec_is_terminated(f) {
        f
    } else {
        FuncS {
            name: f.name,
            ret_typ: f.ret_typ,
            blocks: f.blocks.update(
                f.cur as int,
                BlockS { insts: f.blocks[f.cur as int].insts, term: Some(t) },
            ),
            cur: f.cur,
            next_reg: f.next_reg,
        }
    }
}

/// Drawing the next register number. Register numbers saturate at
/// `u64::MAX`, which no reachable translation exhausts.
pub open spec fn spec_fresh(f: FuncS) -> (FuncS, u64) {
    (
        FuncS {
            name: f.name,
            ret_typ: f.ret_typ,
            blocks: f.blocks,
            cur: f.cur,
            next_reg: if f.next_reg == u64::MAX {
                u64::MAX
            } else {
                (f.next_reg + 1) as u64
            },
        },
        f.next_reg,
    )
}

/// Allocating storage of the given type: a fresh register naming the
/// handle, and an `Alloc` instruction in the current block.
pub open spec fn spec_alloc(f: FuncS, ty: IrType) -> (FuncS, u64) {
    let (f1, r) = spec_fresh(f);
    (spec_emit(f1, IrInst::Alloc { dst: r, ty }), r)
}

/// A load from storage into a fresh register.
pub open spec fn spec_load(f: FuncS, addr: IrValue) -> (FuncS, IrValue) {
    let (f1, r) = spec_fresh(f);
    (spec_emit(f1, IrInst::Load { dst: r, addr }), IrValue::Reg(r))
}

/// A binary or comparison instruction into a fresh register.
pub open spec fn spec_bin(f: FuncS, op: BinaryOperator, lhs: IrValue, rhs: IrValue) -> (
    FuncS,
    IrValue,
) {
    let (f1, r) = spec_fresh(f);
    (spec_emit(f1, IrInst::Bin { dst: r, op, lhs, rhs }), IrValue::Reg(r))
}

impl IrFunction {
    /// A fresh function with one empty entry block selected.
    pub fn new(name: String, ret_typ: IrType) -> (r: IrFunction)
        ensures
            r@ == spec_new_function(name@, ret_typ),
    {
        let mut blocks: Vec<IrBlock> = Vec::new();
        blocks.push(IrBlock { insts: Vec::new(), term: None });
        let r = IrFunction { name, ret_typ, blocks, cur: 0, next_reg: 0 };
        proof {
            assert(r@.blocks =~= seq![empty_block()]);
        }
        r
    }

    /// Append a new empty block and return its index.
    pub fn new_block(&mut self) -> (b: usize)
        ensures
            (*final(self))@ == spec_new_block((*old(self))@),
            b == (*old(self))@.blocks.len(),
    {
        let b = self.blocks.len();
        self.blocks.push(IrBlock { insts: Vec::new(), term: None });
        proof {
            assert((*self)@.blocks =~= spec_new_block((*old(self))@).blocks);
        }
        b
    }

    /// Select the current block.
    pub fn set_block(&mut self, b: usize)
        ensures
            (*final(self))@ == spec_set_block((*old(self))@, b),
    {
        self.cur = b;
    }

    /// Whether the current block already has its terminator.
    pub fn is_terminated(&self) -> (r: bool)
        ensures
            r == spec_is_terminated((*self)@),
    {
        if self.cur < self.blocks.len() {
            self.blocks[self.cur].term.is_some()
        } else {
            true
        }
    }

    /// Append an instruction to the current block (skipped if that
    /// block is terminated).
    fn emit(&mut self, inst: IrInst) -> (nothing: ())
        ensures
            (*final(self))@ == spec_emit((*old(self))@, inst),
    {
        if self.cur < self.blocks.len() {
            let cur = self.cur;
            let terminated = self.blocks[cur].term.is_some();
            if !terminated {
                let mut blk = self.blocks.remove(cur);
                blk.insts.push(inst);
                self.blocks.insert(cur, blk);
                proof {
                    assert((*self)@.blocks =~= spec_emit((*old(self))@, inst).blocks);
                }
            }
        }
    }

    /// Set the current block's terminator (skipped if it has one).
    fn terminate(&mut self, t: IrTerm) -> (nothing: ())
        ensures
            (*final(self))@ == spec_terminate((*old(self))@, t),
    {
        if self.cur < self.blocks.len() {
            let cur = self.cur;
            let terminated = self.blocks[cur].term.is_some();
            if !terminated {
                let mut blk = self.blocks.remove(cur);
                blk.term = Some(t);
                self.blocks.insert(cur, blk);
                proof {
                    assert((*self)@.blocks =~= spec_terminate((*old(self))@, t).blocks);
                }
            }
        }
    }

    /// Draw the next register number.
    fn fresh(&mut self) -> (r: u64)
        ensures
            (*final(self))@ == spec_fresh((*old(self))@).0,
            r == spec_fresh((*old(self))@).1,
    {
        let r = self.next_reg;
        if self.next_reg < u64::MAX {
            self.next_reg = self.next_reg + 1;
        }
        r
    }

    /// Allocate storage of the given type; returns the handle register.
    pub fn alloc_storage(&mut self, ty: IrType) -> (r: u64)
        ensures
            (*final(self))@ == spec_alloc((*old(self))@, ty).0,
            r == spec_alloc((*old(self))@, ty).1,
    {
        let r = self.fresh();
        self.emit(IrInst::Alloc { dst: r, ty });
        r
    }

    /// Store a value into storage.
    pub fn store(&mut self, addr: IrValue, val: IrValue)
        ensures
            (*final(self))@ == spec_emit((*old(self))@, IrInst::Store { addr, val }),
    {
        self.emit(IrInst::Store { addr, val });
    }

    /// Load from storage into a fresh register.
    pub fn load(&mut self, addr: IrValue) -> (r: IrValue)
        ensures
            (*final(self))@ == spec_load((*old(self))@, addr).0,
            r == spec_load((*old(self))@, addr).1,
    {
        let r = self.fresh();
        self.emit(IrInst::Load { dst: r, addr });
        IrValue::Reg(r)
    }

    /// Apply a binary or comparison operator, into a fresh register.
    pub fn bin(&mut self, op: BinaryOperator, lhs: IrValue, rhs: IrValue) -> (r: IrValue)
        ensures
            (*final(self))@ == spec_bin((*old(self))@, op, lhs, rhs).0,
            r == spec_bin((*old(self))@, op, lhs, rhs).1,
    {
        let r = self.fresh();
        self.emit(IrInst::Bin { dst: r, op, lhs, rhs });
        IrValue::Reg(r)
    }

    /// Branch unconditionally to a block.
    pub fn br(&mut self, target: usize)
        ensures
            (*final(self))@ == spec_terminate((*old(self))@, IrTerm::Br { target }),
    {
        self.terminate(IrTerm::Br { target });
    }

    /// Branch on a condition.
    pub fn cond_br(&mut self, cond: IrValue, then_blk: usize, else_blk: usize)
        ensures
            (*final(self))@ == spec_terminate(
                (*old(self))@,
                IrTerm::CondBr { cond, then_blk, else_blk },
            ),
    {
        self.terminate(IrTerm::CondBr { cond, then_blk, else_blk });
    }

    /// Return a value.
    pub fn ret(&mut self, value: IrValue)
        ensures
            (*final(self))@ == spec_terminate((*old(self))@, IrTerm::Ret { value: Some(value) }),
    {
        self.terminate(IrTerm::Ret { value: Some(value) });
    }

    /// Return without a value.
    pub fn ret_void(&mut self)
        ensures
            (*final(self))@ == spec_terminate((*old(self))@, IrTerm::Ret { value: None }),
    {
        self.terminate(IrTerm::Ret { value: None });
    }
}

impl IrModule {
    /// An empty module.
    pub fn new() -> (r: IrModule)
        ensures
            r@ =~= Seq::<FuncS>::empty(),
    {
        let r = IrModule { functions: Vec::new() };
        proof {
            assert(r@ =~= Seq::<FuncS>::empty());
        }
        r
    }

    /// Append a finished function.
    pub fn add_function(&mut self, f: IrFunction)
        ensures
            (*final(self))@ =~= (*old(self))@.push(f@),
    {
        self.functions.push(f);
        proof {
            assert((*self)@ =~= (*old(self))@.push(f@));
        }
    }
}

} // verus!
