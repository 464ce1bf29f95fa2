//! Lowering the validated AST to the control-flow-graph intermediate
//! representation: one function at a time, in a single depth-first pass
//! that keeps a stack of the scopes it is inside and fills the symbol
//! table with the storage handle of each declared variable.
//!
//! The spec functions (`spec_translate` and the functions it calls) are
//! the mathematical definition of the pass; every executable function is
//! proved to return exactly what its spec function says. Lowering is a
//! pure function of the module and the incoming symbol table, so two
//! runs on equal inputs give structurally identical results.
//!
//! Unary operators have no mapping in the instruction set here and are
//! an `UnimplementedFeature` error, as are assignment targets that are
//! not a plain identifier and declared types other than `Int` and
//! `Bool`.

use vstd::prelude::*;

use crate::ast::{
    lemma_view_functions, lemma_view_stmts, view_functions, view_stmts, ExprKindS, ExprS,
    Expression, ExpressionKind, Function, FunctionS, Module, ModuleS, Statement, StatementKind,
    StmtKindS, StmtS, Type,
};
use crate::error::CompileError;
use crate::ir::{
    spec_alloc, spec_bin, spec_emit, spec_load, spec_new_block, spec_new_function, spec_set_block,
    spec_terminate, FuncS, IrFunction, IrInst, IrModule, IrTerm, IrType, IrValue,
};
use crate::operator::BinaryOperator;
use crate::symtab::{spec_find_variable, spec_set_local, SymTabS, SymbolTable};

verus! {

/// The size of an expression tree, the measure that translation
/// recursion shrinks.
pub open spec fn size_expr(e: ExprS) -> nat
    decreases e,
{
    match e.kind {
        ExprKindS::Integer { .. } => 1,
        ExprKindS::Bool { .. } => 1,
        ExprKindS::Ident { .. } => 1,
        ExprKindS::UnaryOp { op, expr } => 1 + size_expr(*expr),
        ExprKindS::BinaryOp { op, lhs, rhs } => 1 + size_expr(*lhs) + size_expr(*rhs),
    }
}

/// The size of an optional expression.
pub open spec fn osize_expr(v: Option<ExprS>) -> nat {
    match v {
        Some(e) => 1 + size_expr(e),
        None => 0,
    }
}

/// The size of a statement tree.
pub open spec fn size_stmt(s: StmtS) -> nat
    decreases s,
{
    match s.kind {
        StmtKindS::Block { stmts } => 1 + size_stmts(stmts),
        StmtKindS::Var { name, typ, value } => 1 + osize_expr(value),
        StmtKindS::Val { name, typ, value } => 1 + osize_expr(value),
        StmtKindS::Assign { dst, value } => 1 + size_expr(dst) + size_expr(value),
        StmtKindS::Return { value } => 1 + osize_expr(value),
        StmtKindS::If { cond, then, els } => 1 + size_expr(cond) + size_stmt(*then) + osize_stmt(
            els,
        ),
        StmtKindS::While { cond, body } => 1 + size_expr(cond) + size_stmt(*body),
    }
}

/// The size of an optional boxed statement.
pub open spec fn osize_stmt(v: Option<Box<StmtS>>) -> nat
    decreases v,
{
    match v {
        Some(b) => 1 + size_stmt(*b),
        None => 0,
    }
}

/// The size of a statement sequence.
pub open spec fn size_stmts(ss: Seq<StmtS>) -> nat
    decreases ss,
{
    if ss.len() == 0 {
        0
    } else {
        1 + size_stmt(ss[0]) + size_stmts(ss.drop_first())
    }
}

/// The whole state lowering threads: the function under construction,
/// the symbol table, and the stack of entered scopes.
pub struct LowState {
    pub func: FuncS,
    pub symtab: SymTabS,
    pub scopes: Seq<u64>,
}

/// Bundling a state.
pub open spec fn st_of(func: FuncS, symtab: SymTabS, scopes: Seq<u64>) -> LowState {
    LowState { func, symtab, scopes }
}

/// The model of an optional expression reference.
pub open spec fn view_opt_expr_ref(v: Option<&Expression>) -> Option<ExprS> {
    match v {
        Some(e) => Some(e@),
        None => None,
    }
}

/// The model of an optional statement reference.
pub open spec fn view_opt_stmt_ref(v: Option<&Statement>) -> Option<Box<StmtS>> {
    match v {
        Some(s) => Some(Box::new(s@)),
        None => None,
    }
}

/// Translation of a declared type: `Int` is the 32-bit integer type,
/// `Bool` the 1-bit boolean type, and anything else is unimplemented.
pub open spec fn spec_trans_type(typ: Type) -> Result<IrType, CompileError> {
    match typ {
        Type::Int => Ok(IrType::I32),
        Type::Bool => Ok(IrType::I1),
        Type::Void => Err(CompileError::UnimplementedFeature),
    }
}

/// Translation of an identifier use: resolve it through the scope
/// chain and load from its storage; an unresolved name fails loudly.
pub open spec fn spec_trans_ident(name: Seq<char>, st: LowState) -> Result<
    (LowState, IrValue),
    CompileError,
> {
    match spec_find_variable(st.symtab, st.scopes.last(), name) {
        Some(slot) => {
            let (f1, v) = spec_load(st.func, IrValue::Reg(slot));
            Ok((st_of(f1, st.symtab, st.scopes), v))
        },
        None => Err(CompileError::UnresolvedIdentifier),
    }
}

/// Translation of an assignment target: only a resolvable identifier.
pub open spec fn spec_trans_lvalue(e: ExprS, symtab: SymTabS, scopes: Seq<u64>) -> Result<
    IrValue,
    CompileError,
> {
    match e.kind {
        ExprKindS::Ident { name } => match spec_find_variable(symtab, scopes.last(), name) {
            Some(slot) => Ok(IrValue::Reg(slot)),
            None => Err(CompileError::UnresolvedIdentifier),
        },
        _ => Err(CompileError::UnimplementedFeature),
    }
}

/// Translation of an expression: literals become constants, identifier
/// uses become loads, binary operators translate left to right; a
/// unary operator has no instruction mapping and is unimplemented.
pub open spec fn spec_trans_expr(e: ExprS, st: LowState) -> Result<
    (LowState, IrValue),
    CompileError,
>
    decreases size_expr(e), 0int,
{
    match e.kind {
        ExprKindS::Integer { value } => Ok((st, IrValue::ConstI32(value))),
        ExprKindS::Bool { value } => Ok((st, IrValue::ConstI1(value))),
        ExprKindS::Ident { name } => spec_trans_ident(name, st),
        ExprKindS::UnaryOp { .. } => Err(CompileError::UnimplementedFeature),
        ExprKindS::BinaryOp { op, lhs, rhs } => spec_trans_binop(op, *lhs, *rhs, st),
    }
}

/// Translation of a binary operator: left operand, then right operand,
/// then one instruction.
pub open spec fn spec_trans_binop(op: BinaryOperator, lhs: ExprS, rhs: ExprS, st: LowState) -> Result<
    (LowState, IrValue),
    CompileError,
>
    decreases size_expr(lhs) + size_expr(rhs), 1int,
{
    match spec_trans_expr(lhs, st) {
        Ok((st1, lv)) => match spec_trans_expr(rhs, st1) {
            Ok((st2, rv)) => {
                let (f3, v) = spec_bin(st2.func, op, lv, rv);
                Ok((st_of(f3, st2.symtab, st2.scopes), v))
            },
            Err(er) => Err(er),
        },
        Err(er) => Err(er),
    }
}

/// Translation of a declaration: translate the type, allocate storage,
/// store the translated initializer if there is one, and record the
/// handle under (current scope, name).
pub open spec fn spec_trans_var(
    name: Seq<char>,
    typ: Type,
    value: Option<ExprS>,
    st: LowState,
) -> Result<LowState, CompileError> {
    match spec_trans_type(typ) {
        Err(er) => Err(er),
        Ok(ty) => {
            let (f1, reg) = spec_alloc(st.func, ty);
            match value {
                None => Ok(
                    st_of(
                        f1,
                        spec_set_local(st.symtab, st.scopes.last(), name, reg),
                        st.scopes,
                    ),
                ),
                Some(e) => match spec_trans_expr(e, st_of(f1, st.symtab, st.scopes)) {
                    Ok((st2, src)) => Ok(
                        st_of(
                            spec_emit(st2.func, IrInst::Store { addr: IrValue::Reg(reg), val: src }),
                            spec_set_local(st2.symtab, st.scopes.last(), name, reg),
                            st2.scopes,
                        ),
                    ),
                    Err(er) => Err(er),
                },
            }
        },
    }
}

/// Translation of an assignment: resolve the target, translate the
/// value, store.
pub open spec fn spec_trans_assign(dst: ExprS, value: ExprS, st: LowState) -> Result<
    LowState,
    CompileError,
> {
    match spec_trans_lvalue(dst, st.symtab, st.scopes) {
        Err(er) => Err(er),
        Ok(addr) => match spec_trans_expr(value, st) {
            Ok((st1, src)) => Ok(
                st_of(
                    spec_emit(st1.func, IrInst::Store { addr, val: src }),
                    st1.symtab,
                    st1.scopes,
                ),
            ),
            Err(er) => Err(er),
        },
    }
}

/// Translation of a return: a value terminator or a void terminator.
pub open spec fn spec_trans_return(value: Option<ExprS>, st: LowState) -> Result<
    LowState,
    CompileError,
> {
    match value {
        None => Ok(
            st_of(
                spec_terminate(st.func, IrTerm::Ret { value: None }),
                st.symtab,
                st.scopes,
            ),
        ),
        Some(e) => match spec_trans_expr(e, st) {
            Ok((st1, v)) => Ok(
                st_of(
                    spec_terminate(st1.func, IrTerm::Ret { value: Some(v) }),
                    st1.symtab,
                    st1.scopes,
                ),
            ),
            Err(er) => Err(er),
        },
    }
}

/// Translation of an `if`: a then block, an else block, and a merge
/// block (the else block itself when there is no else branch); the
/// condition branches into them, each branch falls through to the
/// merge block unless it already terminated.
pub open spec fn spec_trans_if(
    cond: ExprS,
    then: StmtS,
    els: Option<Box<StmtS>>,
    st: LowState,
) -> Result<LowState, CompileError>
    decreases size_expr(cond) + size_stmt(then) + osize_stmt(els), 1int,
{
    let bt = st.func.blocks.len() as usize;
    let f1 = spec_new_block(st.func);
    let be = f1.blocks.len() as usize;
    let f2 = spec_new_block(f1);
    let bm = if els is Some {
        f2.blocks.len() as usize
    } else {
        be
    };
    let f3 = if els is Some {
        spec_new_block(f2)
    } else {
        f2
    };
    match spec_trans_expr(cond, st_of(f3, st.symtab, st.scopes)) {
        Err(er) => Err(er),
        Ok((st1, cv)) => {
            let f4 = spec_terminate(
                st1.func,
                IrTerm::CondBr { cond: cv, then_blk: bt, else_blk: be },
            );
            let f5 = spec_set_block(f4, bt);
            match spec_trans_stmt(then, st_of(f5, st1.symtab, st1.scopes)) {
                Err(er) => Err(er),
                Ok(st2) => {
                    let f6 = spec_terminate(st2.func, IrTerm::Br { target: bm });
                    let f7 = spec_set_block(f6, be);
                    match els {
                        None => Ok(
                            st_of(spec_set_block(f7, bm), st2.symtab, st2.scopes),
                        ),
                        Some(e) => match spec_trans_stmt(*e, st_of(f7, st2.symtab, st2.scopes)) {
                            Err(er) => Err(er),
                            Ok(st3) => {
                                let f8 = spec_terminate(st3.func, IrTerm::Br { target: bm });
                                Ok(st_of(spec_set_block(f8, bm), st3.symtab, st3.scopes))
                            },
                        },
                    }
                },
            }
        },
    }
}

/// Translation of a `while`: condition, body and exit blocks; the
/// condition is re-evaluated on every iteration, and the body branches
/// back to it.
pub open spec fn spec_trans_while(cond: ExprS, body: StmtS, st: LowState) -> Result<
    LowState,
    CompileError,
>
    decreases size_expr(cond) + size_stmt(body), 1int,
{
    let bc = st.func.blocks.len() as usize;
    let f1 = spec_new_block(st.func);
    let bb = f1.blocks.len() as usize;
    let f2 = spec_new_block(f1);
    let bx = f2.blocks.len() as usize;
    let f3 = spec_new_block(f2);
    let f4 = spec_terminate(f3, IrTerm::Br { target: bc });
    let f5 = spec_set_block(f4, bc);
    match spec_trans_expr(cond, st_of(f5, st.symtab, st.scopes)) {
        Err(er) => Err(er),
        Ok((st1, cv)) => {
            let f6 = spec_terminate(
                st1.func,
                IrTerm::CondBr { cond: cv, then_blk: bb, else_blk: bx },
            );
            let f7 = spec_set_block(f6, bb);
            match spec_trans_stmt(body, st_of(f7, st1.symtab, st1.scopes)) {
                Err(er) => Err(er),
                Ok(st2) => {
                    let f8 = spec_terminate(st2.func, IrTerm::Br { target: bc });
                    Ok(st_of(spec_set_block(f8, bx), st2.symtab, st2.scopes))
                },
            }
        },
    }
}

/// Translation of one statement. A block pushes its scope, translates
/// its children in order, and pops the scope again.
pub open spec fn spec_trans_stmt(s: StmtS, st: LowState) -> Result<LowState, CompileError>
    decreases size_stmt(s), 0int,
{
    match s.kind {
        StmtKindS::Block { stmts } => match spec_trans_stmts(
            stmts,
            st_of(st.func, st.symtab, st.scopes.push(s.id)),
        ) {
            Ok(st1) => Ok(st_of(st1.func, st1.symtab, st1.scopes.drop_last())),
            Err(er) => Err(er),
        },
        StmtKindS::Var { name, typ, value } => spec_trans_var(name, typ, value, st),
        StmtKindS::Val { name, typ, value } => spec_trans_var(name, typ, value, st),
        StmtKindS::Assign { dst, value } => spec_trans_assign(dst, value, st),
        StmtKindS::Return { value } => spec_trans_return(value, st),
        StmtKindS::If { cond, then, els } => spec_trans_if(cond, *then, els, st),
        StmtKindS::While { cond, body } => spec_trans_while(cond, *body, st),
    }
}

/// Translation of a statement sequence, in order; the first error
/// aborts.
pub open spec fn spec_trans_stmts(ss: Seq<StmtS>, st: LowState) -> Result<LowState, CompileError>
    decreases size_stmts(ss), 0int,
{
    if ss.len() == 0 {
        Ok(st)
    } else {
        match spec_trans_stmt(ss[0], st) {
            Ok(st1) => spec_trans_stmts(ss.drop_first(), st1),
            Err(er) => Err(er),
        }
    }
}

/// Translation of one function: a fresh single-block function, the
/// function's scope pushed around the body, popped on completion.
pub open spec fn spec_trans_function(f: FunctionS, symtab: SymTabS, scopes: Seq<u64>) -> Result<
    (FuncS, SymTabS, Seq<u64>),
    CompileError,
> {
    let f0 = spec_new_function(f.name, IrType::I32);
    let sc1 = scopes.push(f.id);
    match f.body {
        None => Ok((f0, symtab, sc1.drop_last())),
        Some(b) => match spec_trans_stmt(b, st_of(f0, symtab, sc1)) {
            Ok(st1) => Ok((st1.func, st1.symtab, st1.scopes.drop_last())),
            Err(er) => Err(er),
        },
    }
}

/// Translation of a function sequence, in order, threading the symbol
/// table through.
pub open spec fn spec_trans_functions(
    fs: Seq<FunctionS>,
    symtab: SymTabS,
    scopes: Seq<u64>,
) -> Result<(Seq<FuncS>, SymTabS, Seq<u64>), CompileError>
    decreases fs,
{
    if fs.len() == 0 {
        Ok((Seq::empty(), symtab, scopes))
    } else {
        match spec_trans_function(fs[0], symtab, scopes) {
            Ok((g, sy1, sc1)) => match spec_trans_functions(fs.drop_first(), sy1, sc1) {
                Ok((rest, sy2, sc2)) => Ok((seq![g] + rest, sy2, sc2)),
                Err(er) => Err(er),
            },
            Err(er) => Err(er),
        }
    }
}

/// Translation of a whole module: its scope at the bottom of the
/// stack, then each function in order.
pub open spec fn spec_translate(m: ModuleS, symtab: SymTabS) -> Result<
    (Seq<FuncS>, SymTabS),
    CompileError,
> {
    match spec_trans_functions(m.functions, symtab, seq![m.id]) {
        Ok((fs, sy, sc)) => Ok((fs, sy)),
        Err(er) => Err(er),
    }
}

/// The model of a lowered function list.
pub open spec fn view_ir_functions(v: Seq<IrFunction>) -> Seq<FuncS> {
    v.map_values(|f: IrFunction| f@)
}

/// The lowering pass over one module, mutating the symbol table in
/// place to record storage handles. Returns exactly what
/// `spec_translate` says of the inputs' models; the result is a pure
/// function of those models, so equal inputs give structurally
/// identical IR.
pub fn translate(module: &Module, symtab: &mut SymbolTable) -> (r: Result<IrModule, CompileError>)
    ensures
        match r {
            Ok(ir) => spec_translate(module@, (*old(symtab))@) == Ok::<_, CompileError>(
                (ir@, (*final(symtab))@),
            ),
            Err(er) => spec_translate(module@, (*old(symtab))@) == Err::<
                (Seq<FuncS>, SymTabS),
                _,
            >(er),
        },
{
    let mut gen = SsaGen::new();
    gen.translate(module, symtab)
}

/// The lowering pass's working state: the stack of scopes entered and
/// not yet left.
pub struct SsaGen {
    pub scopes: Vec<u64>,
}

impl SsaGen {
    /// A generator with an empty scope stack.
    pub fn new() -> (r: SsaGen)
        ensures
            r.scopes@ == Seq::<u64>::empty(),
    {
        let r = SsaGen { scopes: Vec::new() };
        proof {
            assert(r.scopes@ =~= Seq::<u64>::empty());
        }
        r
    }

    /// Enter the scope keyed by `node`.
    pub fn push(&mut self, node: u64)
        ensures
            final(self).scopes@ == old(self).scopes@.push(node),
    {
        self.scopes.push(node);
    }

    /// Leave the innermost scope (no effect on an empty stack).
    pub fn pop(&mut self)
        ensures
            old(self).scopes@.len() > 0 ==> final(self).scopes@ == old(self).scopes@.drop_last(),
            old(self).scopes@.len() == 0 ==> final(self).scopes@ == old(self).scopes@,
    {
        let _popped = self.scopes.pop();
    }

    /// The innermost scope.
    pub fn cur_scope(&self) -> (r: u64)
        requires
            self.scopes@.len() > 0,
        ensures
            r == self.scopes@.last(),
    {
        self.scopes[self.scopes.len() - 1]
    }

    /// Lower a whole module. The scope stack must be empty: the
    /// module's scope becomes its bottom entry and is popped again at
    /// the end.
    pub fn translate(&mut self, module: &Module, symtab: &mut SymbolTable) -> (r: Result<
        IrModule,
        CompileError,
    >)
        requires
            old(self).scopes@.len() == 0,
        ensures
            match r {
                Ok(ir) => spec_translate(module@, (*old(symtab))@) == Ok::<_, CompileError>(
                    (ir@, (*final(symtab))@),
                ),
                Err(er) => spec_translate(module@, (*old(symtab))@) == Err::<
                    (Seq<FuncS>, SymTabS),
                    _,
                >(er),
            },
    {
        self.push(module.id);
        proof {
            assert(self.scopes@ =~= seq![module.id]);
            assert(view_functions(module.functions@).skip(0) =~= view_functions(
                module.functions@,
            ));
        }
        match self.trans_functions_from(&module.functions, 0, symtab) {
            Ok(v) => {
                self.pop();
                let ir = IrModule { functions: v };
                Ok(ir)
            },
            Err(er) => Err(er),
        }
    }

    /// Lower the functions from position `i` on, in order.
    fn trans_functions_from(
        &mut self,
        functions: &Vec<Function>,
        i: usize,
        symtab: &mut SymbolTable,
    ) -> (r: Result<Vec<IrFunction>, CompileError>)
        requires
            i <= functions@.len(),
        ensures
            match r {
                Ok(v) => spec_trans_functions(
                    view_functions(functions@).skip(i as int),
                    (*old(symtab))@,
                    old(self).scopes@,
                ) == Ok::<_, CompileError>(
                    (view_ir_functions(v@), (*final(symtab))@, final(self).scopes@),
                ),
                Err(er) => spec_trans_functions(
                    view_functions(functions@).skip(i as int),
                    (*old(symtab))@,
                    old(self).scopes@,
                ) == Err::<(Seq<FuncS>, SymTabS, Seq<u64>), _>(er),
            },
        decreases functions@.len() - i,
    {
        proof {
            lemma_view_functions(functions@);
        }
        if i == functions.len() {
            proof {
                assert(view_functions(functions@).skip(i as int) =~= Seq::<FunctionS>::empty());
            }
            let v: Vec<IrFunction> = Vec::new();
            proof {
                assert(view_ir_functions(v@) =~= Seq::<FuncS>::empty());
            }
            Ok(v)
        } else {
            let ghost suffix = view_functions(functions@).skip(i as int);
            proof {
                assert(suffix[0] == view_functions(functions@)[i as int]);
                assert(suffix.drop_first() =~= view_functions(functions@).skip(i as int + 1));
            }
            match self.trans_function(&functions[i], symtab) {
                Err(er) => Err(er),
                Ok(g) => match self.trans_functions_from(functions, i + 1, symtab) {
                    Err(er) => Err(er),
                    Ok(mut rest) => {
                        let ghost g_s = g@;
                        let ghost old_rest = rest@;
                        rest.insert(0, g);
                        proof {
                            assert(rest@.drop_first() =~= old_rest);
                            assert(view_ir_functions(rest@) =~= seq![g_s] + view_ir_functions(
                                old_rest,
                            ));
                        }
                        Ok(rest)
                    },
                },
            }
        }
    }

    /// Lower one function: a fresh IR function whose entry block is
    /// selected, the function's scope pushed around its body.
    pub fn trans_function(&mut self, func: &Function, symtab: &mut SymbolTable) -> (r: Result<
        IrFunction,
        CompileError,
    >)
        ensures
            match r {
                Ok(g) => spec_trans_function(func@, (*old(symtab))@, old(self).scopes@)
                    == Ok::<_, CompileError>((g@, (*final(symtab))@, final(self).scopes@)),
                Err(er) => spec_trans_function(func@, (*old(symtab))@, old(self).scopes@) == Err::<
                    (FuncS, SymTabS, Seq<u64>),
                    _,
                >(er),
            },
    {
        let mut function = IrFunction::new(func.name.clone(), IrType::I32);
        self.push(func.id);
        match &func.body {
            None => {
                self.pop();
                Ok(function)
            },
            Some(b) => match self.trans_stmt(b, symtab, &mut function) {
                Ok(_unit) => {
                    self.pop();
                    Ok(function)
                },
                Err(er) => Err(er),
            },
        }
    }

    /// Lower one statement into the current block of `builder`.
    pub fn trans_stmt(
        &mut self,
        stmt: &Statement,
        symtab: &mut SymbolTable,
        builder: &mut IrFunction,
    ) -> (r: Result<(), CompileError>)
        requires
            old(self).scopes@.len() > 0,
        ensures
            match r {
                Ok(_) => spec_trans_stmt(
                    stmt@,
                    st_of((*old(builder))@, (*old(symtab))@, old(self).scopes@),
                ) == Ok::<_, CompileError>(
                    st_of((*final(builder))@, (*final(symtab))@, final(self).scopes@),
                ) && final(self).scopes@ == old(self).scopes@,
                Err(er) => spec_trans_stmt(
                    stmt@,
                    st_of((*old(builder))@, (*old(symtab))@, old(self).scopes@),
                ) == Err::<LowState, _>(er),
            },
        decreases size_stmt(stmt@), 0int,
    {
        match &stmt.kind {
            StatementKind::Block { stmts } => {
                self.push(stmt.id);
                proof {
                    assert(view_stmts(stmts@).skip(0) =~= view_stmts(stmts@));
                }
                match self.trans_stmts_from(stmts, 0, symtab, builder) {
                    Ok(_unit) => {
                        self.pop();
                        Ok(())
                    },
                    Err(er) => Err(er),
                }
            },
            StatementKind::Var { name, typ, value } => {
                let v = match value {
                    Some(b) => Some(&**b),
                    None => None,
                };
                self.trans_var(name, *typ, v, symtab, builder)
            },
            StatementKind::Val { name, typ, value } => {
                let v = match value {
                    Some(b) => Some(&**b),
                    None => None,
                };
                self.trans_var(name, *typ, v, symtab, builder)
            },
            StatementKind::Assign { dst, value } => self.trans_assign(dst, value, symtab, builder),
            StatementKind::Return { value } => {
                let v = match value {
                    Some(b) => Some(&**b),
                    None => None,
                };
                self.trans_return_stmt(v, symtab, builder)
            },
            StatementKind::If { cond, then, els } => {
                let e = match els {
                    Some(b) => Some(&**b),
                    None => None,
                };
                self.trans_if_stmt(cond, then, e, symtab, builder)
            },
            StatementKind::While { cond, body } => {
                self.trans_while_stmt(cond, body, symtab, builder)
            },
        }
    }

    /// Lower the statements of a block from position `i` on, in order.
    fn trans_stmts_from(
        &mut self,
        stmts: &Vec<Statement>,
        i: usize,
        symtab: &mut SymbolTable,
        builder: &mut IrFunction,
    ) -> (r: Result<(), CompileError>)
        requires
            i <= stmts@.len(),
            old(self).scopes@.len() > 0,
        ensures
            match r {
                Ok(_) => spec_trans_stmts(
                    view_stmts(stmts@).skip(i as int),
                    st_of((*old(builder))@, (*old(symtab))@, old(self).scopes@),
                ) == Ok::<_, CompileError>(
                    st_of((*final(builder))@, (*final(symtab))@, final(self).scopes@),
                ) && final(self).scopes@ == old(self).scopes@,
                Err(er) => spec_trans_stmts(
                    view_stmts(stmts@).skip(i as int),
                    st_of((*old(builder))@, (*old(symtab))@, old(self).scopes@),
                ) == Err::<LowState, _>(er),
            },
        decreases size_stmts(view_stmts(stmts@).skip(i as int)), 0int,
    {
        proof {
            lemma_view_stmts(stmts@);
        }
        if i == stmts.len() {
            proof {
                assert(view_stmts(stmts@).skip(i as int) =~= Seq::<StmtS>::empty());
            }
            Ok(())
        } else {
            let ghost suffix = view_stmts(stmts@).skip(i as int);
            proof {
                assert(suffix[0] == view_stmts(stmts@)[i as int]);
                assert(suffix.drop_first() =~= view_stmts(stmts@).skip(i as int + 1));
            }
            match self.trans_stmt(&stmts[i], symtab, builder) {
                Ok(_unit) => self.trans_stmts_from(stmts, i + 1, symtab, builder),
                Err(er) => Err(er),
            }
        }
    }

    /// Lower a declaration.
    fn trans_var(
        &self,
        name: &String,
        typ: Type,
        value: Option<&Expression>,
        symtab: &mut SymbolTable,
        builder: &mut IrFunction,
    ) -> (r: Result<(), CompileError>)
        requires
            self.scopes@.len() > 0,
        ensures
            match r {
                Ok(_) => spec_trans_var(
                    name@,
                    typ,
                    view_opt_expr_ref(value),
                    st_of((*old(builder))@, (*old(symtab))@, self.scopes@),
                ) == Ok::<_, CompileError>(
                    st_of((*final(builder))@, (*final(symtab))@, self.scopes@),
                ),
                Err(er) => spec_trans_var(
                    name@,
                    typ,
                    view_opt_expr_ref(value),
                    st_of((*old(builder))@, (*old(symtab))@, self.scopes@),
                ) == Err::<LowState, _>(er),
            },
        decreases osize_expr(view_opt_expr_ref(value)), 1int,
    {
        let ty = match trans_type(typ) {
            Ok(t) => t,
            Err(er) => {
                return Err(er);
            },
        };
        let reg = builder.alloc_storage(ty);
        match value {
            Some(e) => match self.trans_expr(e, symtab, builder) {
                Ok(src) => {
                    builder.store(IrValue::Reg(reg), src);
                },
                Err(er) => {
                    return Err(er);
                },
            },
            None => {},
        }
        symtab.set_local(self.cur_scope(), name, reg);
        Ok(())
    }

    /// Lower an assignment.
    fn trans_assign(
        &self,
        dst: &Expression,
        value: &Expression,
        symtab: &mut SymbolTable,
        builder: &mut IrFunction,
    ) -> (r: Result<(), CompileError>)
        requires
            self.scopes@.len() > 0,
        ensures
            match r {
                Ok(_) => spec_trans_assign(
                    dst@,
                    value@,
                    st_of((*old(builder))@, (*old(symtab))@, self.scopes@),
                ) == Ok::<_, CompileError>(
                    st_of((*final(builder))@, (*final(symtab))@, self.scopes@),
                ),
                Err(er) => spec_trans_assign(
                    dst@,
                    value@,
                    st_of((*old(builder))@, (*old(symtab))@, self.scopes@),
                ) == Err::<LowState, _>(er),
            },
    {
        let addr = match self.trans_lvalue(dst, symtab) {
            Ok(a) => a,
            Err(er) => {
                return Err(er);
            },
        };
        match self.trans_expr(value, symtab, builder) {
            Ok(src) => {
                builder.store(addr, src);
                Ok(())
            },
            Err(er) => Err(er),
        }
    }

    /// Lower a return statement.
    fn trans_return_stmt(
        &self,
        value: Option<&Expression>,
        symtab: &SymbolTable,
        builder: &mut IrFunction,
    ) -> (r: Result<(), CompileError>)
        requires
            self.scopes@.len() > 0,
        ensures
            match r {
                Ok(_) => spec_trans_return(
                    view_opt_expr_ref(value),
                    st_of((*old(builder))@, symtab@, self.scopes@),
                ) == Ok::<_, CompileError>(st_of((*final(builder))@, symtab@, self.scopes@)),
                Err(er) => spec_trans_return(
                    view_opt_expr_ref(value),
                    st_of((*old(builder))@, symtab@, self.scopes@),
                ) == Err::<LowState, _>(er),
            },
    {
        match value {
            None => {
                builder.ret_void();
                Ok(())
            },
            Some(e) => match self.trans_expr(e, symtab, builder) {
                Ok(v) => {
                    builder.ret(v);
                    Ok(())
                },
                Err(er) => Err(er),
            },
        }
    }

    /// Lower an `if` statement.
    fn trans_if_stmt(
        &mut self,
        cond: &Expression,
        then: &Statement,
        els: Option<&Statement>,
        symtab: &mut SymbolTable,
        builder: &mut IrFunction,
    ) -> (r: Result<(), CompileError>)
        requires
            old(self).scopes@.len() > 0,
        ensures
            match r {
                Ok(_) => spec_trans_if(
                    cond@,
                    then@,
                    view_opt_stmt_ref(els),
                    st_of((*old(builder))@, (*old(symtab))@, old(self).scopes@),
                ) == Ok::<_, CompileError>(
                    st_of((*final(builder))@, (*final(symtab))@, final(self).scopes@),
                ) && final(self).scopes@ == old(self).scopes@,
                Err(er) => spec_trans_if(
                    cond@,
                    then@,
                    view_opt_stmt_ref(els),
                    st_of((*old(builder))@, (*old(symtab))@, old(self).scopes@),
                ) == Err::<LowState, _>(er),
            },
        decreases size_expr(cond@) + size_stmt(then@) + osize_stmt(view_opt_stmt_ref(els)), 1int,
    {
        let block_then = builder.new_block();
        let block_els = builder.new_block();
        let block_merge = if els.is_some() {
            builder.new_block()
        } else {
            block_els
        };
        let cv = match self.trans_expr(cond, symtab, builder) {
            Ok(v) => v,
            Err(er) => {
                return Err(er);
            },
        };
        builder.cond_br(cv, block_then, block_els);
        builder.set_block(block_then);
        match self.trans_stmt(then, symtab, builder) {
            Ok(_unit) => {},
            Err(er) => {
                return Err(er);
            },
        }
        if !builder.is_terminated() {
            builder.br(block_merge);
        }
        builder.set_block(block_els);
        match els {
            Some(e) => {
                match self.trans_stmt(e, symtab, builder) {
                    Ok(_unit) => {},
                    Err(er) => {
                        return Err(er);
                    },
                }
                if !builder.is_terminated() {
                    builder.br(block_merge);
                }
            },
            None => {},
        }
        builder.set_block(block_merge);
        Ok(())
    }

    /// Lower a `while` statement.
    fn trans_while_stmt(
        &mut self,
        cond: &Expression,
        body: &Statement,
        symtab: &mut SymbolTable,
        builder: &mut IrFunction,
    ) -> (r: Result<(), CompileError>)
        requires
            old(self).scopes@.len() > 0,
        ensures
            match r {
                Ok(_) => spec_trans_while(
                    cond@,
                    body@,
                    st_of((*old(builder))@, (*old(symtab))@, old(self).scopes@),
                ) == Ok::<_, CompileError>(
                    st_of((*final(builder))@, (*final(symtab))@, final(self).scopes@),
                ) && final(self).scopes@ == old(self).scopes@,
                Err(er) => spec_trans_while(
                    cond@,
                    body@,
                    st_of((*old(builder))@, (*old(symtab))@, old(self).scopes@),
                ) == Err::<LowState, _>(er),
            },
        decreases size_expr(cond@) + size_stmt(body@), 1int,
    {
        let cond_block = builder.new_block();
        let body_block = builder.new_block();
        let exit_block = builder.new_block();
        builder.br(cond_block);
        builder.set_block(cond_block);
        let cv = match self.trans_expr(cond, symtab, builder) {
            Ok(v) => v,
            Err(er) => {
                return Err(er);
            },
        };
        builder.cond_br(cv, body_block, exit_block);
        builder.set_block(body_block);
        match self.trans_stmt(body, symtab, builder) {
            Ok(_unit) => {},
            Err(er) => {
                return Err(er);
            },
        }
        builder.br(cond_block);
        builder.set_block(exit_block);
        Ok(())
    }

    /// Lower an expression to a value in the current block.
    fn trans_expr(
        &self,
        expr: &Expression,
        symtab: &SymbolTable,
        builder: &mut IrFunction,
    ) -> (r: Result<IrValue, CompileError>)
        requires
            self.scopes@.len() > 0,
        ensures
            match r {
                Ok(v) => spec_trans_expr(expr@, st_of((*old(builder))@, symtab@, self.scopes@))
                    == Ok::<_, CompileError>(
                    (st_of((*final(builder))@, symtab@, self.scopes@), v),
                ),
                Err(er) => spec_trans_expr(expr@, st_of((*old(builder))@, symtab@, self.scopes@))
                    == Err::<(LowState, IrValue), _>(er),
            },
        decreases size_expr(expr@), 0int,
    {
        match &expr.kind {
            ExpressionKind::Integer { value } => Ok(IrValue::ConstI32(*value)),
            ExpressionKind::Bool { value } => Ok(IrValue::ConstI1(*value)),
            ExpressionKind::Ident { name } => self.trans_ident(name, symtab, builder),
            ExpressionKind::UnaryOp { .. } => Err(CompileError::UnimplementedFeature),
            ExpressionKind::BinaryOp { op, lhs, rhs } => {
                self.trans_binop(*op, lhs, rhs, symtab, builder)
            },
        }
    }

    /// Lower an identifier use: resolve and load.
    fn trans_ident(
        &self,
        name: &String,
        symtab: &SymbolTable,
        builder: &mut IrFunction,
    ) -> (r: Result<IrValue, CompileError>)
        requires
            self.scopes@.len() > 0,
        ensures
            match r {
                Ok(v) => spec_trans_ident(name@, st_of((*old(builder))@, symtab@, self.scopes@))
                    == Ok::<_, CompileError>(
                    (st_of((*final(builder))@, symtab@, self.scopes@), v),
                ),
                Err(er) => spec_trans_ident(name@, st_of((*old(builder))@, symtab@, self.scopes@))
                    == Err::<(LowState, IrValue), _>(er),
            },
    {
        let scope = self.cur_scope();
        match symtab.find_variable(scope, name) {
            Some(slot) => Ok(builder.load(IrValue::Reg(slot))),
            None => Err(CompileError::UnresolvedIdentifier),
        }
    }

    /// Lower a binary operation: left, right, then one instruction.
    fn trans_binop(
        &self,
        op: BinaryOperator,
        lhs: &Expression,
        rhs: &Expression,
        symtab: &SymbolTable,
        builder: &mut IrFunction,
    ) -> (r: Result<IrValue, CompileError>)
        requires
            self.scopes@.len() > 0,
        ensures
            match r {
                Ok(v) => spec_trans_binop(
                    op,
                    lhs@,
                    rhs@,
                    st_of((*old(builder))@, symtab@, self.scopes@),
                ) == Ok::<_, CompileError>(
                    (st_of((*final(builder))@, symtab@, self.scopes@), v),
                ),
                Err(er) => spec_trans_binop(
                    op,
                    lhs@,
                    rhs@,
                    st_of((*old(builder))@, symtab@, self.scopes@),
                ) == Err::<(LowState, IrValue), _>(er),
            },
        decreases size_expr(lhs@) + size_expr(rhs@), 1int,
    {
        let lv = match self.trans_expr(lhs, symtab, builder) {
            Ok(v) => v,
            Err(er) => {
                return Err(er);
            },
        };
        let rv = match self.trans_expr(rhs, symtab, builder) {
            Ok(v) => v,
            Err(er) => {
                return Err(er);
            },
        };
        Ok(builder.bin(op, lv, rv))
    }

    /// Lower an assignment target to its storage handle.
    fn trans_lvalue(&self, expr: &Expression, symtab: &SymbolTable) -> (r: Result<
        IrValue,
        CompileError,
    >)
        requires
            self.scopes@.len() > 0,
        ensures
            r == spec_trans_lvalue(expr@, symtab@, self.scopes@),
    {
        match &expr.kind {
            ExpressionKind::Ident { name } => {
                let scope = self.cur_scope();
                match symtab.find_variable(scope, name) {
                    Some(slot) => Ok(IrValue::Reg(slot)),
                    None => Err(CompileError::UnresolvedIdentifier),
                }
            },
            _ => Err(CompileError::UnimplementedFeature),
        }
    }
}

/// Determinism: lowering two equal modules with two equal symbol
/// tables yields structurally identical results — the pass is a pure
/// function of its inputs' models, which `translate`'s contract ties
/// to the executable result.
pub proof fn lemma_translate_deterministic(
    m1: &Module,
    m2: &Module,
    t1: &SymbolTable,
    t2: &SymbolTable,
)
    requires
        m1@ == m2@,
        t1@ == t2@,
    ensures
        spec_translate(m1@, t1@) == spec_translate(m2@, t2@),
{
}

/// Translate a declared type to an IR type.
pub fn trans_type(typ: Type) -> (r: Result<IrType, CompileError>)
    ensures
        r == spec_trans_type(typ),
{
    match typ {
        Type::Int => Ok(IrType::I32),
        Type::Bool => Ok(IrType::I1),
        Type::Void => Err(CompileError::UnimplementedFeature),
    }
}

} // verus!
