//! Constant folding: a pure AST-to-AST rewrite that evaluates
//! statically-known subexpressions and statements.
//!
//! The pass runs before symbol resolution and never consults the symbol
//! table. Arithmetic on two integer literals is fixed-width 32-bit signed
//! with wrapping on overflow; a division or remainder whose right operand
//! is the literal zero is a `CompileError::ArithmeticError`. An `if`
//! whose condition folds to a boolean literal reduces to the live branch
//! (or to no statement at all); a `while` is kept whatever its condition
//! folds to. A node that a rewrite replaces hands its identifier to the
//! replacement, so identifiers stay stable across the pass.
//!
//! The spec functions (`spec_optimize` and the functions it calls) are
//! the mathematical definition of the pass; every executable function is
//! proved to return exactly what its spec function says.

use vstd::prelude::*;

use crate::ast::{
    lemma_view_functions, lemma_view_stmts, view_functions, view_stmts, ExprKindS, ExprS,
    Expression, ExpressionKind, Function, FunctionS, Module, ModuleS, Statement, StatementKind,
    StmtKindS, StmtS,
};
use crate::error::CompileError;
use crate::operator::{BinaryOperator, UnaryOperator};

verus! {

/// An integer literal node, as a model value.
pub open spec fn lit_int(id: u64, value: i32) -> ExprS {
    ExprS { id, kind: ExprKindS::Integer { value } }
}

/// A boolean literal node, as a model value.
pub open spec fn lit_bool(id: u64, value: bool) -> ExprS {
    ExprS { id, kind: ExprKindS::Bool { value } }
}

/// Truncating division, wrapping on the one overflowing case
/// (`i32::MIN / -1`). Meaningful only for `r != 0`.
pub open spec fn spec_div_wrapped(l: i32, r: i32) -> i32 {
    match l.checked_div(r) {
        Some(v) => v,
        None => i32::MIN,
    }
}

/// Remainder with the sign of the dividend, wrapping on the one
/// overflowing case (`i32::MIN % -1`, which is 0). Meaningful only for
/// `r != 0`.
pub open spec fn spec_rem_wrapped(l: i32, r: i32) -> i32 {
    match l.checked_rem(r) {
        Some(v) => v,
        None => 0,
    }
}

/// What folding a unary operator applied to an integer literal yields:
/// `Not` is bitwise complement. `id` is the identifier of the node being
/// replaced.
pub open spec fn spec_opt_unop_int(id: u64, op: UnaryOperator, value: i32) -> ExprS {
    match op {
        UnaryOperator::Not => lit_int(id, value ^ -1i32),
    }
}

/// What folding a unary operator applied to a boolean literal yields:
/// `Not` is logical negation.
pub open spec fn spec_opt_unop_bool(id: u64, op: UnaryOperator, value: bool) -> ExprS {
    match op {
        UnaryOperator::Not => lit_bool(id, !value),
    }
}

/// What folding a binary operator applied to two integer literals yields.
/// Arithmetic wraps at 32 bits; division or remainder by zero is an
/// `ArithmeticError`; comparisons yield a boolean literal.
pub open spec fn spec_opt_binop_int(id: u64, op: BinaryOperator, l: i32, r: i32) -> Result<
    ExprS,
    CompileError,
> {
    match op {
        BinaryOperator::Add => Ok(lit_int(id, l.wrapping_add(r))),
        BinaryOperator::Sub => Ok(lit_int(id, l.wrapping_sub(r))),
        BinaryOperator::Mul => Ok(lit_int(id, l.wrapping_mul(r))),
        BinaryOperator::Div => if r == 0 {
            Err(CompileError::ArithmeticError)
        } else {
            Ok(lit_int(id, spec_div_wrapped(l, r)))
        },
        BinaryOperator::Mod => if r == 0 {
            Err(CompileError::ArithmeticError)
        } else {
            Ok(lit_int(id, spec_rem_wrapped(l, r)))
        },
        BinaryOperator::And => Ok(lit_int(id, l & r)),
        BinaryOperator::Or => Ok(lit_int(id, l | r)),
        BinaryOperator::Xor => Ok(lit_int(id, l ^ r)),
        BinaryOperator::Equal => Ok(lit_bool(id, l == r)),
        BinaryOperator::NotEqual => Ok(lit_bool(id, l != r)),
        BinaryOperator::Lt => Ok(lit_bool(id, l < r)),
        BinaryOperator::Lte => Ok(lit_bool(id, l <= r)),
        BinaryOperator::Gt => Ok(lit_bool(id, l > r)),
        BinaryOperator::Gte => Ok(lit_bool(id, l >= r)),
    }
}

/// What folding an expression yields. Operands fold first; an operator
/// whose operands all folded to literals is evaluated at compile time,
/// and any other node is rebuilt with its folded operands.
pub open spec fn spec_opt_expression(e: ExprS) -> Result<ExprS, CompileError>
    decreases e,
{
    match e.kind {
        ExprKindS::Integer { .. } => Ok(e),
        ExprKindS::Bool { .. } => Ok(e),
        ExprKindS::Ident { .. } => Ok(e),
        ExprKindS::UnaryOp { op, expr } => match spec_opt_expression(*expr) {
            Ok(fe) => match fe.kind {
                ExprKindS::Integer { value } => Ok(spec_opt_unop_int(e.id, op, value)),
                ExprKindS::Bool { value } => Ok(spec_opt_unop_bool(e.id, op, value)),
                _ => Ok(ExprS { id: e.id, kind: ExprKindS::UnaryOp { op, expr: Box::new(fe) } }),
            },
            Err(er) => Err(er),
        },
        ExprKindS::BinaryOp { op, lhs, rhs } => match spec_opt_expression(*lhs) {
            Ok(fl) => match spec_opt_expression(*rhs) {
                Ok(fr) => match (fl.kind, fr.kind) {
                    (ExprKindS::Integer { value: lv }, ExprKindS::Integer { value: rv }) => {
                        spec_opt_binop_int(e.id, op, lv, rv)
                    },
                    _ => Ok(
                        ExprS {
                            id: e.id,
                            kind: ExprKindS::BinaryOp {
                                op,
                                lhs: Box::new(fl),
                                rhs: Box::new(fr),
                            },
                        },
                    ),
                },
                Err(er) => Err(er),
            },
            Err(er) => Err(er),
        },
    }
}

/// What folding a statement yields: `None` when the statement vanishes
/// (an `if` on a false literal with no else branch, or a `while` whose
/// body vanishes), otherwise the folded statement.
pub open spec fn spec_opt_statement(s: StmtS) -> Result<Option<StmtS>, CompileError>
    decreases s,
{
    match s.kind {
        StmtKindS::Block { stmts } => match spec_opt_stmts(stmts) {
            Ok(folded) => Ok(Some(StmtS { id: s.id, kind: StmtKindS::Block { stmts: folded } })),
            Err(er) => Err(er),
        },
        StmtKindS::Var { name, typ, value } => match spec_opt_value(value) {
            Ok(fv) => Ok(Some(StmtS { id: s.id, kind: StmtKindS::Var { name, typ, value: fv } })),
            Err(er) => Err(er),
        },
        StmtKindS::Val { name, typ, value } => match spec_opt_value(value) {
            Ok(fv) => Ok(Some(StmtS { id: s.id, kind: StmtKindS::Val { name, typ, value: fv } })),
            Err(er) => Err(er),
        },
        StmtKindS::Assign { dst, value } => match spec_opt_expression(value) {
            Ok(fv) => Ok(Some(StmtS { id: s.id, kind: StmtKindS::Assign { dst, value: fv } })),
            Err(er) => Err(er),
        },
        StmtKindS::Return { value } => match spec_opt_value(value) {
            Ok(fv) => Ok(Some(StmtS { id: s.id, kind: StmtKindS::Return { value: fv } })),
            Err(er) => Err(er),
        },
        StmtKindS::If { cond, then, els } => match spec_opt_expression(cond) {
            Ok(fc) => match fc.kind {
                ExprKindS::Bool { value: true } => spec_opt_statement(*then),
                ExprKindS::Bool { value: false } => match els {
                    Some(e) => spec_opt_statement(*e),
                    None => Ok(None),
                },
                _ => match spec_opt_statement(*then) {
                    Ok(ft) => match spec_opt_els(els) {
                        Ok(fe) => Ok(
                            Some(
                                StmtS {
                                    id: s.id,
                                    kind: StmtKindS::If {
                                        cond: fc,
                                        then: Box::new(or_empty_block(ft, then.id)),
                                        els: fe,
                                    },
                                },
                            ),
                        ),
                        Err(er) => Err(er),
                    },
                    Err(er) => Err(er),
                },
            },
            Err(er) => Err(er),
        },
        StmtKindS::While { cond, body } => match spec_opt_expression(cond) {
            Ok(fc) => match spec_opt_statement(*body) {
                Ok(Some(fb)) => Ok(
                    Some(
                        StmtS {
                            id: s.id,
                            kind: StmtKindS::While { cond: fc, body: Box::new(fb) },
                        },
                    ),
                ),
                Ok(None) => Ok(None),
                Err(er) => Err(er),
            },
            Err(er) => Err(er),
        },
    }
}

/// Folding an optional initializer or return value.
pub open spec fn spec_opt_value(value: Option<ExprS>) -> Result<Option<ExprS>, CompileError> {
    match value {
        None => Ok(None),
        Some(e) => match spec_opt_expression(e) {
            Ok(fe) => Ok(Some(fe)),
            Err(er) => Err(er),
        },
    }
}

/// A branch that is structurally required: a vanished statement becomes
/// an empty block carrying the identifier of the statement it replaces.
pub open spec fn or_empty_block(folded: Option<StmtS>, id: u64) -> StmtS {
    match folded {
        Some(st) => st,
        None => StmtS { id, kind: StmtKindS::Block { stmts: Seq::empty() } },
    }
}

/// Folding the optional else branch; a vanished branch is dropped.
pub open spec fn spec_opt_els(els: Option<Box<StmtS>>) -> Result<
    Option<Box<StmtS>>,
    CompileError,
>
    decreases els,
{
    match els {
        None => Ok(None),
        Some(b) => match spec_opt_statement(*b) {
            Ok(Some(fb)) => Ok(Some(Box::new(fb))),
            Ok(None) => Ok(None),
            Err(er) => Err(er),
        },
    }
}

/// Folding a sequence of statements, in order, dropping the ones that
/// vanish; the first error aborts.
pub open spec fn spec_opt_stmts(ss: Seq<StmtS>) -> Result<Seq<StmtS>, CompileError>
    decreases ss,
{
    if ss.len() == 0 {
        Ok(Seq::empty())
    } else {
        match spec_opt_statement(ss[0]) {
            Ok(head) => match spec_opt_stmts(ss.drop_first()) {
                Ok(rest) => Ok(
                    match head {
                        Some(st) => seq![st] + rest,
                        None => rest,
                    },
                ),
                Err(er) => Err(er),
            },
            Err(er) => Err(er),
        }
    }
}

/// Folding one function: its body folds; a body that vanishes becomes an
/// empty block.
pub open spec fn spec_opt_function(f: FunctionS) -> Result<FunctionS, CompileError> {
    match f.body {
        None => Ok(f),
        Some(b) => match spec_opt_statement(b) {
            Ok(folded) => Ok(
                FunctionS {
                    id: f.id,
                    name: f.name,
                    ret_typ: f.ret_typ,
                    body: Some(or_empty_block(folded, b.id)),
                },
            ),
            Err(er) => Err(er),
        },
    }
}

/// Folding a sequence of functions, in order.
pub open spec fn spec_opt_functions(fs: Seq<FunctionS>) -> Result<Seq<FunctionS>, CompileError>
    decreases fs,
{
    if fs.len() == 0 {
        Ok(Seq::empty())
    } else {
        match spec_opt_function(fs[0]) {
            Ok(head) => match spec_opt_functions(fs.drop_first()) {
                Ok(rest) => Ok(seq![head] + rest),
                Err(er) => Err(er),
            },
            Err(er) => Err(er),
        }
    }
}

/// The constant-folding pass over a whole module.
pub open spec fn spec_optimize(m: ModuleS) -> Result<ModuleS, CompileError> {
    match spec_opt_functions(m.functions) {
        Ok(fs) => Ok(ModuleS { id: m.id, functions: fs }),
        Err(er) => Err(er),
    }
}

/// The model of an expression fold result.
pub open spec fn res_expr_view(r: Result<Expression, CompileError>) -> Result<
    ExprS,
    CompileError,
> {
    match r {
        Ok(e) => Ok(e@),
        Err(er) => Err(er),
    }
}

/// The model of a statement fold result.
pub open spec fn res_stmt_view(r: Result<Option<Statement>, CompileError>) -> Result<
    Option<StmtS>,
    CompileError,
> {
    match r {
        Ok(Some(s)) => Ok(Some(s@)),
        Ok(None) => Ok(None),
        Err(er) => Err(er),
    }
}

/// Fold a unary operator applied to an integer literal. `id` is the
/// identifier of the node being replaced.
pub fn opt_unop_int(id: u64, op: UnaryOperator, value: i32) -> (r: Expression)
    ensures
        r@ == spec_opt_unop_int(id, op, value),
{
    match op {
        UnaryOperator::Not => Expression {
            id,
            kind: ExpressionKind::Integer { value: value ^ -1i32 },
        },
    }
}

/// Fold a unary operator applied to a boolean literal.
pub fn opt_unop_bool(id: u64, op: UnaryOperator, value: bool) -> (r: Expression)
    ensures
        r@ == spec_opt_unop_bool(id, op, value),
{
    match op {
        UnaryOperator::Not => Expression { id, kind: ExpressionKind::Bool { value: !value } },
    }
}

/// Fold a binary operator applied to two integer literals; division or
/// remainder by the literal zero is an `ArithmeticError`.
pub fn opt_binop_int(id: u64, op: BinaryOperator, left_value: i32, right_value: i32) -> (r: Result<
    Expression,
    CompileError,
>)
    ensures
        res_expr_view(r) == spec_opt_binop_int(id, op, left_value, right_value),
{
    let l = left_value;
    let v = right_value;
    match op {
        BinaryOperator::Add => Ok(
            Expression { id, kind: ExpressionKind::Integer { value: l.wrapping_add(v) } },
        ),
        BinaryOperator::Sub => Ok(
            Expression { id, kind: ExpressionKind::Integer { value: l.wrapping_sub(v) } },
        ),
        BinaryOperator::Mul => Ok(
            Expression { id, kind: ExpressionKind::Integer { value: l.wrapping_mul(v) } },
        ),
        BinaryOperator::Div => if v == 0 {
            Err(CompileError::ArithmeticError)
        } else {
            let q = match l.checked_div(v) {
                Some(d) => d,
                None => i32::MIN,
            };
            Ok(Expression { id, kind: ExpressionKind::Integer { value: q } })
        },
        BinaryOperator::Mod => if v == 0 {
            Err(CompileError::ArithmeticError)
        } else {
            let q = match l.checked_rem(v) {
                Some(d) => d,
                None => 0,
            };
            Ok(Expression { id, kind: ExpressionKind::Integer { value: q } })
        },
        BinaryOperator::And => Ok(
            Expression { id, kind: ExpressionKind::Integer { value: l & v } },
        ),
        BinaryOperator::Or => Ok(Expression { id, kind: ExpressionKind::Integer { value: l | v } }),
        BinaryOperator::Xor => Ok(
            Expression { id, kind: ExpressionKind::Integer { value: l ^ v } },
        ),
        BinaryOperator::Equal => Ok(
            Expression { id, kind: ExpressionKind::Bool { value: l == v } },
        ),
        BinaryOperator::NotEqual => Ok(
            Expression { id, kind: ExpressionKind::Bool { value: l != v } },
        ),
        BinaryOperator::Lt => Ok(Expression { id, kind: ExpressionKind::Bool { value: l < v } }),
        BinaryOperator::Lte => Ok(Expression { id, kind: ExpressionKind::Bool { value: l <= v } }),
        BinaryOperator::Gt => Ok(Expression { id, kind: ExpressionKind::Bool { value: l > v } }),
        BinaryOperator::Gte => Ok(Expression { id, kind: ExpressionKind::Bool { value: l >= v } }),
    }
}

/// Fold an expression: exactly what `spec_opt_expression` says of its
/// model.
pub fn opt_expression(expression: &Expression) -> (r: Result<Expression, CompileError>)
    ensures
        res_expr_view(r) == spec_opt_expression(expression@),
    decreases *expression,
{
    match &expression.kind {
        ExpressionKind::Integer { value } => Ok(
            Expression { id: expression.id, kind: ExpressionKind::Integer { value: *value } },
        ),
        ExpressionKind::Bool { value } => Ok(
            Expression { id: expression.id, kind: ExpressionKind::Bool { value: *value } },
        ),
        ExpressionKind::Ident { name } => Ok(
            Expression { id: expression.id, kind: ExpressionKind::Ident { name: name.clone() } },
        ),
        ExpressionKind::UnaryOp { op, expr } => match opt_expression(expr) {
            Ok(fe) => {
                match &fe.kind {
                    ExpressionKind::Integer { value } => Ok(
                        opt_unop_int(expression.id, *op, *value),
                    ),
                    ExpressionKind::Bool { value } => Ok(opt_unop_bool(expression.id, *op, *value)),
                    _ => Ok(
                        Expression {
                            id: expression.id,
                            kind: ExpressionKind::UnaryOp { op: *op, expr: Box::new(fe) },
                        },
                    ),
                }
            },
            Err(er) => Err(er),
        },
        ExpressionKind::BinaryOp { op, lhs, rhs } => match opt_expression(lhs) {
            Ok(fl) => match opt_expression(rhs) {
                Ok(fr) => {
                    let both_int = matches!(&fl.kind, ExpressionKind::Integer { .. }) && matches!(
                        &fr.kind,
                        ExpressionKind::Integer { .. },
                    );
                    if both_int {
                        let lv = match &fl.kind {
                            ExpressionKind::Integer { value } => *value,
                            _ => 0,
                        };
                        let rv = match &fr.kind {
                            ExpressionKind::Integer { value } => *value,
                            _ => 0,
                        };
                        opt_binop_int(expression.id, *op, lv, rv)
                    } else {
                        Ok(
                            Expression {
                                id: expression.id,
                                kind: ExpressionKind::BinaryOp {
                                    op: *op,
                                    lhs: Box::new(fl),
                                    rhs: Box::new(fr),
                                },
                            },
                        )
                    }
                },
                Err(er) => Err(er),
            },
            Err(er) => Err(er),
        },
    }
}

/// Fold an optional initializer or return value.
fn opt_value(value: &Option<Box<Expression>>) -> (r: Result<Option<Box<Expression>>, CompileError>)
    ensures
        match r {
            Ok(Some(e)) => spec_opt_value(view_opt_expr(*value)) == Ok::<Option<ExprS>, CompileError>(Some(e@)),
            Ok(None) => spec_opt_value(view_opt_expr(*value)) == Ok::<Option<ExprS>, CompileError>(None),
            Err(er) => spec_opt_value(view_opt_expr(*value)) == Err::<Option<ExprS>, _>(er),
        },
{
    match value {
        None => Ok(None),
        Some(e) => match opt_expression(e) {
            Ok(fe) => Ok(Some(Box::new(fe))),
            Err(er) => Err(er),
        },
    }
}

/// The model of an optional expression.
pub open spec fn view_opt_expr(value: Option<Box<Expression>>) -> Option<ExprS> {
    match value {
        Some(e) => Some((*e)@),
        None => None,
    }
}

/// Fold a statement: exactly what `spec_opt_statement` says of its model.
/// `Ok(None)` is a statement that vanished.
#[verifier::rlimit(60)]
pub fn opt_statement(statement: &Statement) -> (r: Result<Option<Statement>, CompileError>)
    ensures
        res_stmt_view(r) == spec_opt_statement(statement@),
    decreases *statement, 0int,
{
    let id = statement.id;
    match &statement.kind {
        StatementKind::Block { stmts } => {
            proof {
                assert(view_stmts(stmts@).skip(0) =~= view_stmts(stmts@));
            }
            match opt_stmts_from(stmts, 0) {
                Ok(folded) => Ok(
                    Some(Statement { id, kind: StatementKind::Block { stmts: folded } }),
                ),
                Err(er) => Err(er),
            }
        },
        StatementKind::Var { name, typ, value } => match opt_value(value) {
            Ok(fv) => Ok(
                Some(
                    Statement {
                        id,
                        kind: StatementKind::Var { name: name.clone(), typ: *typ, value: fv },
                    },
                ),
            ),
            Err(er) => Err(er),
        },
        StatementKind::Val { name, typ, value } => match opt_value(value) {
            Ok(fv) => Ok(
                Some(
                    Statement {
                        id,
                        kind: StatementKind::Val { name: name.clone(), typ: *typ, value: fv },
                    },
                ),
            ),
            Err(er) => Err(er),
        },
        StatementKind::Assign { dst, value } => match opt_expression(value) {
            Ok(fv) => Ok(
                Some(
                    Statement {
                        id,
                        kind: StatementKind::Assign {
                            dst: Box::new(clone_expression(dst)),
                            value: Box::new(fv),
                        },
                    },
                ),
            ),
            Err(er) => Err(er),
        },
        StatementKind::Return { value } => match opt_value(value) {
            Ok(fv) => Ok(Some(Statement { id, kind: StatementKind::Return { value: fv } })),
            Err(er) => Err(er),
        },
        StatementKind::If { cond, then, els } => match opt_expression(cond) {
            Ok(fc) => match &fc.kind {
                ExpressionKind::Bool { value: true } => opt_statement(then),
                ExpressionKind::Bool { value: false } => match els {
                    Some(e) => opt_statement(e),
                    None => Ok(None),
                },
                _ => match opt_statement(then) {
                    Ok(ft) => {
                        let then_id = then.id;
                        let new_then = match ft {
                            Some(st) => st,
                            None => {
                                let empty_stmts: Vec<Statement> = Vec::new();
                                proof {
                                    assert(view_stmts(empty_stmts@) =~= Seq::<StmtS>::empty());
                                }
                                Statement {
                                    id: then_id,
                                    kind: StatementKind::Block { stmts: empty_stmts },
                                }
                            },
                        };
                        proof {
                            let tspec = spec_opt_statement((**then)@);
                            if let Ok(fts) = tspec {
                                assert(new_then@ =~~= or_empty_block(fts, (**then)@.id));
                            }
                        }
                        match els {
                            None => {
                                proof {
                                    assert(spec_opt_els(None) == Ok::<
                                        Option<Box<StmtS>>,
                                        CompileError,
                                    >(None));
                                }
                                Ok(
                                    Some(
                                        Statement {
                                            id,
                                            kind: StatementKind::If {
                                                cond: Box::new(fc),
                                                then: Box::new(new_then),
                                                els: None,
                                            },
                                        },
                                    ),
                                )
                            },
                            Some(e) => match opt_statement(e) {
                                Ok(fe) => {
                                    let new_els = match fe {
                                        Some(fs) => Some(Box::new(fs)),
                                        None => None,
                                    };
                                    proof {
                                        let espec = spec_opt_statement((**e)@);
                                        if let Ok(fes) = espec {
                                            assert(spec_opt_els(Some(Box::new((**e)@))) == Ok::<
                                                Option<Box<StmtS>>,
                                                CompileError,
                                            >(
                                                match fes {
                                                    Some(x) => Some(Box::new(x)),
                                                    None => None,
                                                },
                                            ));
                                        }
                                    }
                                    Ok(
                                        Some(
                                            Statement {
                                                id,
                                                kind: StatementKind::If {
                                                    cond: Box::new(fc),
                                                    then: Box::new(new_then),
                                                    els: new_els,
                                                },
                                            },
                                        ),
                                    )
                                },
                                Err(er) => Err(er),
                            },
                        }
                    },
                    Err(er) => Err(er),
                },
            },
            Err(er) => Err(er),
        },
        StatementKind::While { cond, body } => match opt_expression(cond) {
            Ok(fc) => match opt_statement(body) {
                Ok(Some(fb)) => Ok(
                    Some(
                        Statement {
                            id,
                            kind: StatementKind::While {
                                cond: Box::new(fc),
                                body: Box::new(fb),
                            },
                        },
                    ),
                ),
                Ok(None) => Ok(None),
                Err(er) => Err(er),
            },
            Err(er) => Err(er),
        },
    }
}

/// Rebuild an expression unchanged (the tree types carry no `Clone`).
fn clone_expression(expression: &Expression) -> (r: Expression)
    ensures
        r@ == expression@,
    decreases *expression,
{
    Expression {
        id: expression.id,
        kind: match &expression.kind {
            ExpressionKind::Integer { value } => ExpressionKind::Integer { value: *value },
            ExpressionKind::Bool { value } => ExpressionKind::Bool { value: *value },
            ExpressionKind::Ident { name } => ExpressionKind::Ident { name: name.clone() },
            ExpressionKind::UnaryOp { op, expr } => ExpressionKind::UnaryOp {
                op: *op,
                expr: Box::new(clone_expression(expr)),
            },
            ExpressionKind::BinaryOp { op, lhs, rhs } => ExpressionKind::BinaryOp {
                op: *op,
                lhs: Box::new(clone_expression(lhs)),
                rhs: Box::new(clone_expression(rhs)),
            },
        },
    }
}

/// Fold the statements of a block from position `i` on, in order.
fn opt_stmts_from(stmts: &Vec<Statement>, i: usize) -> (r: Result<Vec<Statement>, CompileError>)
    requires
        i <= stmts.len(),
    ensures
        match r {
            Ok(v) => spec_opt_stmts(view_stmts(stmts@).skip(i as int)) == Ok::<Seq<StmtS>, CompileError>(view_stmts(v@)),
            Err(er) => spec_opt_stmts(view_stmts(stmts@).skip(i as int)) == Err::<
                Seq<StmtS>,
                _,
            >(er),
        },
    decreases *stmts, stmts@.len() - i,
{
    proof {
        lemma_view_stmts(stmts@);
    }
    if i == stmts.len() {
        proof {
            assert(view_stmts(stmts@).skip(i as int) =~= Seq::<StmtS>::empty());
            assert(view_stmts(Seq::<Statement>::empty()) =~= Seq::<StmtS>::empty());
        }
        Ok(Vec::new())
    } else {
        let ghost suffix = view_stmts(stmts@).skip(i as int);
        proof {
            assert(suffix[0] == view_stmts(stmts@)[i as int]);
            assert(suffix.drop_first() =~= view_stmts(stmts@).skip(i as int + 1));
        }
        match opt_statement(&stmts[i]) {
            Err(er) => Err(er),
            Ok(head) => match opt_stmts_from(stmts, i + 1) {
                Err(er) => Err(er),
                Ok(mut rest) => match head {
                    None => Ok(rest),
                    Some(st) => {
                        let ghost st_s = st@;
                        let ghost old_rest = rest@;
                        let ghost rest_s = view_stmts(rest@);
                        rest.insert(0, st);
                        proof {
                            assert(rest@.drop_first() =~= old_rest);
                            lemma_view_first(rest@, st_s, rest_s);
                        }
                        Ok(rest)
                    },
                },
            },
        }
    }
}

/// A sequence whose first element models `st` and whose rest models
/// `rest` models the whole, element by element.
proof fn lemma_view_first(v: Seq<Statement>, st: StmtS, rest: Seq<StmtS>)
    requires
        v.len() > 0,
        v[0]@ == st,
        view_stmts(v.drop_first()) == rest,
    ensures
        view_stmts(v) =~= seq![st] + rest,
{
    lemma_view_stmts(v);
    lemma_view_stmts(v.drop_first());
}

/// The model of a function fold result.
pub open spec fn res_function_view(r: Result<Function, CompileError>) -> Result<
    FunctionS,
    CompileError,
> {
    match r {
        Ok(f) => Ok(f@),
        Err(er) => Err(er),
    }
}

/// Fold one function.
fn opt_function(function: &Function) -> (r: Result<Function, CompileError>)
    ensures
        res_function_view(r) == spec_opt_function(function@),
{
    match &function.body {
        None => Ok(
            Function {
                id: function.id,
                name: function.name.clone(),
                ret_typ: function.ret_typ,
                body: None,
            },
        ),
        Some(b) => match opt_statement(b) {
            Ok(folded) => {
                let body_id = b.id;
                let new_body = match folded {
                    Some(st) => st,
                    None => {
                        let empty_stmts: Vec<Statement> = Vec::new();
                        proof {
                            assert(view_stmts(empty_stmts@) =~= Seq::<StmtS>::empty());
                        }
                        Statement { id: body_id, kind: StatementKind::Block { stmts: empty_stmts } }
                    },
                };
                Ok(
                    Function {
                        id: function.id,
                        name: function.name.clone(),
                        ret_typ: function.ret_typ,
                        body: Some(new_body),
                    },
                )
            },
            Err(er) => Err(er),
        },
    }
}

/// Fold the functions of a module from position `i` on, in order.
fn opt_functions_from(functions: &Vec<Function>, i: usize) -> (r: Result<
    Vec<Function>,
    CompileError,
>)
    requires
        i <= functions.len(),
    ensures
        match r {
            Ok(v) => spec_opt_functions(view_functions(functions@).skip(i as int)) == Ok::<Seq<FunctionS>, CompileError>(view_functions(v@)),
            Err(er) => spec_opt_functions(view_functions(functions@).skip(i as int)) == Err::<
                Seq<FunctionS>,
                _,
            >(er),
        },
    decreases functions@.len() - i,
{
    proof {
        lemma_view_functions(functions@);
    }
    if i == functions.len() {
        proof {
            assert(view_functions(functions@).skip(i as int) =~= Seq::<FunctionS>::empty());
            assert(view_functions(Seq::<Function>::empty()) =~= Seq::<FunctionS>::empty());
        }
        Ok(Vec::new())
    } else {
        let ghost suffix = view_functions(functions@).skip(i as int);
        proof {
            assert(suffix[0] == view_functions(functions@)[i as int]);
            assert(suffix.drop_first() =~= view_functions(functions@).skip(i as int + 1));
        }
        match opt_function(&functions[i]) {
            Err(er) => Err(er),
            Ok(head) => match opt_functions_from(functions, i + 1) {
                Err(er) => Err(er),
                Ok(mut rest) => {
                    let ghost head_s = head@;
                    let ghost old_rest = rest@;
                    let ghost rest_s = view_functions(rest@);
                    rest.insert(0, head);
                    proof {
                        assert(rest@.drop_first() =~= old_rest);
                        lemma_view_functions_first(rest@, head_s, rest_s);
                    }
                    Ok(rest)
                },
            },
        }
    }
}

/// A sequence whose first element models `f` and whose rest models
/// `rest` models the whole, element by element.
proof fn lemma_view_functions_first(v: Seq<Function>, f: FunctionS, rest: Seq<FunctionS>)
    requires
        v.len() > 0,
        v[0]@ == f,
        view_functions(v.drop_first()) == rest,
    ensures
        view_functions(v) =~= seq![f] + rest,
{
    lemma_view_functions(v);
    lemma_view_functions(v.drop_first());
}

/// The model of a module fold result.
pub open spec fn res_module_view(r: Result<Module, CompileError>) -> Result<
    ModuleS,
    CompileError,
> {
    match r {
        Ok(m) => Ok(m@),
        Err(er) => Err(er),
    }
}

/// The constant-folding pass: fold every function of the module.
/// Returns exactly what `spec_optimize` says of the module's model.
pub fn optimize(program: &Module) -> (r: Result<Module, CompileError>)
    ensures
        res_module_view(r) == spec_optimize(program@),
{
    proof {
        assert(view_functions(program.functions@).skip(0) =~= view_functions(program.functions@));
    }
    match opt_functions_from(&program.functions, 0) {
        Ok(folded) => Ok(Module { id: program.id, functions: folded }),
        Err(er) => Err(er),
    }
}

/// Soundness of folding on two integer literals: the operator is
/// evaluated at compile time, under the 32-bit wrapping semantics of
/// `spec_opt_binop_int`, and succeeds whenever it is not a division or
/// remainder by zero.
pub proof fn lemma_fold_binop_sound(
    id: u64,
    lid: u64,
    rid: u64,
    op: BinaryOperator,
    a: i32,
    b: i32,
)
    requires
        op is Div ==> b != 0,
        op is Mod ==> b != 0,
    ensures
        spec_opt_expression(
            ExprS {
                id,
                kind: ExprKindS::BinaryOp {
                    op,
                    lhs: Box::new(lit_int(lid, a)),
                    rhs: Box::new(lit_int(rid, b)),
                },
            },
        ) == spec_opt_binop_int(id, op, a, b),
        spec_opt_binop_int(id, op, a, b) is Ok,
{
    assert(spec_opt_expression(lit_int(lid, a)) == Ok::<ExprS, CompileError>(lit_int(lid, a)));
    assert(spec_opt_expression(lit_int(rid, b)) == Ok::<ExprS, CompileError>(lit_int(rid, b)));
    match op {
        BinaryOperator::Div => {
            assert(spec_opt_binop_int(id, op, a, b) == Ok::<ExprS, CompileError>(
                lit_int(id, spec_div_wrapped(a, b)),
            ));
        },
        BinaryOperator::Mod => {
            assert(spec_opt_binop_int(id, op, a, b) == Ok::<ExprS, CompileError>(
                lit_int(id, spec_rem_wrapped(a, b)),
            ));
        },
        _ => {},
    }
}

/// Dead-branch elimination: an `if` whose condition is the literal
/// `true` folds to its folded then branch.
pub proof fn lemma_dead_branch_true(id: u64, cid: u64, then: Box<StmtS>, els: Option<Box<StmtS>>)
    ensures
        spec_opt_statement(
            StmtS { id, kind: StmtKindS::If { cond: lit_bool(cid, true), then, els } },
        ) == spec_opt_statement(*then),
{
}

/// Dead-branch elimination: an `if` whose condition is the literal
/// `false` folds to its folded else branch.
pub proof fn lemma_dead_branch_false(id: u64, cid: u64, then: Box<StmtS>, els: Box<StmtS>)
    ensures
        spec_opt_statement(
            StmtS { id, kind: StmtKindS::If { cond: lit_bool(cid, false), then, els: Some(els) } },
        ) == spec_opt_statement(*els),
{
}

/// Dead-branch elimination: an `if` whose condition is the literal
/// `false` and which has no else branch folds to no statement at all.
pub proof fn lemma_dead_branch_false_none(id: u64, cid: u64, then: Box<StmtS>)
    ensures
        spec_opt_statement(
            StmtS { id, kind: StmtKindS::If { cond: lit_bool(cid, false), then, els: None } },
        ) == Ok::<Option<StmtS>, CompileError>(None),
{
}

/// Idempotence of folding, expression part: refolding a fold result
/// returns it unchanged.
pub proof fn lemma_fold_idempotent_expr(e: ExprS)
    ensures
        spec_opt_expression(e) matches Ok(f) ==> spec_opt_expression(f) == Ok::<
            ExprS,
            CompileError,
        >(f),
    decreases e,
{
    match e.kind {
        ExprKindS::UnaryOp { op, expr } => {
            lemma_fold_idempotent_expr(*expr);
        },
        ExprKindS::BinaryOp { op, lhs, rhs } => {
            lemma_fold_idempotent_expr(*lhs);
            lemma_fold_idempotent_expr(*rhs);
            if let Ok(fl) = spec_opt_expression(*lhs) {
                if let Ok(fr) = spec_opt_expression(*rhs) {
                    match (fl.kind, fr.kind) {
                        (ExprKindS::Integer { value: lv }, ExprKindS::Integer { value: rv }) => {},
                        _ => {},
                    }
                }
            }
        },
        _ => {},
    }
}

/// Idempotence of folding, statement part: refolding a statement that
/// the fold kept returns it unchanged.
#[verifier::rlimit(100)]
pub proof fn lemma_fold_idempotent_stmt(s: StmtS)
    ensures
        spec_opt_statement(s) matches Ok(Some(t)) ==> spec_opt_statement(t) == Ok::<
            Option<StmtS>,
            CompileError,
        >(Some(t)),
    decreases s,
{
    match s.kind {
        StmtKindS::Block { stmts } => {
            lemma_fold_idempotent_stmts(stmts);
        },
        StmtKindS::Var { name, typ, value } => {
            if let Some(e) = value {
                lemma_fold_idempotent_expr(e);
            }
        },
        StmtKindS::Val { name, typ, value } => {
            if let Some(e) = value {
                lemma_fold_idempotent_expr(e);
            }
        },
        StmtKindS::Assign { dst, value } => {
            lemma_fold_idempotent_expr(value);
        },
        StmtKindS::Return { value } => {
            if let Some(e) = value {
                lemma_fold_idempotent_expr(e);
            }
        },
        StmtKindS::If { cond, then, els } => {
            lemma_fold_idempotent_expr(cond);
            lemma_fold_idempotent_stmt(*then);
            if let Some(e) = els {
                lemma_fold_idempotent_stmt(*e);
            }
            if let Ok(fc) = spec_opt_expression(cond) {
                match fc.kind {
                    ExprKindS::Bool { .. } => {},
                    _ => {
                        if let Ok(ft) = spec_opt_statement(*then) {
                            let then2 = or_empty_block(ft, then.id);
                            if ft is None {
                                assert(spec_opt_stmts(Seq::<StmtS>::empty()) == Ok::<
                                    Seq<StmtS>,
                                    CompileError,
                                >(Seq::empty()));
                            }
                            assert(spec_opt_statement(then2) == Ok::<Option<StmtS>, CompileError>(
                                Some(then2),
                            ));
                            if let Ok(fe) = spec_opt_els(els) {
                                let tt = StmtS {
                                    id: s.id,
                                    kind: StmtKindS::If { cond: fc, then: Box::new(then2), els: fe },
                                };
                                match fe {
                                    None => {
                                        assert(spec_opt_els(None) == Ok::<
                                            Option<Box<StmtS>>,
                                            CompileError,
                                        >(None));
                                    },
                                    Some(y) => {
                                        assert(spec_opt_statement(*y) == Ok::<
                                            Option<StmtS>,
                                            CompileError,
                                        >(Some(*y)));
                                        assert(spec_opt_els(Some(y)) == Ok::<
                                            Option<Box<StmtS>>,
                                            CompileError,
                                        >(Some(y)));
                                    },
                                }
                                assert(spec_opt_statement(s) == Ok::<Option<StmtS>, CompileError>(
                                    Some(tt),
                                ));
                                assert(spec_opt_statement(tt) == Ok::<Option<StmtS>, CompileError>(
                                    Some(tt),
                                ));
                            }
                        }
                    },
                }
            }
        },
        StmtKindS::While { cond, body } => {
            lemma_fold_idempotent_expr(cond);
            lemma_fold_idempotent_stmt(*body);
        },
    }
}

/// Idempotence of folding, statement-sequence part.
pub proof fn lemma_fold_idempotent_stmts(ss: Seq<StmtS>)
    ensures
        spec_opt_stmts(ss) matches Ok(ts) ==> spec_opt_stmts(ts) == Ok::<
            Seq<StmtS>,
            CompileError,
        >(ts),
    decreases ss,
{
    if ss.len() == 0 {
    } else {
        lemma_fold_idempotent_stmt(ss[0]);
        lemma_fold_idempotent_stmts(ss.drop_first());
        if let Ok(head) = spec_opt_statement(ss[0]) {
            if let Ok(rest) = spec_opt_stmts(ss.drop_first()) {
                match head {
                    Some(st) => {
                        let ts = seq![st] + rest;
                        assert(ts.len() > 0);
                        assert(ts[0] == st);
                        assert(ts.drop_first() =~= rest);
                    },
                    None => {},
                }
            }
        }
    }
}

/// Idempotence of folding, function part.
pub proof fn lemma_fold_idempotent_function(f: FunctionS)
    ensures
        spec_opt_function(f) matches Ok(g) ==> spec_opt_function(g) == Ok::<
            FunctionS,
            CompileError,
        >(g),
{
    if let Some(b) = f.body {
        lemma_fold_idempotent_stmt(b);
        if let Ok(folded) = spec_opt_statement(b) {
            if folded is None {
                let eb = StmtS { id: b.id, kind: StmtKindS::Block { stmts: Seq::empty() } };
                assert(spec_opt_stmts(Seq::<StmtS>::empty()) == Ok::<Seq<StmtS>, CompileError>(
                    Seq::empty(),
                ));
                assert(spec_opt_statement(eb) == Ok::<Option<StmtS>, CompileError>(Some(eb)));
            }
        }
    }
}

/// Idempotence of folding, function-sequence part.
pub proof fn lemma_fold_idempotent_functions(fs: Seq<FunctionS>)
    ensures
        spec_opt_functions(fs) matches Ok(ts) ==> spec_opt_functions(ts) == Ok::<
            Seq<FunctionS>,
            CompileError,
        >(ts),
    decreases fs,
{
    if fs.len() == 0 {
    } else {
        lemma_fold_idempotent_function(fs[0]);
        lemma_fold_idempotent_functions(fs.drop_first());
        if let Ok(head) = spec_opt_function(fs[0]) {
            if let Ok(rest) = spec_opt_functions(fs.drop_first()) {
                let ts = seq![head] + rest;
                assert(ts.len() > 0);
                assert(ts[0] == head);
                assert(ts.drop_first() =~= rest);
            }
        }
    }
}

/// Idempotence: folding an already-folded module yields it unchanged.
pub proof fn lemma_fold_idempotent(m: ModuleS)
    ensures
        spec_optimize(m) matches Ok(m2) ==> spec_optimize(m2) == Ok::<ModuleS, CompileError>(m2),
{
    lemma_fold_idempotent_functions(m.functions);
}

} // verus!
