//! The abstract syntax tree of the source language, and its mathematical
//! model.
//!
//! Every `Module`, `Function`, `Statement` and `Expression` carries a
//! stable identifier; the identifiers of statements and functions key the
//! scopes of the symbol table. The ghost types (`ModuleS`, `FunctionS`,
//! `StmtS`, `ExprS`) mirror the executable tree with mathematical
//! sequences in place of vectors and strings; contracts speak of them
//! through the `view` (`@`) of each executable node.

use vstd::prelude::*;

use crate::operator::{BinaryOperator, UnaryOperator};

verus! {

/// A declared type of the source language. Only `Int` (32-bit signed) and
/// `Bool` are lowered; `Void` occurs as a function return type and is not
/// a valid variable type.
#[derive(Debug, Copy, Clone, PartialEq, Eq, Structural)]
pub enum Type {
    Int,
    Bool,
    Void,
}

/// An expression node with its stable identifier.
#[derive(Debug, PartialEq)]
pub struct Expression {
    pub id: u64,
    pub kind: ExpressionKind,
}

#[derive(Debug, PartialEq)]
pub enum ExpressionKind {
    Integer { value: i32 },
    Bool { value: bool },
    Ident { name: String },
    UnaryOp { op: UnaryOperator, expr: Box<Expression> },
    BinaryOp { op: BinaryOperator, lhs: Box<Expression>, rhs: Box<Expression> },
}

/// A statement node with its stable identifier. The identifier of a
/// `Block` keys the scope that the block opens.
#[derive(Debug, PartialEq)]
pub struct Statement {
    pub id: u64,
    pub kind: StatementKind,
}

#[derive(Debug, PartialEq)]
pub enum StatementKind {
    Block { stmts: Vec<Statement> },
    /// A mutable variable declaration.
    Var { name: String, typ: Type, value: Option<Box<Expression>> },
    /// An immutable variable declaration; lowered exactly as `Var`
    /// (immutability is enforced by the semantic checker, not here).
    Val { name: String, typ: Type, value: Option<Box<Expression>> },
    Assign { dst: Box<Expression>, value: Box<Expression> },
    Return { value: Option<Box<Expression>> },
    If { cond: Box<Expression>, then: Box<Statement>, els: Option<Box<Statement>> },
    While { cond: Box<Expression>, body: Box<Statement> },
}

/// A function of the source language. The language as given has no
/// parameters; the body, when present, is expected to be a `Block`.
#[derive(Debug, PartialEq)]
pub struct Function {
    pub id: u64,
    pub name: String,
    pub ret_typ: Type,
    pub body: Option<Statement>,
}

/// A module: the unit that folding and lowering consume.
#[derive(Debug, PartialEq)]
pub struct Module {
    pub id: u64,
    pub functions: Vec<Function>,
}

/// Mathematical model of an expression.
pub struct ExprS {
    pub id: u64,
    pub kind: ExprKindS,
}

pub enum ExprKindS {
    Integer { value: i32 },
    Bool { value: bool },
    Ident { name: Seq<char> },
    UnaryOp { op: UnaryOperator, expr: Box<ExprS> },
    BinaryOp { op: BinaryOperator, lhs: Box<ExprS>, rhs: Box<ExprS> },
}

/// Mathematical model of a statement.
pub struct StmtS {
    pub id: u64,
    pub kind: StmtKindS,
}

pub enum StmtKindS {
    Block { stmts: Seq<StmtS> },
    Var { name: Seq<char>, typ: Type, value: Option<ExprS> },
    Val { name: Seq<char>, typ: Type, value: Option<ExprS> },
    Assign { dst: ExprS, value: ExprS },
    Return { value: Option<ExprS> },
    If { cond: ExprS, then: Box<StmtS>, els: Option<Box<StmtS>> },
    While { cond: ExprS, body: Box<StmtS> },
}

/// Mathematical model of a function.
pub struct FunctionS {
    pub id: u64,
    pub name: Seq<char>,
    pub ret_typ: Type,
    pub body: Option<StmtS>,
}

/// Mathematical model of a module.
pub struct ModuleS {
    pub id: u64,
    pub functions: Seq<FunctionS>,
}

impl View for Expression {
    type V = ExprS;

    open spec fn view(&self) -> ExprS
        decreases *self,
    {
        ExprS {
            id: self.id,
            kind: match self.kind {
                ExpressionKind::Integer { value } => ExprKindS::Integer { value },
                ExpressionKind::Bool { value } => ExprKindS::Bool { value },
                ExpressionKind::Ident { name } => ExprKindS::Ident { name: name@ },
                ExpressionKind::UnaryOp { op, expr } => ExprKindS::UnaryOp {
                    op,
                    expr: Box::new((*expr)@),
                },
                ExpressionKind::BinaryOp { op, lhs, rhs } => ExprKindS::BinaryOp {
                    op,
                    lhs: Box::new((*lhs)@),
                    rhs: Box::new((*rhs)@),
                },
            },
        }
    }
}

/// The model of a sequence of statements, element by element.
pub open spec fn view_stmts(stmts: Seq<Statement>) -> Seq<StmtS>
    decreases stmts,
{
    if stmts.len() == 0 {
        Seq::empty()
    } else {
        view_stmts(stmts.drop_last()).push(stmts.last()@)
    }
}

impl View for Statement {
    type V = StmtS;

    open spec fn view(&self) -> StmtS
        decreases *self,
    {
        StmtS {
            id: self.id,
            kind: match self.kind {
                StatementKind::Block { stmts } => StmtKindS::Block { stmts: view_stmts(stmts@) },
                StatementKind::Var { name, typ, value } => StmtKindS::Var {
                    name: name@,
                    typ,
                    value: match value {
                        Some(e) => Some((*e)@),
                        None => None,
                    },
                },
                StatementKind::Val { name, typ, value } => StmtKindS::Val {
                    name: name@,
                    typ,
                    value: match value {
                        Some(e) => Some((*e)@),
                        None => None,
                    },
                },
                StatementKind::Assign { dst, value } => StmtKindS::Assign {
                    dst: (*dst)@,
                    value: (*value)@,
                },
                StatementKind::Return { value } => StmtKindS::Return {
                    value: match value {
                        Some(e) => Some((*e)@),
                        None => None,
                    },
                },
                StatementKind::If { cond, then, els } => StmtKindS::If {
                    cond: (*cond)@,
                    then: Box::new((*then)@),
                    els: match els {
                        Some(s) => Some(Box::new((*s)@)),
                        None => None,
                    },
                },
                StatementKind::While { cond, body } => StmtKindS::While {
                    cond: (*cond)@,
                    body: Box::new((*body)@),
                },
            },
        }
    }
}

impl View for Function {
    type V = FunctionS;

    open spec fn view(&self) -> FunctionS {
        FunctionS {
            id: self.id,
            name: self.name@,
            ret_typ: self.ret_typ,
            body: match self.body {
                Some(b) => Some(b@),
                None => None,
            },
        }
    }
}

/// The model of a sequence of functions, element by element.
pub open spec fn view_functions(functions: Seq<Function>) -> Seq<FunctionS>
    decreases functions,
{
    if functions.len() == 0 {
        Seq::empty()
    } else {
        view_functions(functions.drop_last()).push(functions.last()@)
    }
}

impl View for Module {
    type V = ModuleS;

    open spec fn view(&self) -> ModuleS {
        ModuleS { id: self.id, functions: view_functions(self.functions@) }
    }
}

/// `view_stmts` is the element-wise model: same length, and the element at
/// `i` is the model of the statement at `i`.
pub proof fn lemma_view_stmts(stmts: Seq<Statement>)
    ensures
        view_stmts(stmts).len() == stmts.len(),
        forall|i: int| 0 <= i < stmts.len() ==> view_stmts(stmts)[i] == stmts[i]@,
    decreases stmts,
{
    if stmts.len() > 0 {
        lemma_view_stmts(stmts.drop_last());
        assert(view_stmts(stmts) == view_stmts(stmts.drop_last()).push(stmts.last()@));
        assert forall|i: int| 0 <= i < stmts.len() implies view_stmts(stmts)[i] == stmts[i]@ by {
            if i < stmts.len() - 1 {
                assert(stmts.drop_last()[i] == stmts[i]);
            } else {
                assert(stmts.last() == stmts[i]);
            }
        }
    }
}

/// `view_functions` is the element-wise model: same length, and the
/// element at `i` is the model of the function at `i`.
pub proof fn lemma_view_functions(functions: Seq<Function>)
    ensures
        view_functions(functions).len() == functions.len(),
        forall|i: int| 0 <= i < functions.len() ==> view_functions(functions)[i] == functions[i]@,
    decreases functions,
{
    if functions.len() > 0 {
        lemma_view_functions(functions.drop_last());
        assert(view_functions(functions) == view_functions(functions.drop_last()).push(
            functions.last()@,
        ));
        assert forall|i: int| 0 <= i < functions.len() implies view_functions(functions)[i]
            == functions[i]@ by {
            if i < functions.len() - 1 {
                assert(functions.drop_last()[i] == functions[i]);
            } else {
                assert(functions.last() == functions[i]);
            }
        }
    }
}

} // verus!
