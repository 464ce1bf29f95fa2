use minilang_middle::ast::{Expression, ExpressionKind, Function, Module, Statement, StatementKind, Type};
use minilang_middle::constant_folding::{opt_binop_int, opt_expression, opt_statement, opt_unop_bool, opt_unop_int, optimize};
use minilang_middle::error::CompileError;
use minilang_middle::operator::{BinaryOperator, UnaryOperator};

fn lit_i32(id: u64, value: i32) -> Expression {
    Expression { id, kind: ExpressionKind::Integer { value } }
}

fn boolean(id: u64, value: bool) -> Expression {
    Expression { id, kind: ExpressionKind::Bool { value } }
}

fn binop(id: u64, op: BinaryOperator, lhs: Expression, rhs: Expression) -> Expression {
    Expression { id, kind: ExpressionKind::BinaryOp { op, lhs: Box::new(lhs), rhs: Box::new(rhs) } }
}

fn ret(id: u64, value: Expression) -> Statement {
    Statement { id, kind: StatementKind::Return { value: Some(Box::new(value)) } }
}

#[test]
fn fold_div_truncates() {
    let folded = opt_expression(&binop(9, BinaryOperator::Div, lit_i32(1, 7), lit_i32(2, 2))).unwrap();
    assert_eq!(folded, lit_i32(9, 3));
}

#[test]
fn fold_arithmetic_examples() {
    assert_eq!(opt_binop_int(0, BinaryOperator::Add, 2, 3).unwrap(), lit_i32(0, 5));
    assert_eq!(opt_binop_int(0, BinaryOperator::Sub, 2, 3).unwrap(), lit_i32(0, -1));
    assert_eq!(opt_binop_int(0, BinaryOperator::Mul, 4, -3).unwrap(), lit_i32(0, -12));
    assert_eq!(opt_binop_int(0, BinaryOperator::Div, -7, 2).unwrap(), lit_i32(0, -3));
    assert_eq!(opt_binop_int(0, BinaryOperator::Mod, 7, 2).unwrap(), lit_i32(0, 1));
    assert_eq!(opt_binop_int(0, BinaryOperator::And, 6, 3).unwrap(), lit_i32(0, 2));
    assert_eq!(opt_binop_int(0, BinaryOperator::Or, 6, 3).unwrap(), lit_i32(0, 7));
    assert_eq!(opt_binop_int(0, BinaryOperator::Xor, 6, 3).unwrap(), lit_i32(0, 5));
    assert_eq!(opt_binop_int(0, BinaryOperator::Equal, 2, 2).unwrap(), boolean(0, true));
    assert_eq!(opt_binop_int(0, BinaryOperator::NotEqual, 2, 2).unwrap(), boolean(0, false));
    assert_eq!(opt_binop_int(0, BinaryOperator::Lt, 1, 2).unwrap(), boolean(0, true));
    assert_eq!(opt_binop_int(0, BinaryOperator::Lte, 2, 2).unwrap(), boolean(0, true));
    assert_eq!(opt_binop_int(0, BinaryOperator::Gt, 1, 2).unwrap(), boolean(0, false));
    assert_eq!(opt_binop_int(0, BinaryOperator::Gte, 1, 2).unwrap(), boolean(0, false));
}

#[test]
fn fold_add_wraps_at_32_bits() {
    assert_eq!(opt_binop_int(0, BinaryOperator::Add, i32::MAX, 1).unwrap(), lit_i32(0, i32::MIN));
    assert_eq!(opt_binop_int(0, BinaryOperator::Div, i32::MIN, -1).unwrap(), lit_i32(0, i32::MIN));
}

#[test]
fn fold_division_by_zero_is_an_error() {
    assert_eq!(
        opt_binop_int(0, BinaryOperator::Div, 7, 0),
        Err(CompileError::ArithmeticError)
    );
    assert_eq!(
        opt_binop_int(0, BinaryOperator::Mod, 7, 0),
        Err(CompileError::ArithmeticError)
    );
    let e = binop(9, BinaryOperator::Div, lit_i32(1, 1), lit_i32(2, 0));
    assert_eq!(opt_expression(&e), Err(CompileError::ArithmeticError));
}

#[test]
fn fold_unary_operators() {
    assert_eq!(opt_unop_int(5, UnaryOperator::Not, 0), lit_i32(5, -1));
    assert_eq!(opt_unop_bool(5, UnaryOperator::Not, true), boolean(5, false));
    let e = Expression {
        id: 7,
        kind: ExpressionKind::UnaryOp { op: UnaryOperator::Not, expr: Box::new(lit_i32(8, 12)) },
    };
    assert_eq!(opt_expression(&e).unwrap(), lit_i32(7, !12));
}

#[test]
fn fold_keeps_unary_on_non_literal() {
    let e = Expression {
        id: 7,
        kind: ExpressionKind::UnaryOp {
            op: UnaryOperator::Not,
            expr: Box::new(Expression { id: 8, kind: ExpressionKind::Ident { name: "x".to_string() } }),
        },
    };
    let folded = opt_expression(&e).unwrap();
    assert!(matches!(folded.kind, ExpressionKind::UnaryOp { .. }));
}

#[test]
fn fold_if_true_keeps_then_branch() {
    let s = Statement {
        id: 1,
        kind: StatementKind::If {
            cond: Box::new(boolean(2, true)),
            then: Box::new(ret(3, lit_i32(4, 1))),
            els: Some(Box::new(ret(5, lit_i32(6, 2)))),
        },
    };
    assert_eq!(opt_statement(&s).unwrap(), Some(ret(3, lit_i32(4, 1))));
}

#[test]
fn fold_if_false_keeps_else_branch() {
    let s = Statement {
        id: 1,
        kind: StatementKind::If {
            cond: Box::new(boolean(2, false)),
            then: Box::new(ret(3, lit_i32(4, 1))),
            els: Some(Box::new(ret(5, lit_i32(6, 2)))),
        },
    };
    assert_eq!(opt_statement(&s).unwrap(), Some(ret(5, lit_i32(6, 2))));
}

#[test]
fn fold_if_false_without_else_vanishes() {
    let s = Statement {
        id: 1,
        kind: StatementKind::If {
            cond: Box::new(boolean(2, false)),
            then: Box::new(ret(3, lit_i32(4, 1))),
            els: None,
        },
    };
    assert_eq!(opt_statement(&s).unwrap(), None);
}

#[test]
fn fold_keeps_while_whatever_the_condition() {
    let s = Statement {
        id: 1,
        kind: StatementKind::While {
            cond: Box::new(binop(2, BinaryOperator::Equal, lit_i32(3, 1), lit_i32(4, 1))),
            body: Box::new(Statement { id: 5, kind: StatementKind::Block { stmts: vec![] } }),
        },
    };
    let folded = opt_statement(&s).unwrap().unwrap();
    match folded.kind {
        StatementKind::While { cond, .. } => assert_eq!(*cond, boolean(2, true)),
        other => panic!("expected a while statement, got {:?}", other),
    }
}

fn sample_module() -> Module {
    let body = Statement {
        id: 10,
        kind: StatementKind::Block {
            stmts: vec![
                Statement {
                    id: 11,
                    kind: StatementKind::Val {
                        name: "x".to_string(),
                        typ: Type::Int,
                        value: Some(Box::new(binop(
                            12,
                            BinaryOperator::Add,
                            lit_i32(13, 2),
                            binop(14, BinaryOperator::Mul, lit_i32(15, 3), lit_i32(16, 4)),
                        ))),
                    },
                },
                Statement {
                    id: 17,
                    kind: StatementKind::If {
                        cond: Box::new(boolean(18, false)),
                        then: Box::new(ret(19, lit_i32(20, 0))),
                        els: None,
                    },
                },
                ret(21, Expression { id: 22, kind: ExpressionKind::Ident { name: "x".to_string() } }),
            ],
        },
    };
    Module {
        id: 1,
        functions: vec![Function {
            id: 2,
            name: "main".to_string(),
            ret_typ: Type::Int,
            body: Some(body),
        }],
    }
}

#[test]
fn fold_is_idempotent_on_a_sample_module() {
    let once = optimize(&sample_module()).unwrap();
    let twice = optimize(&once).unwrap();
    assert_eq!(once, twice);
}

#[test]
fn fold_drops_vanished_statements_from_blocks() {
    let folded = optimize(&sample_module()).unwrap();
    let body = folded.functions[0].body.as_ref().unwrap();
    match &body.kind {
        StatementKind::Block { stmts } => {
            assert_eq!(stmts.len(), 2);
            match &stmts[0].kind {
                StatementKind::Val { value, .. } => {
                    assert_eq!(**value.as_ref().unwrap(), lit_i32(12, 14));
                }
                other => panic!("expected the declaration first, got {:?}", other),
            }
        }
        other => panic!("expected a block body, got {:?}", other),
    }
}
