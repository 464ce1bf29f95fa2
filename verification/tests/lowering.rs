use minilang_middle::ast::{Expression, ExpressionKind, Function, Module, Statement, StatementKind, Type};
use minilang_middle::constant_folding::optimize;
use minilang_middle::error::CompileError;
use minilang_middle::ir::{IrInst, IrTerm, IrValue};
use minilang_middle::operator::{BinaryOperator, UnaryOperator};
use minilang_middle::ssagen::translate;
use minilang_middle::symtab::SymbolTable;

fn lit_i32(id: u64, value: i32) -> Expression {
    Expression { id, kind: ExpressionKind::Integer { value } }
}

fn boolean(id: u64, value: bool) -> Expression {
    Expression { id, kind: ExpressionKind::Bool { value } }
}

fn ident(id: u64, name: &str) -> Expression {
    Expression { id, kind: ExpressionKind::Ident { name: name.to_string() } }
}

fn ret(id: u64, value: Expression) -> Statement {
    Statement { id, kind: StatementKind::Return { value: Some(Box::new(value)) } }
}

fn one_function_module(body_stmts: Vec<Statement>) -> Module {
    Module {
        id: 1,
        functions: vec![Function {
            id: 2,
            name: "main".to_string(),
            ret_typ: Type::Int,
            body: Some(Statement { id: 3, kind: StatementKind::Block { stmts: body_stmts } }),
        }],
    }
}

/// A skeleton with the module scope, the function scope under it and
/// the body block's scope under that.
fn skeleton() -> SymbolTable {
    let mut t = SymbolTable::new();
    t.add_scope(1, None);
    t.add_scope(2, Some(1));
    t.add_scope(3, Some(2));
    t
}

#[test]
fn scope_discipline_loads_the_declared_storage() {
    let module = one_function_module(vec![
        Statement {
            id: 10,
            kind: StatementKind::Var {
                name: "x".to_string(),
                typ: Type::Int,
                value: Some(Box::new(lit_i32(11, 5))),
            },
        },
        ret(12, ident(13, "x")),
    ]);
    let mut symtab = skeleton();
    let ir = translate(&module, &mut symtab).unwrap();
    let blocks = &ir.functions[0].blocks;
    assert_eq!(blocks.len(), 1);
    let entry = &blocks[0];
    let alloc_reg = match entry.insts[0] {
        IrInst::Alloc { dst, .. } => dst,
        ref other => panic!("expected an allocation first, got {:?}", other),
    };
    let load_addr = match entry.insts[2] {
        IrInst::Load { addr, .. } => addr,
        ref other => panic!("expected a load, got {:?}", other),
    };
    assert_eq!(load_addr, IrValue::Reg(alloc_reg));
    // The handle was recorded under the block's scope and resolves
    // from it, but not from a sibling scope.
    assert_eq!(symtab.find_variable(3, &"x".to_string()), Some(alloc_reg));
    let mut sibling = symtab;
    sibling.add_scope(4, Some(2));
    assert_eq!(sibling.find_variable(4, &"x".to_string()), None);
}

#[test]
fn if_with_two_returns_makes_three_blocks_and_an_unreachable_merge() {
    let module = one_function_module(vec![Statement {
        id: 10,
        kind: StatementKind::If {
            cond: Box::new(boolean(11, true)),
            then: Box::new(ret(12, lit_i32(13, 1))),
            els: Some(Box::new(ret(14, lit_i32(15, 2)))),
        },
    }]);
    let mut symtab = skeleton();
    let ir = translate(&module, &mut symtab).unwrap();
    let blocks = &ir.functions[0].blocks;
    // entry + exactly three blocks for the if: then, else, merge.
    assert_eq!(blocks.len(), 4);
    assert_eq!(blocks[1].term, Some(IrTerm::Ret { value: Some(IrValue::ConstI32(1)) }));
    assert_eq!(blocks[2].term, Some(IrTerm::Ret { value: Some(IrValue::ConstI32(2)) }));
    // Nothing falls through into the merge block: no branch targets it.
    for b in blocks.iter() {
        match b.term {
            Some(IrTerm::Br { target }) => assert_ne!(target, 3),
            Some(IrTerm::CondBr { then_blk, else_blk, .. }) => {
                assert_ne!(then_blk, 3);
                assert_ne!(else_blk, 3);
            }
            _ => {}
        }
    }
    assert_eq!(blocks[3].term, None);
}

#[test]
fn while_makes_condition_body_and_exit_blocks() {
    let module = one_function_module(vec![Statement {
        id: 10,
        kind: StatementKind::While {
            cond: Box::new(boolean(11, true)),
            body: Box::new(Statement { id: 12, kind: StatementKind::Block { stmts: vec![] } }),
        },
    }]);
    let mut symtab = skeleton();
    let ir = translate(&module, &mut symtab).unwrap();
    let blocks = &ir.functions[0].blocks;
    // entry + exactly three blocks for the while: condition, body, exit.
    assert_eq!(blocks.len(), 4);
    assert_eq!(blocks[0].term, Some(IrTerm::Br { target: 1 }));
    match blocks[1].term {
        Some(IrTerm::CondBr { then_blk, else_blk, .. }) => {
            assert_eq!(then_blk, 2);
            assert_eq!(else_blk, 3);
        }
        ref other => panic!("expected a conditional branch, got {:?}", other),
    }
    // The body branches back to the condition unconditionally.
    assert_eq!(blocks[2].term, Some(IrTerm::Br { target: 1 }));
}

#[test]
fn end_to_end_constant_fold_then_lower() {
    // val x: Int = 2 + 3 * 4; return x;
    let module = one_function_module(vec![
        Statement {
            id: 10,
            kind: StatementKind::Val {
                name: "x".to_string(),
                typ: Type::Int,
                value: Some(Box::new(Expression {
                    id: 11,
                    kind: ExpressionKind::BinaryOp {
                        op: BinaryOperator::Add,
                        lhs: Box::new(lit_i32(12, 2)),
                        rhs: Box::new(Expression {
                            id: 13,
                            kind: ExpressionKind::BinaryOp {
                                op: BinaryOperator::Mul,
                                lhs: Box::new(lit_i32(14, 3)),
                                rhs: Box::new(lit_i32(15, 4)),
                            },
                        }),
                    },
                })),
            },
        },
        ret(16, ident(17, "x")),
    ]);
    let folded = optimize(&module).unwrap();
    let mut symtab = skeleton();
    let ir = translate(&folded, &mut symtab).unwrap();
    let blocks = &ir.functions[0].blocks;
    assert_eq!(blocks.len(), 1);
    let entry = &blocks[0];
    assert_eq!(entry.insts.len(), 3);
    match entry.insts[1] {
        IrInst::Store { val, .. } => assert_eq!(val, IrValue::ConstI32(14)),
        ref other => panic!("expected the folded constant stored, got {:?}", other),
    }
    match entry.term {
        Some(IrTerm::Ret { value: Some(IrValue::Reg(_)) }) => {}
        ref other => panic!("expected a value return, got {:?}", other),
    }
}

#[test]
fn lowering_is_deterministic() {
    let make = || {
        one_function_module(vec![
            Statement {
                id: 10,
                kind: StatementKind::Var {
                    name: "x".to_string(),
                    typ: Type::Int,
                    value: Some(Box::new(lit_i32(11, 5))),
                },
            },
            Statement {
                id: 12,
                kind: StatementKind::If {
                    cond: Box::new(boolean(13, true)),
                    then: Box::new(ret(14, ident(15, "x"))),
                    els: None,
                },
            },
            ret(16, lit_i32(17, 0)),
        ])
    };
    let mut t1 = skeleton();
    let mut t2 = skeleton();
    let ir1 = translate(&make(), &mut t1).unwrap();
    let ir2 = translate(&make(), &mut t2).unwrap();
    assert_eq!(ir1, ir2);
    assert_eq!(t1, t2);
}

#[test]
fn unresolved_identifier_fails_loudly() {
    let module = one_function_module(vec![ret(10, ident(11, "y"))]);
    let mut symtab = skeleton();
    assert_eq!(translate(&module, &mut symtab), Err(CompileError::UnresolvedIdentifier));
}

#[test]
fn unary_operator_is_unimplemented_in_lowering() {
    let module = one_function_module(vec![ret(
        10,
        Expression {
            id: 11,
            kind: ExpressionKind::UnaryOp {
                op: UnaryOperator::Not,
                expr: Box::new(lit_i32(12, 1)),
            },
        },
    )]);
    let mut symtab = skeleton();
    assert_eq!(translate(&module, &mut symtab), Err(CompileError::UnimplementedFeature));
}

#[test]
fn void_declarations_are_unimplemented() {
    let module = one_function_module(vec![Statement {
        id: 10,
        kind: StatementKind::Var { name: "x".to_string(), typ: Type::Void, value: None },
    }]);
    let mut symtab = skeleton();
    assert_eq!(translate(&module, &mut symtab), Err(CompileError::UnimplementedFeature));
}

#[test]
fn non_identifier_assignment_target_is_unimplemented() {
    let module = one_function_module(vec![Statement {
        id: 10,
        kind: StatementKind::Assign { dst: Box::new(lit_i32(11, 1)), value: Box::new(lit_i32(12, 2)) },
    }]);
    let mut symtab = skeleton();
    assert_eq!(translate(&module, &mut symtab), Err(CompileError::UnimplementedFeature));
}

#[test]
fn statements_after_a_return_emit_nothing() {
    let module = one_function_module(vec![
        ret(10, lit_i32(11, 1)),
        Statement {
            id: 12,
            kind: StatementKind::Var {
                name: "x".to_string(),
                typ: Type::Int,
                value: Some(Box::new(lit_i32(13, 5))),
            },
        },
    ]);
    let mut symtab = skeleton();
    let ir = translate(&module, &mut symtab).unwrap();
    let entry = &ir.functions[0].blocks[0];
    assert_eq!(entry.term, Some(IrTerm::Ret { value: Some(IrValue::ConstI32(1)) }));
    assert_eq!(entry.insts.len(), 0);
}
