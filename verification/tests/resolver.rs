use viv_script::ir::{Statement, ToplevelStatement, VarType};
use viv_script::type_analyzer::Analyzer;
use viv_script::{build, parse, CompileError};

fn resolve_err(code: &str) -> String {
    match build(code) {
        Err(CompileError::Type(e)) => e.0,
        other => panic!("expected a type error, got {other:?}", other = other.err()),
    }
}

#[test]
fn reassigning_at_another_type_fails_resolution() {
    let msg = resolve_err("$ { let x = 1; set x = true; }");
    assert_eq!(msg, "expression is of type Boolean, but variable x is not.");
}

#[test]
fn unknown_variable_fails_resolution() {
    let msg = resolve_err("$ { print y; }");
    assert_eq!(msg, "variable y not found");
}

#[test]
fn set_before_let_fails_resolution() {
    let msg = resolve_err("$ { set x = 1; }");
    assert_eq!(msg, "variable x not found");
}

#[test]
fn logical_not_demands_a_boolean() {
    let msg = resolve_err("$ { print !1; }");
    assert_eq!(msg, "Expected bool");
}

#[test]
fn negate_demands_an_integer() {
    let msg = resolve_err("$ { print -true; }");
    assert_eq!(msg, "Expected int");
}

#[test]
fn logical_operator_rejects_integers() {
    let msg = resolve_err("$ { print 1 && 2; }");
    assert_eq!(msg, "Operator not supported for int");
}

#[test]
fn arithmetic_rejects_booleans() {
    let msg = resolve_err("$ { print true + false; }");
    assert_eq!(msg, "Operator not supported for boolean");
}

#[test]
fn comparison_operands_must_be_integers() {
    let msg = resolve_err("$ { print true < 1; }");
    assert_eq!(msg, "Expected int");
}

#[test]
fn assert_demands_a_boolean() {
    let msg = resolve_err("$ { assert 1; }");
    assert_eq!(msg, "Expected bool");
}

#[test]
fn mixed_operand_types_fail() {
    let msg = resolve_err("$ { print 1 + true; }");
    assert_eq!(msg, "Expected int");
}

#[test]
fn shadowing_declares_a_new_variable() {
    let out = build("$ { let x = 1; let x = true; set x = false; print x; }")
        .expect("shadowing at a new type is allowed");
    let ToplevelStatement::Function { locals, .. } = &out.ir.0[0];
    // Both declarations get their own identifier and type.
    assert_eq!(locals.len(), 2);
    assert_eq!(locals[0].1, VarType::Int);
    assert_eq!(locals[1].1, VarType::Boolean);
    assert_ne!(locals[0].0, locals[1].0);
}

#[test]
fn lazy_connective_reserves_a_boolean_temporary() {
    let out = build("$ { print true && false; }").unwrap();
    let ToplevelStatement::Function { locals, .. } = &out.ir.0[0];
    assert_eq!(locals.len(), 1);
    assert_eq!(locals[0].1, VarType::Boolean);
}

#[test]
fn identifiers_are_unique_across_functions() {
    let out = build(
        "$ { let a = 1; let b = true && false; } $ { let c = 2; print true || true; let d = 3; }",
    )
    .unwrap();
    let mut seen: Vec<usize> = Vec::new();
    for f in &out.ir.0 {
        let ToplevelStatement::Function { locals, .. } = f;
        for (id, _) in locals {
            assert!(
                !seen.contains(&id.0),
                "identifier {} appears twice across the module",
                id.0
            );
            seen.push(id.0);
        }
    }
    // Two declared plus one temporary in the first function; two declared
    // plus one temporary in the second.
    assert_eq!(seen.len(), 6);
}

#[test]
fn resolver_state_is_per_instance() {
    // Two compilations each start their identifier counter afresh.
    let first = build("$ { let a = 1; }").unwrap();
    let second = build("$ { let b = 2; }").unwrap();
    let ToplevelStatement::Function { locals: l1, .. } = &first.ir.0[0];
    let ToplevelStatement::Function { locals: l2, .. } = &second.ir.0[0];
    assert_eq!(l1[0].0, l2[0].0);
}

#[test]
fn declaration_lowers_to_an_assignment_of_its_identifier() {
    let module = parse("$ { let x = 41; }").unwrap();
    let mut analyzer = Analyzer::new();
    let ir = analyzer.resolve_module(&module).unwrap();
    let ToplevelStatement::Function { body, locals, name } = &ir.0[0];
    assert_eq!(name, "main");
    assert_eq!(body.len(), 1);
    let Statement::Assignment(id, _) = &body[0] else {
        panic!("expected an assignment statement");
    };
    assert_eq!(*id, locals[0].0);
}
