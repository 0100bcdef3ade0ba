use viv_script::ast::{BinaryOp, ComparisonOp, Expression, Literal, Statement, ToplevelStatement};
use viv_script::parser::Parser;
use viv_script::tokens::{TokenType, Tokenizer};
use viv_script::{parse, CompileError};

fn parse_single_statement(code: &str) -> Statement {
    let module = parse(code).expect("parse should succeed");
    assert_eq!(module.0.len(), 1);
    let ToplevelStatement::MainFunction(mut stmts) = module.0.into_iter().next().unwrap();
    assert_eq!(stmts.len(), 1);
    stmts.remove(0)
}

#[test]
fn chained_comparison_is_one_flat_node() {
    let stmt = parse_single_statement("$ { print a<b<=c<d; }");
    let Statement::Print(expr) = stmt else {
        panic!("expected a print statement");
    };
    let Expression::Comparison(left, chain) = expr else {
        panic!("expected one comparison node, got {expr:?}");
    };
    assert!(matches!(*left, Expression::Literal(Literal::Variable(ref n)) if n == "a"));
    assert_eq!(chain.len(), 3);
    assert!(matches!(chain[0].0, ComparisonOp::LessThan));
    assert!(matches!(chain[1].0, ComparisonOp::LessThanEquals));
    assert!(matches!(chain[2].0, ComparisonOp::LessThan));
    // Every link operand is a plain literal: nothing nested.
    for (_, operand) in &chain {
        assert!(matches!(operand, Expression::Literal(_)));
    }
}

#[test]
fn single_operand_comparison_level_leaves_the_operand_alone() {
    let stmt = parse_single_statement("$ { print x; }");
    let Statement::Print(expr) = stmt else {
        panic!("expected a print statement");
    };
    assert!(matches!(expr, Expression::Literal(Literal::Variable(ref n)) if n == "x"));
}

#[test]
fn multiplication_binds_tighter_than_addition() {
    let stmt = parse_single_statement("$ { print 1+2*3; }");
    let Statement::Print(expr) = stmt else {
        panic!("expected a print statement");
    };
    let Expression::BinaryOp(l, BinaryOp::Plus, r) = expr else {
        panic!("expected an addition at the top, got {expr:?}");
    };
    assert!(matches!(*l, Expression::Literal(Literal::Integer(1))));
    assert!(matches!(
        *r,
        Expression::BinaryOp(_, BinaryOp::Multiply, _)
    ));
}

#[test]
fn binary_operators_are_left_associative() {
    let stmt = parse_single_statement("$ { print 1-2-3; }");
    let Statement::Print(expr) = stmt else {
        panic!("expected a print statement");
    };
    let Expression::BinaryOp(l, BinaryOp::Minus, r) = expr else {
        panic!("expected a subtraction at the top");
    };
    assert!(matches!(*l, Expression::BinaryOp(_, BinaryOp::Minus, _)));
    assert!(matches!(*r, Expression::Literal(Literal::Integer(3))));
}

#[test]
fn parentheses_override_precedence() {
    let stmt = parse_single_statement("$ { print (1+2)*3; }");
    let Statement::Print(expr) = stmt else {
        panic!("expected a print statement");
    };
    assert!(matches!(expr, Expression::BinaryOp(_, BinaryOp::Multiply, _)));
}

#[test]
fn assert_statement_carries_its_message() {
    let stmt = parse_single_statement("$ { assert true, \"boom\"; }");
    let Statement::Assert(_, msg) = stmt else {
        panic!("expected an assert statement");
    };
    assert_eq!(msg.as_deref(), Some("boom"));
}

#[test]
fn assert_statement_message_is_optional() {
    let stmt = parse_single_statement("$ { assert true; }");
    let Statement::Assert(_, msg) = stmt else {
        panic!("expected an assert statement");
    };
    assert!(msg.is_none());
}

#[test]
fn let_and_set_parse_into_declaration_and_assignment() {
    let module = parse("$ { let x = 1; set x = 2; }").unwrap();
    let ToplevelStatement::MainFunction(stmts) = &module.0[0];
    assert!(matches!(&stmts[0], Statement::Declaration(n, _) if n == "x"));
    assert!(matches!(&stmts[1], Statement::Assignment(n, _) if n == "x"));
}

#[test]
fn stacked_prefix_operators_parse() {
    let stmt = parse_single_statement("$ { print !!true; }");
    let Statement::Print(Expression::Prefix(_, inner)) = stmt else {
        panic!("expected a prefix expression");
    };
    assert!(matches!(*inner, Expression::Prefix(_, _)));
}

#[test]
fn missing_semicolon_is_a_parse_error() {
    let e = parse("$ { print 5 }").unwrap_err();
    let CompileError::Parsing(pe) = e else {
        panic!("expected a parse error, got {e:?}");
    };
    assert_eq!(pe.expected, "SemiColon");
    assert_eq!(pe.got, TokenType::CurlyClose);
}

#[test]
fn stray_token_at_top_level_is_a_parse_error() {
    let e = parse("print 5;").unwrap_err();
    let CompileError::Parsing(pe) = e else {
        panic!("expected a parse error, got {e:?}");
    };
    assert_eq!(pe.expected, "Top Level Statement");
}

#[test]
fn non_string_after_assert_comma_is_a_parse_error() {
    let e = parse("$ { assert true, 5; }").unwrap_err();
    let CompileError::Parsing(pe) = e else {
        panic!("expected a parse error, got {e:?}");
    };
    assert_eq!(pe.expected, "String");
    assert_eq!(pe.got, TokenType::Integer(5));
}

#[test]
fn running_out_of_tokens_is_a_normalized_parse_error() {
    // A hand-built token stream without the terminal end-of-stream marker.
    let tokens = Tokenizer::new("$ {").tokenize().unwrap();
    let without_eof: Vec<_> = tokens
        .into_iter()
        .filter(|t| !matches!(t._type, TokenType::Eof))
        .collect();
    let e = Parser::new(without_eof).module().unwrap_err();
    assert_eq!(e.expected, "Unexpected End of Tokens");
    assert_eq!(e.line, 0);
    assert_eq!(e.char, 0);
}

#[test]
fn empty_module_parses() {
    let module = parse("").unwrap();
    assert_eq!(module.0.len(), 0);
}

#[test]
fn two_functions_parse_in_order() {
    let module = parse("$ { print 1; } $ { print 2; }").unwrap();
    assert_eq!(module.0.len(), 2);
}
