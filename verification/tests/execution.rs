use viv_script::build;
use viv_script::cfg::{RuntimeFn, Terminator};
use viv_script::eval::{run_function, run_module, RunResult, RunStatus};

const FUEL: usize = 10_000;

fn run(code: &str) -> RunResult {
    let out = build(code).expect("compilation should succeed");
    run_module(&out.artifact, FUEL)
}

fn output_of(r: &RunResult) -> String {
    r.output.iter().collect()
}

#[test]
fn arithmetic_end_to_end() {
    let r = run("$ { print 1+2*3; }");
    assert_eq!(r.status, RunStatus::Success);
    assert_eq!(output_of(&r), "7\n");
}

#[test]
fn division_truncates_toward_zero() {
    let r = run("$ { print 7/2; }");
    assert_eq!(r.status, RunStatus::Success);
    assert_eq!(output_of(&r), "3\n");
}

#[test]
fn negative_division_truncates_toward_zero() {
    let r = run("$ { print (0-7)/2; }");
    assert_eq!(r.status, RunStatus::Success);
    assert_eq!(output_of(&r), "-3\n");
}

#[test]
fn failed_assert_prints_its_message_and_aborts() {
    let r = run("$ { assert 1==2, \"oops\"; }");
    assert_eq!(r.status, RunStatus::Aborted);
    let out = output_of(&r);
    assert!(out.contains("oops"), "diagnostic {out:?} should name the message");
    assert_eq!(out, "Assert failed: oops\n");
}

#[test]
fn passing_assert_is_silent_and_continues() {
    let r = run("$ { assert 1==1; print 3; }");
    assert_eq!(r.status, RunStatus::Success);
    assert_eq!(output_of(&r), "3\n");
}

#[test]
fn failed_assert_without_message_prints_the_generic_notice() {
    let r = run("$ { assert false; }");
    assert_eq!(r.status, RunStatus::Aborted);
    assert_eq!(output_of(&r), "Assert failed\n");
}

#[test]
fn nothing_after_a_failed_assert_runs() {
    let r = run("$ { assert false, \"stop\"; print 9; }");
    assert_eq!(r.status, RunStatus::Aborted);
    assert_eq!(output_of(&r), "Assert failed: stop\n");
}

#[test]
fn and_short_circuits_when_left_is_false() {
    let r = run("$ { print false && true; }");
    assert_eq!(r.status, RunStatus::Success);
    assert_eq!(output_of(&r), "Bool(0)\n");
    // Blocks: 0 entry, 1 right operand, 2 short circuit, 3 continuation.
    // The right operand's block is never entered.
    assert!(!r.visited.contains(&1));
    assert!(r.visited.contains(&2));
}

#[test]
fn or_short_circuits_when_left_is_true() {
    let r = run("$ { print true || false; }");
    assert_eq!(r.status, RunStatus::Success);
    assert_eq!(output_of(&r), "Bool(1)\n");
    assert!(!r.visited.contains(&1));
    assert!(r.visited.contains(&2));
}

#[test]
fn and_evaluates_right_when_left_is_true() {
    let r = run("$ { print true && false; }");
    assert_eq!(r.status, RunStatus::Success);
    assert_eq!(output_of(&r), "Bool(0)\n");
    assert!(r.visited.contains(&1));
    assert!(!r.visited.contains(&2));
}

#[test]
fn booleans_print_in_their_own_format() {
    let r = run("$ { print true; print false; }");
    assert_eq!(output_of(&r), "Bool(1)\nBool(0)\n");
}

#[test]
fn negation_prints_a_signed_value() {
    let r = run("$ { print -5; }");
    assert_eq!(output_of(&r), "-5\n");
}

#[test]
fn variables_store_and_reload() {
    let r = run("$ { let x = 2; set x = x + 3; print x; }");
    assert_eq!(r.status, RunStatus::Success);
    assert_eq!(output_of(&r), "5\n");
}

#[test]
fn comparison_chain_holds_when_every_link_holds() {
    let r = run("$ { print 1<2<=2; }");
    assert_eq!(output_of(&r), "Bool(1)\n");
}

#[test]
fn comparison_chain_fails_when_one_link_fails() {
    let r = run("$ { print 1<2<2; }");
    assert_eq!(output_of(&r), "Bool(0)\n");
}

#[test]
fn chain_links_compare_adjacent_operands() {
    // 5 > 3 and 3 > 1: the middle operand is shared, not the left one.
    let r = run("$ { print 5>3>1; }");
    assert_eq!(output_of(&r), "Bool(1)\n");
}

#[test]
fn logical_not_inverts() {
    let r = run("$ { print !true; print !!true; }");
    assert_eq!(output_of(&r), "Bool(0)\nBool(1)\n");
}

#[test]
fn nested_short_circuit_with_variables() {
    let r = run("$ { let a = true; let b = false; print a && (b || true); }");
    assert_eq!(output_of(&r), "Bool(1)\n");
}

#[test]
fn division_by_zero_leaves_the_machine_stuck() {
    let r = run("$ { print 1/0; }");
    assert_eq!(r.status, RunStatus::Stuck);
    assert_eq!(output_of(&r), "");
}

#[test]
fn each_function_runs_separately() {
    let out = build("$ { print 1; } $ { print 2; }").unwrap();
    let first = run_function(&out.artifact, 0, FUEL);
    let second = run_function(&out.artifact, 1, FUEL);
    assert_eq!(output_of(&first), "1\n");
    assert_eq!(output_of(&second), "2\n");
    // The module's entry is its first function.
    let entry = run_module(&out.artifact, FUEL);
    assert_eq!(output_of(&entry), "1\n");
}

#[test]
fn module_declares_both_runtime_primitives() {
    let out = build("$ { print 1; }").unwrap();
    assert_eq!(
        out.artifact.declarations,
        vec![RuntimeFn::FormattedOutput, RuntimeFn::TrappingAbort]
    );
}

#[test]
fn every_block_ends_in_exactly_one_terminator() {
    let out = build("$ { assert true && false, \"x\"; print 1; }").unwrap();
    for f in &out.artifact.functions {
        assert!(!f.blocks.is_empty());
        let mut returns = 0;
        for b in &f.blocks {
            match b.terminator {
                Terminator::Return => returns += 1,
                Terminator::Jump(t) => assert!(t < f.blocks.len()),
                Terminator::Branch {
                    when_true,
                    when_false,
                    ..
                } => {
                    assert!(when_true < f.blocks.len());
                    assert!(when_false < f.blocks.len());
                }
                Terminator::Unreachable => {}
            }
        }
        assert_eq!(returns, 1, "one return per function body");
    }
}

#[test]
fn out_of_fuel_is_reported() {
    let out = build("$ { print true && true; }").unwrap();
    let r = run_module(&out.artifact, 1);
    assert_eq!(r.status, RunStatus::OutOfFuel);
}

#[test]
fn empty_function_succeeds_quietly() {
    let r = run("$ { }");
    assert_eq!(r.status, RunStatus::Success);
    assert_eq!(output_of(&r), "");
}

#[test]
fn wrapping_arithmetic_matches_the_fixed_width() {
    let r = run("$ { print 2147483647 + 1; }");
    assert_eq!(r.status, RunStatus::Success);
    assert_eq!(output_of(&r), "-2147483648\n");
}
