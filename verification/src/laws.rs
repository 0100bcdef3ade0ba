use vstd::prelude::*;

use crate::cfg::{BasicBlockV, InstrV, OutputCallV, Reg, Terminator};
use crate::code_gen::{
    gv_emit, gv_fresh, gv_new_block, gv_seal, lemma_gen_bool_frame, spec_bool_blocks,
    spec_gen_allocs, spec_gen_bool, spec_gen_function, spec_gen_functions, spec_gen_statement,
    spec_gen_statements, spec_generate, GenV,
};
use crate::eval::{
    run_result, spec_bool_text, spec_initial_machine, spec_read_assoc, spec_run_block,
    spec_run_instrs, spec_run_module, spec_step, spec_write_slot, MachineV, RunStatus, SlotState,
    StepRes, Value,
};
use crate::ir;
use crate::ir::{BooleanExpressionV, VarType, VariableIdentifier};

verus! {

/// The one-function module whose body prints one lazy boolean whose left
/// operand is the connective's absorbing constant.
pub open spec fn short_circuit_module(
    op: ir::BooleanOperator,
    right: BooleanExpressionV,
    t: VariableIdentifier,
) -> ir::ModuleV {
    let lv = match op {
        ir::BooleanOperator::And => false,
        ir::BooleanOperator::Or => true,
    };
    ir::ModuleV(
        seq![
            ir::ToplevelStatementV::Function {
                name: "main"@,
                body: seq![
                    ir::StatementV::Print(
                        ir::PrintStatementV::Boolean(
                            BooleanExpressionV::Operator(
                                t,
                                Box::new(BooleanExpressionV::Literal(lv)),
                                op,
                                Box::new(right),
                            ),
                        ),
                    ),
                ],
                locals: seq![(t, VarType::Boolean)],
            },
        ],
    )
}

/// SHORT-CIRCUIT LAW.  When the left operand of a lazy connective is
/// statically its absorbing constant (`false` for the conjunction, `true`
/// for the disjunction), running the compiled program never enters the
/// block that evaluates the right operand: whatever the right operand is,
/// the run enters exactly the entry block, the short-circuit block and
/// the continuation block, prints the absorbing value, and succeeds.
/// The right operand's evaluation therefore has no observable effect.
///
/// The one proviso is a machine limit: the right operand's lowering must
/// fit the machine's block-index word, which every expression that exists
/// in memory does.
#[verifier::rlimit(100)]
#[verifier::spinoff_prover]
pub proof fn lemma_short_circuit(
    op: ir::BooleanOperator,
    right: BooleanExpressionV,
    t: VariableIdentifier,
    fuel: nat,
)
    requires
        fuel >= 3,
        spec_bool_blocks(right) + 4 <= usize::MAX,
    ensures
        ({
            let lv = match op {
                ir::BooleanOperator::And => false,
                ir::BooleanOperator::Or => true,
            };
            let r = spec_run_module(
                spec_generate(short_circuit_module(op, right, t)),
                fuel,
            );
            &&& r.status == RunStatus::Success
            &&& r.output == spec_bool_text(lv)
            &&& r.visited == seq![0usize, 2usize, 3usize]
        }),
{
    let lv = match op {
        ir::BooleanOperator::And => false,
        ir::BooleanOperator::Or => true,
    };
    let im = short_circuit_module(op, right, t);
    let cm = spec_generate(im);
    let the_fn = im.0[0];
    let opexpr0 = BooleanExpressionV::Operator(
        t,
        Box::new(BooleanExpressionV::Literal(lv)),
        op,
        Box::new(right),
    );
    let the_body = seq![
        ir::StatementV::Print(ir::PrintStatementV::Boolean(opexpr0)),
    ];
    let the_locals = seq![(t, VarType::Boolean)];
    assert(the_fn == (ir::ToplevelStatementV::Function {
        name: "main"@,
        body: the_body,
        locals: the_locals,
    }));
    assert(cm.functions =~= seq![spec_gen_function(the_fn)]) by {
        assert(spec_gen_functions(im.0, 1) =~= Seq::<crate::cfg::CfgFunctionV>::empty());
        assert(seq![spec_gen_function(im.0[0])] + Seq::<crate::cfg::CfgFunctionV>::empty()
            =~= seq![spec_gen_function(im.0[0])]);
    }
    let f = spec_gen_function(the_fn);

    // Replay the lowering of the function.
    let opexpr = BooleanExpressionV::Operator(
        t,
        Box::new(BooleanExpressionV::Literal(lv)),
        op,
        Box::new(right),
    );
    let g0 = GenV {
        blocks: seq![
            BasicBlockV { instructions: Seq::empty(), terminator: Terminator::Unreachable },
        ],
        cur: 0,
        next_reg: 0,
    };
    let g1 = spec_gen_allocs(g0, the_locals, 0);
    assert(the_locals.len() == 1);
    assert(the_locals[0] == (t, VarType::Boolean));
    let g1a = gv_emit(g0, InstrV::AllocSlot { slot: t, ty: VarType::Boolean });
    assert(spec_gen_allocs(g1a, the_locals, 1) == g1a);
    assert(g1 == spec_gen_allocs(g1a, the_locals, 1));
    assert(g1 == gv_emit(g0, InstrV::AllocSlot { slot: t, ty: VarType::Boolean }));
    assert(g1.blocks[0].instructions =~= seq![
        InstrV::AllocSlot { slot: t, ty: VarType::Boolean },
    ]);
    assert(g1.cur == 0 && g1.blocks.len() == 1 && g1.next_reg == 0);

    // The lazy connective itself.
    let (ga, lr) = spec_gen_bool(g1, BooleanExpressionV::Literal(lv));
    assert(lr == Reg(0));
    assert(ga.blocks[0].instructions =~= seq![
        InstrV::AllocSlot { slot: t, ty: VarType::Boolean },
        InstrV::ConstBool { dst: Reg(0), value: lv },
    ]);
    assert(ga.blocks.len() == 1 && ga.cur == 0);
    let (gb, right_b) = gv_new_block(ga);
    let (gc, short_b) = gv_new_block(gb);
    let (gd, continue_b) = gv_new_block(gc);
    assert(right_b == 1usize && short_b == 2usize && continue_b == 3usize);
    let branch = match op {
        ir::BooleanOperator::And => Terminator::Branch {
            condition: lr,
            when_true: right_b,
            when_false: short_b,
        },
        ir::BooleanOperator::Or => Terminator::Branch {
            condition: lr,
            when_true: short_b,
            when_false: right_b,
        },
    };
    let g5 = gv_seal(gd, gd.cur as int, branch);
    assert(g5.blocks[0] == (BasicBlockV {
        instructions: ga.blocks[0].instructions,
        terminator: branch,
    }));
    assert(g5.blocks[2] == (BasicBlockV {
        instructions: Seq::<InstrV>::empty(),
        terminator: Terminator::Unreachable,
    }));
    assert(g5.blocks[3] == (BasicBlockV {
        instructions: Seq::<InstrV>::empty(),
        terminator: Terminator::Unreachable,
    }));
    let g6 = GenV { blocks: g5.blocks, cur: right_b, next_reg: g5.next_reg };
    lemma_gen_bool_frame(g6, right);
    let (g7, rr) = spec_gen_bool(g6, right);
    assert(g7.blocks[0] == g6.blocks[0] && g7.blocks[2] == g6.blocks[2] && g7.blocks[3]
        == g6.blocks[3]);
    assert(g7.cur == 1 || g7.cur >= 4);
    let g8 = gv_emit(g7, InstrV::Store { slot: t, src: rr });
    let g9 = gv_seal(g8, g8.cur as int, Terminator::Jump(continue_b));
    assert(g9.blocks[0] == g7.blocks[0] && g9.blocks[2] == g7.blocks[2] && g9.blocks[3]
        == g7.blocks[3]);
    let g10 = GenV { blocks: g9.blocks, cur: short_b, next_reg: g9.next_reg };
    let (g11, sr) = gv_fresh(g10);
    let g12 = gv_emit(g11, InstrV::ConstBool { dst: sr, value: lv });
    let g13 = gv_emit(g12, InstrV::Store { slot: t, src: sr });
    let g14 = gv_seal(g13, short_b as int, Terminator::Jump(continue_b));
    assert(g14.blocks[0] == g9.blocks[0] && g14.blocks[3] == g9.blocks[3]);
    assert(g14.blocks[2] == (BasicBlockV {
        instructions: Seq::<InstrV>::empty().push(InstrV::ConstBool { dst: sr, value: lv }).push(
            InstrV::Store { slot: t, src: sr },
        ),
        terminator: Terminator::Jump(3),
    }));
    let g15 = GenV { blocks: g14.blocks, cur: continue_b, next_reg: g14.next_reg };
    let (g16, res) = gv_fresh(g15);
    let g17 = gv_emit(g16, InstrV::Load { dst: res, slot: t, ty: VarType::Boolean });
    assert((g17, res) == spec_gen_bool(g1, opexpr));

    // The print statement appends the output call, then the function is
    // sealed with a return.
    let g18 = gv_emit(g17, InstrV::Output(OutputCallV::BoolFormat(res)));
    assert(g18 == spec_gen_statement(g1, the_body[0]));
    assert(spec_gen_statements(g1, the_body, 0) == spec_gen_statements(g18, the_body, 1));
    assert(spec_gen_statements(g18, the_body, 1) == g18);
    let g19 = gv_seal(g18, g18.cur as int, Terminator::Return);
    assert(f.blocks == g19.blocks);

    // The three blocks the run will enter.
    assert(g19.blocks[0] == (BasicBlockV {
        instructions: seq![
            InstrV::AllocSlot { slot: t, ty: VarType::Boolean },
            InstrV::ConstBool { dst: Reg(0), value: lv },
        ],
        terminator: branch,
    })) by {
        assert(g18.blocks[0] == g14.blocks[0]);
    }
    assert(g19.blocks[2] == g14.blocks[2]) by {
        assert(g18.blocks[2] == g14.blocks[2]);
    }
    assert(g19.blocks[3] == (BasicBlockV {
        instructions: Seq::<InstrV>::empty().push(
            InstrV::Load { dst: res, slot: t, ty: VarType::Boolean },
        ).push(InstrV::Output(OutputCallV::BoolFormat(res))),
        terminator: Terminator::Return,
    }));
    assert(f.blocks.len() >= 4);

    // Replay the run.
    let m0 = spec_initial_machine();
    let m0v = MachineV { visited: m0.visited.push(0usize), ..m0 };
    let m_a = MachineV { slots: m0v.slots.push((t.0, SlotState::Vacant(VarType::Boolean))), ..m0v };
    let m_b = MachineV { regs: m_a.regs.push((0usize, Value::Bool(lv))), ..m_a };
    assert(g19.blocks[0].instructions.len() == 2);
    assert(spec_step(m0v, g19.blocks[0].instructions[0]) == StepRes::Next(m_a));
    assert(spec_step(m_a, g19.blocks[0].instructions[1]) == StepRes::Next(m_b));
    assert(spec_run_instrs(m_b, g19.blocks[0].instructions, 2) == (m_b, None::<RunStatus>));
    assert(spec_run_instrs(m_a, g19.blocks[0].instructions, 1) == (m_b, None::<RunStatus>));
    assert(spec_run_instrs(m0v, g19.blocks[0].instructions, 0) == (m_b, None::<RunStatus>));
    assert(spec_read_assoc(m_b.regs, 0usize) == Some(Value::Bool(lv)));

    // The branch always takes the short-circuit block.
    assert(spec_run_block(f, 0, m0, fuel) == spec_run_block(f, 2, m_b, (fuel - 1) as nat));

    let m_c = MachineV { visited: m_b.visited.push(2usize), ..m_b };
    let m_d = MachineV { regs: m_c.regs.push((sr.0, Value::Bool(lv))), ..m_c };
    assert(g19.blocks[2].instructions.len() == 2);
    assert(spec_step(m_c, g19.blocks[2].instructions[0]) == StepRes::Next(m_d));
    assert(spec_read_assoc(m_d.regs, sr.0) == Some(Value::Bool(lv)));
    assert(spec_write_slot(m_d.slots, t.0, Value::Bool(lv)) == Some(
        m0.slots.push((t.0, SlotState::Stored(Value::Bool(lv)))),
    )) by {
        assert(m_d.slots == m0.slots.push((t.0, SlotState::Vacant(VarType::Boolean))));
    }
    let m_e = MachineV {
        slots: m0.slots.push((t.0, SlotState::Stored(Value::Bool(lv)))),
        ..m_d
    };
    assert(spec_step(m_d, g19.blocks[2].instructions[1]) == StepRes::Next(m_e));
    assert(spec_run_instrs(m_e, g19.blocks[2].instructions, 2) == (m_e, None::<RunStatus>));
    assert(spec_run_instrs(m_d, g19.blocks[2].instructions, 1) == (m_e, None::<RunStatus>));
    assert(spec_run_instrs(m_c, g19.blocks[2].instructions, 0) == (m_e, None::<RunStatus>));
    assert(spec_run_block(f, 2, m_b, (fuel - 1) as nat) == spec_run_block(
        f,
        3,
        m_e,
        (fuel - 2) as nat,
    ));

    let m_f = MachineV { visited: m_e.visited.push(3usize), ..m_e };
    assert(spec_read_assoc(m_f.slots, t.0) == Some(SlotState::Stored(Value::Bool(lv))));
    let m_g = MachineV { regs: m_f.regs.push((res.0, Value::Bool(lv))), ..m_f };
    assert(spec_step(m_f, g19.blocks[3].instructions[0]) == StepRes::Next(m_g));
    assert(spec_read_assoc(m_g.regs, res.0) == Some(Value::Bool(lv)));
    let m_h = MachineV { output: m_g.output + spec_bool_text(lv), ..m_g };
    assert(spec_step(m_g, g19.blocks[3].instructions[1]) == StepRes::Next(m_h));
    assert(g19.blocks[3].instructions.len() == 2);
    assert(spec_run_instrs(m_h, g19.blocks[3].instructions, 2) == (m_h, None::<RunStatus>));
    assert(spec_run_instrs(m_g, g19.blocks[3].instructions, 1) == (m_h, None::<RunStatus>));
    assert(spec_run_instrs(m_f, g19.blocks[3].instructions, 0) == (m_h, None::<RunStatus>));
    assert(spec_run_block(f, 3, m_e, (fuel - 2) as nat) == run_result(m_h, RunStatus::Success));

    assert(m_h.output =~= spec_bool_text(lv));
    assert(m_h.visited =~= seq![0usize, 2usize, 3usize]);
    assert(spec_run_module(cm, fuel) == run_result(m_h, RunStatus::Success));
}

/// The conjunction's direction of the short-circuit law: a statically
/// false left operand means the right operand is never evaluated.
pub proof fn lemma_short_circuit_and(right: BooleanExpressionV, t: VariableIdentifier, fuel: nat)
    requires
        fuel >= 3,
        spec_bool_blocks(right) + 4 <= usize::MAX,
    ensures
        ({
            let r = spec_run_module(
                spec_generate(short_circuit_module(ir::BooleanOperator::And, right, t)),
                fuel,
            );
            &&& r.status == RunStatus::Success
            &&& r.output == spec_bool_text(false)
            &&& !r.visited.contains(1usize)
        }),
{
    lemma_short_circuit(ir::BooleanOperator::And, right, t, fuel);
    let r = spec_run_module(
        spec_generate(short_circuit_module(ir::BooleanOperator::And, right, t)),
        fuel,
    );
    assert(!r.visited.contains(1usize)) by {
        assert(forall|j: int| 0 <= j < r.visited.len() ==> r.visited[j] != 1usize);
    }
}

/// The disjunction's direction of the short-circuit law: a statically
/// true left operand means the right operand is never evaluated.
pub proof fn lemma_short_circuit_or(right: BooleanExpressionV, t: VariableIdentifier, fuel: nat)
    requires
        fuel >= 3,
        spec_bool_blocks(right) + 4 <= usize::MAX,
    ensures
        ({
            let r = spec_run_module(
                spec_generate(short_circuit_module(ir::BooleanOperator::Or, right, t)),
                fuel,
            );
            &&& r.status == RunStatus::Success
            &&& r.output == spec_bool_text(true)
            &&& !r.visited.contains(1usize)
        }),
{
    lemma_short_circuit(ir::BooleanOperator::Or, right, t, fuel);
    let r = spec_run_module(
        spec_generate(short_circuit_module(ir::BooleanOperator::Or, right, t)),
        fuel,
    );
    assert(!r.visited.contains(1usize)) by {
        assert(forall|j: int| 0 <= j < r.visited.len() ==> r.visited[j] != 1usize);
    }
}

} // verus!
