use vstd::prelude::*;

use crate::cfg::{
    BasicBlock, BasicBlockV, CfgFunction, CfgFunctionV, CfgModule, CfgModuleV, Instr, InstrV,
    OutputCall, OutputCallV, Reg, RuntimeFn, Terminator,
};
use crate::ir;
use crate::ir::{BooleanExpressionV, ComparisonExpressionV, IntExpression, VarType,
    VariableIdentifier};
use crate::text::bump;
use crate::text::bump_usize;

verus! {

/// The state of a function body under construction: the blocks built so
/// far, the block instructions are currently appended to, and the next
/// virtual register.
pub struct GenV {
    pub blocks: Seq<BasicBlockV>,
    pub cur: usize,
    pub next_reg: usize,
}

/// A fresh virtual register.
pub open spec fn gv_fresh(g: GenV) -> (GenV, Reg) {
    (
        GenV { blocks: g.blocks, cur: g.cur, next_reg: bump(g.next_reg) },
        Reg(g.next_reg),
    )
}

/// Append one instruction to the current block.
pub open spec fn gv_emit(g: GenV, ins: InstrV) -> GenV {
    if g.cur < g.blocks.len() {
        GenV {
            blocks: g.blocks.update(
                g.cur as int,
                BasicBlockV {
                    instructions: g.blocks[g.cur as int].instructions.push(ins),
                    terminator: g.blocks[g.cur as int].terminator,
                },
            ),
            cur: g.cur,
            next_reg: g.next_reg,
        }
    } else {
        g
    }
}

/// Set the terminator of one block.
pub open spec fn gv_seal(g: GenV, b: int, t: Terminator) -> GenV {
    if 0 <= b < g.blocks.len() {
        GenV {
            blocks: g.blocks.update(
                b,
                BasicBlockV { instructions: g.blocks[b].instructions, terminator: t },
            ),
            cur: g.cur,
            next_reg: g.next_reg,
        }
    } else {
        g
    }
}

/// Append a fresh, still unterminated block and return its index.
pub open spec fn gv_new_block(g: GenV) -> (GenV, usize) {
    (
        GenV {
            blocks: g.blocks.push(
                BasicBlockV { instructions: Seq::empty(), terminator: Terminator::Unreachable },
            ),
            cur: g.cur,
            next_reg: g.next_reg,
        },
        g.blocks.len() as usize,
    )
}

/// Lower an integer expression into the current block; the result
/// register holds its value.
pub open spec fn spec_gen_int(g: GenV, e: IntExpression) -> (GenV, Reg)
    decreases e,
{
    match e {
        IntExpression::Literal(v) => {
            let (g1, r) = gv_fresh(g);
            (gv_emit(g1, InstrV::ConstInt { dst: r, value: v }), r)
        },
        IntExpression::Negate(inner) => {
            let (g1, r1) = spec_gen_int(g, *inner);
            let (g2, d) = gv_fresh(g1);
            (gv_emit(g2, InstrV::Negate { dst: d, operand: r1 }), d)
        },
        IntExpression::BinaryOperation(l, op, r) => {
            let (g1, rl) = spec_gen_int(g, *l);
            let (g2, rr) = spec_gen_int(g1, *r);
            let (g3, d) = gv_fresh(g2);
            (gv_emit(g3, InstrV::IntBinary { dst: d, op, left: rl, right: rr }), d)
        },
        IntExpression::Var(id) => {
            let (g1, d) = gv_fresh(g);
            (gv_emit(g1, InstrV::Load { dst: d, slot: id, ty: VarType::Int }), d)
        },
    }
}

/// Lower the links of a comparison chain: each link compares the previous
/// operand with its own, and the operand becomes the next link's left
/// side.  The single-bit results are collected in order.
pub open spec fn spec_gen_links(
    g: GenV,
    prev: Reg,
    chain: Seq<(ir::IntComparisonOp, IntExpression)>,
    k: int,
    parts: Seq<Reg>,
) -> (GenV, Seq<Reg>)
    decreases chain.len() - k,
{
    if 0 <= k < chain.len() {
        let (g1, rv) = spec_gen_int(g, chain[k].1);
        let (g2, c) = gv_fresh(g1);
        let g3 = gv_emit(g2, InstrV::Compare { dst: c, op: chain[k].0, left: prev, right: rv });
        spec_gen_links(g3, rv, chain, k + 1, parts.push(c))
    } else {
        (g, parts)
    }
}

/// Fold the collected link results with the eager single-bit conjunction,
/// left to right.
pub open spec fn spec_gen_fold(g: GenV, acc: Reg, parts: Seq<Reg>, k: int) -> (GenV, Reg)
    decreases parts.len() - k,
{
    if 0 <= k < parts.len() {
        let (g1, d) = gv_fresh(g);
        let g2 = gv_emit(g1, InstrV::BitAnd { dst: d, left: acc, right: parts[k] });
        spec_gen_fold(g2, d, parts, k + 1)
    } else {
        (g, acc)
    }
}

/// Lower a comparison chain: every link is evaluated, then the results
/// are folded eagerly.  An empty chain, which no parse produces, is the
/// constant truth.
pub open spec fn spec_gen_cmp(g: GenV, c: ComparisonExpressionV) -> (GenV, Reg) {
    match c {
        ComparisonExpressionV::IntComparison(left, chain) => {
            let (g1, r0) = spec_gen_int(g, left);
            let (g2, parts) = spec_gen_links(g1, r0, chain, 0, Seq::empty());
            if parts.len() == 0 {
                let (g3, d) = gv_fresh(g2);
                (gv_emit(g3, InstrV::ConstBool { dst: d, value: true }), d)
            } else {
                spec_gen_fold(g2, parts[0], parts, 1)
            }
        },
    }
}

/// Lower a boolean expression into the current block (and, for a lazy
/// connective, into a small diamond of new blocks).  For `&&` the right
/// operand is evaluated only when the left one is true; for `||` only
/// when it is false; the short-circuit path stores the absorbing constant
/// without evaluating the right operand, both paths store into the slot
/// the resolver reserved, and the continuation block loads that slot.
pub open spec fn spec_gen_bool(g: GenV, e: BooleanExpressionV) -> (GenV, Reg)
    decreases e,
{
    match e {
        BooleanExpressionV::Literal(b) => {
            let (g1, r) = gv_fresh(g);
            (gv_emit(g1, InstrV::ConstBool { dst: r, value: b }), r)
        },
        BooleanExpressionV::Not(inner) => {
            let (g1, r1) = spec_gen_bool(g, *inner);
            let (g2, d) = gv_fresh(g1);
            (gv_emit(g2, InstrV::Not { dst: d, operand: r1 }), d)
        },
        BooleanExpressionV::Comparison(c) => spec_gen_cmp(g, c),
        BooleanExpressionV::Var(id) => {
            let (g1, d) = gv_fresh(g);
            (gv_emit(g1, InstrV::Load { dst: d, slot: id, ty: VarType::Boolean }), d)
        },
        BooleanExpressionV::Operator(id, l, op, r) => {
            let (g1, lr) = spec_gen_bool(g, *l);
            let (g2, right_b) = gv_new_block(g1);
            let (g3, short_b) = gv_new_block(g2);
            let (g4, continue_b) = gv_new_block(g3);
            let branch = match op {
                ir::BooleanOperator::And => Terminator::Branch {
                    condition: lr,
                    when_true: right_b,
                    when_false: short_b,
                },
                ir::BooleanOperator::Or => Terminator::Branch {
                    condition: lr,
                    when_true: short_b,
                    when_false: right_b,
                },
            };
            let g5 = gv_seal(g4, g4.cur as int, branch);
            let g6 = GenV { blocks: g5.blocks, cur: right_b, next_reg: g5.next_reg };
            let (g7, rr) = spec_gen_bool(g6, *r);
            let g8 = gv_emit(g7, InstrV::Store { slot: id, src: rr });
            let g9 = gv_seal(g8, g8.cur as int, Terminator::Jump(continue_b));
            let g10 = GenV { blocks: g9.blocks, cur: short_b, next_reg: g9.next_reg };
            let (g11, sr) = gv_fresh(g10);
            let short_value = match op {
                ir::BooleanOperator::And => false,
                ir::BooleanOperator::Or => true,
            };
            let g12 = gv_emit(g11, InstrV::ConstBool { dst: sr, value: short_value });
            let g13 = gv_emit(g12, InstrV::Store { slot: id, src: sr });
            let g14 = gv_seal(g13, short_b as int, Terminator::Jump(continue_b));
            let g15 = GenV { blocks: g14.blocks, cur: continue_b, next_reg: g14.next_reg };
            let (g16, res) = gv_fresh(g15);
            let g17 = gv_emit(g16, InstrV::Load { dst: res, slot: id, ty: VarType::Boolean });
            (g17, res)
        },
    }
}

/// The diagnostic an assertion failure prints: the literal message if one
/// was written, a generic notice otherwise.
pub open spec fn spec_assert_msg(msg: Option<Seq<char>>) -> Seq<char> {
    match msg {
        Some(m) => "Assert failed: "@ + m + "\n"@,
        None => "Assert failed\n"@,
    }
}

/// Lower an assertion: true falls through to the continuation block;
/// false enters a failure block that prints the diagnostic, calls the
/// trapping abort, and ends in an unreachable terminator.
pub open spec fn spec_gen_assert(g: GenV, e: BooleanExpressionV, msg: Option<Seq<char>>) -> GenV {
    let (g1, cr) = spec_gen_bool(g, e);
    let (g2, fail_b) = gv_new_block(g1);
    let (g3, continue_b) = gv_new_block(g2);
    let g4 = gv_seal(
        g3,
        g3.cur as int,
        Terminator::Branch { condition: cr, when_true: continue_b, when_false: fail_b },
    );
    let g5 = GenV { blocks: g4.blocks, cur: fail_b, next_reg: g4.next_reg };
    let g6 = gv_emit(g5, InstrV::Output(OutputCallV::Text(spec_assert_msg(msg))));
    let g7 = gv_emit(g6, InstrV::CallAbort);
    let g8 = gv_seal(g7, fail_b as int, Terminator::Unreachable);
    GenV { blocks: g8.blocks, cur: continue_b, next_reg: g8.next_reg }
}

/// Lower one statement.
pub open spec fn spec_gen_statement(g: GenV, s: ir::StatementV) -> GenV {
    match s {
        ir::StatementV::Print(p) => match p {
            ir::PrintStatementV::Int(e) => {
                let (g1, r) = spec_gen_int(g, e);
                gv_emit(g1, InstrV::Output(OutputCallV::IntFormat(r)))
            },
            ir::PrintStatementV::Boolean(e) => {
                let (g1, r) = spec_gen_bool(g, e);
                gv_emit(g1, InstrV::Output(OutputCallV::BoolFormat(r)))
            },
        },
        ir::StatementV::Assert(e, msg) => spec_gen_assert(g, e, msg),
        ir::StatementV::Assignment(id, a) => match a {
            ir::AssignmentStatementV::Int(e) => {
                let (g1, r) = spec_gen_int(g, e);
                gv_emit(g1, InstrV::Store { slot: id, src: r })
            },
            ir::AssignmentStatementV::Boolean(e) => {
                let (g1, r) = spec_gen_bool(g, e);
                gv_emit(g1, InstrV::Store { slot: id, src: r })
            },
        },
    }
}

/// Lower the statements of a body in order.
pub open spec fn spec_gen_statements(g: GenV, body: Seq<ir::StatementV>, k: int) -> GenV
    decreases body.len() - k,
{
    if 0 <= k < body.len() {
        spec_gen_statements(spec_gen_statement(g, body[k]), body, k + 1)
    } else {
        g
    }
}

/// Allocate every local's storage slot, in table order, in the entry
/// block.
pub open spec fn spec_gen_allocs(
    g: GenV,
    locals: Seq<(VariableIdentifier, VarType)>,
    k: int,
) -> GenV
    decreases locals.len() - k,
{
    if 0 <= k < locals.len() {
        spec_gen_allocs(
            gv_emit(g, InstrV::AllocSlot { slot: locals[k].0, ty: locals[k].1 }),
            locals,
            k + 1,
        )
    } else {
        g
    }
}

/// Lower one resolved function: the entry block allocates every local up
/// front, the body statements emit in order, and the function returns a
/// success status at the end.
pub open spec fn spec_gen_function(t: ir::ToplevelStatementV) -> CfgFunctionV {
    match t {
        ir::ToplevelStatementV::Function { name, body, locals } => {
            let g0 = GenV {
                blocks: seq![
                    BasicBlockV { instructions: Seq::empty(), terminator: Terminator::Unreachable },
                ],
                cur: 0,
                next_reg: 0,
            };
            let g1 = spec_gen_allocs(g0, locals, 0);
            let g2 = spec_gen_statements(g1, body, 0);
            let g3 = gv_seal(g2, g2.cur as int, Terminator::Return);
            CfgFunctionV { name, blocks: g3.blocks }
        },
    }
}

/// Lower the functions of a module, in order.
pub open spec fn spec_gen_functions(tops: Seq<ir::ToplevelStatementV>, k: int) -> Seq<CfgFunctionV>
    decreases tops.len() - k,
{
    if 0 <= k < tops.len() {
        seq![spec_gen_function(tops[k])] + spec_gen_functions(tops, k + 1)
    } else {
        Seq::empty()
    }
}

/// Lower a whole resolved module: the two runtime primitives are
/// declared, then each function is emitted.
pub open spec fn spec_generate(m: ir::ModuleV) -> CfgModuleV {
    CfgModuleV {
        declarations: seq![RuntimeFn::FormattedOutput, RuntimeFn::TrappingAbort],
        functions: spec_gen_functions(m.0, 0),
    }
}

/// Lowering an integer expression only appends instructions to the
/// current block: every other block, the block layout, and the insertion
/// point are untouched.
pub proof fn lemma_gen_int_frame(g: GenV, e: IntExpression)
    ensures
        ({
            let (g1, _) = spec_gen_int(g, e);
            &&& g1.cur == g.cur
            &&& g1.blocks.len() == g.blocks.len()
            &&& forall|b: int|
                0 <= b < g.blocks.len() && b != g.cur ==> g1.blocks[b] == g.blocks[b]
            &&& forall|b: int|
                0 <= b < g.blocks.len() ==> (#[trigger] g1.blocks[b]).terminator
                    == g.blocks[b].terminator
        }),
    decreases e,
{
    match e {
        IntExpression::Literal(_) => {},
        IntExpression::Negate(inner) => {
            lemma_gen_int_frame(g, *inner);
        },
        IntExpression::BinaryOperation(l, _, r) => {
            lemma_gen_int_frame(g, *l);
            let (g1, _) = spec_gen_int(g, *l);
            lemma_gen_int_frame(g1, *r);
        },
        IntExpression::Var(_) => {},
    }
}

/// Lowering the links of a comparison chain has the same frame as one
/// integer expression.
pub proof fn lemma_gen_links_frame(
    g: GenV,
    prev: Reg,
    chain: Seq<(ir::IntComparisonOp, IntExpression)>,
    k: int,
    parts: Seq<Reg>,
)
    ensures
        ({
            let (g1, _) = spec_gen_links(g, prev, chain, k, parts);
            &&& g1.cur == g.cur
            &&& g1.blocks.len() == g.blocks.len()
            &&& forall|b: int|
                0 <= b < g.blocks.len() && b != g.cur ==> g1.blocks[b] == g.blocks[b]
            &&& forall|b: int|
                0 <= b < g.blocks.len() ==> (#[trigger] g1.blocks[b]).terminator
                    == g.blocks[b].terminator
        }),
    decreases chain.len() - k,
{
    if 0 <= k < chain.len() {
        lemma_gen_int_frame(g, chain[k].1);
        let (g1, rv) = spec_gen_int(g, chain[k].1);
        let (g2, c) = gv_fresh(g1);
        let g3 = gv_emit(g2, InstrV::Compare { dst: c, op: chain[k].0, left: prev, right: rv });
        lemma_gen_links_frame(g3, rv, chain, k + 1, parts.push(c));
    }
}

/// Folding the link results has the same frame.
pub proof fn lemma_gen_fold_frame(g: GenV, acc: Reg, parts: Seq<Reg>, k: int)
    ensures
        ({
            let (g1, _) = spec_gen_fold(g, acc, parts, k);
            &&& g1.cur == g.cur
            &&& g1.blocks.len() == g.blocks.len()
            &&& forall|b: int|
                0 <= b < g.blocks.len() && b != g.cur ==> g1.blocks[b] == g.blocks[b]
            &&& forall|b: int|
                0 <= b < g.blocks.len() ==> (#[trigger] g1.blocks[b]).terminator
                    == g.blocks[b].terminator
        }),
    decreases parts.len() - k,
{
    if 0 <= k < parts.len() {
        let (g1, d) = gv_fresh(g);
        let g2 = gv_emit(g1, InstrV::BitAnd { dst: d, left: acc, right: parts[k] });
        lemma_gen_fold_frame(g2, d, parts, k + 1);
    }
}

/// Lowering a comparison chain has the same frame.
pub proof fn lemma_gen_cmp_frame(g: GenV, c: ComparisonExpressionV)
    ensures
        ({
            let (g1, _) = spec_gen_cmp(g, c);
            &&& g1.cur == g.cur
            &&& g1.blocks.len() == g.blocks.len()
            &&& forall|b: int|
                0 <= b < g.blocks.len() && b != g.cur ==> g1.blocks[b] == g.blocks[b]
            &&& forall|b: int|
                0 <= b < g.blocks.len() ==> (#[trigger] g1.blocks[b]).terminator
                    == g.blocks[b].terminator
        }),
{
    match c {
        ComparisonExpressionV::IntComparison(left, chain) => {
            lemma_gen_int_frame(g, left);
            let (g1, r0) = spec_gen_int(g, left);
            lemma_gen_links_frame(g1, r0, chain, 0, Seq::empty());
            let (g2, parts) = spec_gen_links(g1, r0, chain, 0, Seq::empty());
            if parts.len() != 0 {
                lemma_gen_fold_frame(g2, parts[0], parts, 1);
            }
        },
    }
}

/// How many blocks lowering a boolean expression appends: three per lazy
/// connective.
pub open spec fn spec_bool_blocks(e: BooleanExpressionV) -> nat
    decreases e,
{
    match e {
        BooleanExpressionV::Literal(_) => 0,
        BooleanExpressionV::Not(inner) => spec_bool_blocks(*inner),
        BooleanExpressionV::Comparison(_) => 0,
        BooleanExpressionV::Var(_) => 0,
        BooleanExpressionV::Operator(_, l, _, r) => 3 + spec_bool_blocks(*l) + spec_bool_blocks(
            *r,
        ),
    }
}

/// Lowering a boolean expression touches only the block it starts in and
/// blocks it creates itself: every block that existed before and is not
/// the insertion point comes through unchanged, and the insertion point
/// ends on the starting block or on a new one.
pub proof fn lemma_gen_bool_frame(g: GenV, e: BooleanExpressionV)
    requires
        g.blocks.len() + spec_bool_blocks(e) <= usize::MAX,
    ensures
        ({
            let (g1, _) = spec_gen_bool(g, e);
            &&& g1.blocks.len() == g.blocks.len() + spec_bool_blocks(e)
            &&& forall|b: int|
                0 <= b < g.blocks.len() && b != g.cur ==> g1.blocks[b] == g.blocks[b]
            &&& g1.cur == g.cur || g1.cur >= g.blocks.len()
            &&& g.cur < g.blocks.len() ==> g1.cur < g1.blocks.len()
        }),
    decreases e,
{
    match e {
        BooleanExpressionV::Literal(_) => {},
        BooleanExpressionV::Not(inner) => {
            lemma_gen_bool_frame(g, *inner);
        },
        BooleanExpressionV::Comparison(c) => {
            lemma_gen_cmp_frame(g, c);
        },
        BooleanExpressionV::Var(_) => {},
        BooleanExpressionV::Operator(id, l, op, r) => {
            lemma_gen_bool_frame(g, *l);
            let (g1, lr) = spec_gen_bool(g, *l);
            let (g2, right_b) = gv_new_block(g1);
            let (g3, short_b) = gv_new_block(g2);
            let (g4, continue_b) = gv_new_block(g3);
            let branch = match op {
                ir::BooleanOperator::And => Terminator::Branch {
                    condition: lr,
                    when_true: right_b,
                    when_false: short_b,
                },
                ir::BooleanOperator::Or => Terminator::Branch {
                    condition: lr,
                    when_true: short_b,
                    when_false: right_b,
                },
            };
            let g5 = gv_seal(g4, g4.cur as int, branch);
            let g6 = GenV { blocks: g5.blocks, cur: right_b, next_reg: g5.next_reg };
            lemma_gen_bool_frame(g6, *r);
            let (g7, rr) = spec_gen_bool(g6, *r);
            let g8 = gv_emit(g7, InstrV::Store { slot: id, src: rr });
            let g9 = gv_seal(g8, g8.cur as int, Terminator::Jump(continue_b));
            let g10 = GenV { blocks: g9.blocks, cur: short_b, next_reg: g9.next_reg };
            let (g11, sr) = gv_fresh(g10);
            let short_value = match op {
                ir::BooleanOperator::And => false,
                ir::BooleanOperator::Or => true,
            };
            let g12 = gv_emit(g11, InstrV::ConstBool { dst: sr, value: short_value });
            let g13 = gv_emit(g12, InstrV::Store { slot: id, src: sr });
            let g14 = gv_seal(g13, short_b as int, Terminator::Jump(continue_b));
            let g15 = GenV { blocks: g14.blocks, cur: continue_b, next_reg: g14.next_reg };
            let (g16, res) = gv_fresh(g15);
            let g17 = gv_emit(g16, InstrV::Load { dst: res, slot: id, ty: VarType::Boolean });
            assert(right_b >= g.blocks.len());
            assert(short_b >= g.blocks.len());
            assert(continue_b >= g.blocks.len());
            assert forall|b: int|
                0 <= b < g.blocks.len() && b != g.cur implies g5.blocks[b] == g.blocks[b] by {
                assert(g4.blocks[b] == g1.blocks[b]);
                assert(g1.blocks[b] == g.blocks[b]);
                assert(g4.cur == g1.cur);
                assert(g1.cur == g.cur || g1.cur >= g.blocks.len());
            }
            assert(g6.cur >= g.blocks.len());
            assert forall|b: int|
                0 <= b < g.blocks.len() && b != g.cur implies g7.blocks[b] == g.blocks[b] by {
                assert(b < g6.blocks.len());
                assert(b != g6.cur);
                assert(g7.blocks[b] == g6.blocks[b]);
            }
            assert(g7.cur >= g.blocks.len());
            assert(g7.blocks.len() >= g6.blocks.len());
            assert forall|b: int|
                0 <= b < g.blocks.len() && b != g.cur implies g9.blocks[b] == g.blocks[b] by {
                assert(g8.blocks[b] == g7.blocks[b]);
            }
            assert forall|b: int|
                0 <= b < g.blocks.len() && b != g.cur implies g14.blocks[b] == g9.blocks[b] by {
                assert(g13.blocks[b] == g9.blocks[b]);
            }
            assert forall|b: int|
                0 <= b < g.blocks.len() && b != g.cur implies g17.blocks[b] == g14.blocks[b] by {
            }
            assert(g17.blocks.len() >= g9.blocks.len() >= g7.blocks.len() >= g6.blocks.len()
                >= g.blocks.len());
            assert(g17.cur == continue_b);
            assert(continue_b < g4.blocks.len());
        },
    }
}

/// The code generator: the declarations and functions emitted so far,
/// and the working state of the function being lowered.
pub struct CodeGen {
    pub declarations: Vec<RuntimeFn>,
    pub functions: Vec<CfgFunction>,
    pub blocks: Vec<BasicBlock>,
    pub cur: usize,
    pub next_reg: usize,
}

impl CodeGen {
    /// The model of the working state.
    pub open spec fn gv(&self) -> GenV {
        GenV { blocks: self.blocks.deep_view(), cur: self.cur, next_reg: self.next_reg }
    }

    /// A fresh code generator.
    pub fn new() -> (c: CodeGen)
        ensures
            c.declarations.deep_view() == Seq::<RuntimeFn>::empty(),
            c.functions.deep_view() == Seq::<CfgFunctionV>::empty(),
            c.declarations@.len() == 0,
            c.functions@.len() == 0,
    {
        let c = CodeGen {
            declarations: Vec::new(),
            functions: Vec::new(),
            blocks: Vec::new(),
            cur: 0,
            next_reg: 0,
        };
        proof {
            assert(c.declarations.deep_view() =~= Seq::<RuntimeFn>::empty());
            assert(c.functions.deep_view() =~= Seq::<CfgFunctionV>::empty());
        }
        c
    }

    /// A fresh virtual register.
    fn fresh_reg(&mut self) -> (r: Reg)
        ensures
            ({
                let p = gv_fresh(old(self).gv());
                final(self).gv() == p.0 && r == p.1
            }),
            final(self).declarations == old(self).declarations,
            final(self).functions == old(self).functions,
            final(self).blocks == old(self).blocks,
            final(self).cur == old(self).cur,
    {
        let r = Reg(self.next_reg);
        self.next_reg = bump_usize(self.next_reg);
        r
    }

    /// Append one instruction to the current block.
    fn emit(&mut self, ins: Instr)
        requires
            old(self).cur < old(self).blocks@.len(),
        ensures
            final(self).gv() == gv_emit(old(self).gv(), ins@),
            final(self).declarations == old(self).declarations,
            final(self).functions == old(self).functions,
            final(self).cur == old(self).cur,
            final(self).next_reg == old(self).next_reg,
            final(self).blocks@.len() == old(self).blocks@.len(),
    {
        let c = self.cur;
        let ghost blocks0 = self.blocks.deep_view();
        let ghost inner0 = self.blocks@[c as int].instructions.deep_view();
        self.blocks[c].instructions.push(ins);
        proof {
            assert(self.blocks@[c as int].instructions.deep_view() =~= inner0.push(ins@));
            assert(self.blocks.deep_view() =~= blocks0.update(
                c as int,
                BasicBlockV {
                    instructions: blocks0[c as int].instructions.push(ins@),
                    terminator: blocks0[c as int].terminator,
                },
            ));
        }
    }

    /// Set the terminator of one block.
    fn seal(&mut self, b: usize, t: Terminator)
        requires
            b < old(self).blocks@.len(),
        ensures
            final(self).gv() == gv_seal(old(self).gv(), b as int, t),
            final(self).declarations == old(self).declarations,
            final(self).functions == old(self).functions,
            final(self).cur == old(self).cur,
            final(self).next_reg == old(self).next_reg,
            final(self).blocks@.len() == old(self).blocks@.len(),
    {
        let ghost blocks0 = self.blocks.deep_view();
        self.blocks[b].terminator = t;
        proof {
            assert(self.blocks.deep_view() =~= blocks0.update(
                b as int,
                BasicBlockV { instructions: blocks0[b as int].instructions, terminator: t },
            ));
        }
    }

    /// Append a fresh block and return its index.
    fn new_block(&mut self) -> (b: usize)
        ensures
            ({
                let p = gv_new_block(old(self).gv());
                final(self).gv() == p.0 && b == p.1
            }),
            final(self).declarations == old(self).declarations,
            final(self).functions == old(self).functions,
            final(self).cur == old(self).cur,
            final(self).next_reg == old(self).next_reg,
            final(self).blocks@.len() == old(self).blocks@.len() + 1,
    {
        let b = self.blocks.len();
        let ghost blocks0 = self.blocks.deep_view();
        let nb = BasicBlock { instructions: Vec::new(), terminator: Terminator::Unreachable };
        proof {
            assert(nb.instructions.deep_view() =~= Seq::<InstrV>::empty());
            assert(nb@ == (BasicBlockV {
                instructions: Seq::<InstrV>::empty(),
                terminator: Terminator::Unreachable,
            }));
        }
        self.blocks.push(nb);
        proof {
            assert(self.blocks.deep_view() =~= blocks0.push(
                BasicBlockV { instructions: Seq::empty(), terminator: Terminator::Unreachable },
            ));
        }
        b
    }

    /// Lower an integer expression.
    fn compile_int_expression(&mut self, expression: &IntExpression) -> (r: Reg)
        requires
            old(self).cur < old(self).blocks@.len(),
        ensures
            ({
                let p = spec_gen_int(old(self).gv(), *expression);
                final(self).gv() == p.0 && r == p.1
            }),
            final(self).declarations == old(self).declarations,
            final(self).functions == old(self).functions,
            final(self).cur == old(self).cur,
            final(self).blocks@.len() == old(self).blocks@.len(),
        decreases *expression,
    {
        match expression {
            IntExpression::Literal(v) => {
                let r = self.fresh_reg();
                self.emit(Instr::ConstInt { dst: r, value: *v });
                r
            },
            IntExpression::Negate(inner) => {
                let r1 = self.compile_int_expression(inner);
                let d = self.fresh_reg();
                self.emit(Instr::Negate { dst: d, operand: r1 });
                d
            },
            IntExpression::BinaryOperation(l, op, r) => {
                let rl = self.compile_int_expression(l);
                let rr = self.compile_int_expression(r);
                let d = self.fresh_reg();
                self.emit(Instr::IntBinary { dst: d, op: *op, left: rl, right: rr });
                d
            },
            IntExpression::Var(id) => {
                let d = self.fresh_reg();
                self.emit(Instr::Load { dst: d, slot: *id, ty: VarType::Int });
                d
            },
        }
    }

    /// Lower the links of a comparison chain from position `k` onward.
    fn compile_links(
        &mut self,
        prev: Reg,
        chain: &Vec<(ir::IntComparisonOp, IntExpression)>,
        k: usize,
        parts: Vec<Reg>,
    ) -> (out: Vec<Reg>)
        requires
            old(self).cur < old(self).blocks@.len(),
            k <= chain@.len(),
        ensures
            ({
                let p = spec_gen_links(
                    old(self).gv(),
                    prev,
                    chain.deep_view(),
                    k as int,
                    parts.deep_view(),
                );
                final(self).gv() == p.0 && out.deep_view() == p.1
            }),
            final(self).declarations == old(self).declarations,
            final(self).functions == old(self).functions,
            final(self).cur == old(self).cur,
            final(self).blocks@.len() == old(self).blocks@.len(),
        decreases chain@.len() - k,
    {
        if k < chain.len() {
            let rv = self.compile_int_expression(&chain[k].1);
            let c = self.fresh_reg();
            self.emit(Instr::Compare { dst: c, op: chain[k].0, left: prev, right: rv });
            let ghost parts0 = parts.deep_view();
            let mut parts2 = parts;
            parts2.push(c);
            proof {
                assert(parts2.deep_view() =~= parts0.push(c));
            }
            self.compile_links(rv, chain, k + 1, parts2)
        } else {
            parts
        }
    }

    /// Fold the link results with the eager conjunction.
    fn compile_fold(&mut self, acc: Reg, parts: &Vec<Reg>, k: usize) -> (r: Reg)
        requires
            old(self).cur < old(self).blocks@.len(),
            k <= parts@.len(),
        ensures
            ({
                let p = spec_gen_fold(old(self).gv(), acc, parts.deep_view(), k as int);
                final(self).gv() == p.0 && r == p.1
            }),
            final(self).declarations == old(self).declarations,
            final(self).functions == old(self).functions,
            final(self).cur == old(self).cur,
            final(self).blocks@.len() == old(self).blocks@.len(),
        decreases parts@.len() - k,
    {
        if k < parts.len() {
            let d = self.fresh_reg();
            self.emit(Instr::BitAnd { dst: d, left: acc, right: parts[k] });
            self.compile_fold(d, parts, k + 1)
        } else {
            acc
        }
    }

    /// Lower a comparison chain.
    fn compile_comparison(&mut self, comparison: &ir::ComparisonExpression) -> (r: Reg)
        requires
            old(self).cur < old(self).blocks@.len(),
        ensures
            ({
                let p = spec_gen_cmp(old(self).gv(), comparison@);
                final(self).gv() == p.0 && r == p.1
            }),
            final(self).declarations == old(self).declarations,
            final(self).functions == old(self).functions,
            final(self).cur == old(self).cur,
            final(self).blocks@.len() == old(self).blocks@.len(),
    {
        match comparison {
            ir::ComparisonExpression::IntComparison(left, chain) => {
                let r0 = self.compile_int_expression(left);
                let empty_parts: Vec<Reg> = Vec::new();
                proof {
                    assert(empty_parts.deep_view() =~= Seq::<Reg>::empty());
                }
                let parts = self.compile_links(r0, chain, 0, empty_parts);
                if parts.len() == 0 {
                    let d = self.fresh_reg();
                    self.emit(Instr::ConstBool { dst: d, value: true });
                    d
                } else {
                    let first = parts[0];
                    self.compile_fold(first, &parts, 1)
                }
            },
        }
    }

    /// Lower a boolean expression.
    fn compile_bool_expression(&mut self, expression: &ir::BooleanExpression) -> (r: Reg)
        requires
            old(self).cur < old(self).blocks@.len(),
        ensures
            ({
                let p = spec_gen_bool(old(self).gv(), expression@);
                final(self).gv() == p.0 && r == p.1
            }),
            final(self).declarations == old(self).declarations,
            final(self).functions == old(self).functions,
            final(self).cur < final(self).blocks@.len(),
            final(self).blocks@.len() >= old(self).blocks@.len(),
        decreases *expression,
    {
        match expression {
            ir::BooleanExpression::Literal(b) => {
                let r = self.fresh_reg();
                self.emit(Instr::ConstBool { dst: r, value: *b });
                r
            },
            ir::BooleanExpression::Not(inner) => {
                let r1 = self.compile_bool_expression(inner);
                let d = self.fresh_reg();
                self.emit(Instr::Not { dst: d, operand: r1 });
                d
            },
            ir::BooleanExpression::Comparison(c) => self.compile_comparison(c),
            ir::BooleanExpression::Var(id) => {
                let d = self.fresh_reg();
                self.emit(Instr::Load { dst: d, slot: *id, ty: VarType::Boolean });
                d
            },
            ir::BooleanExpression::Operator(id, l, op, r) => {
                let lr = self.compile_bool_expression(l);
                let right_b = self.new_block();
                let short_b = self.new_block();
                let continue_b = self.new_block();
                let branch = match op {
                    ir::BooleanOperator::And => Terminator::Branch {
                        condition: lr,
                        when_true: right_b,
                        when_false: short_b,
                    },
                    ir::BooleanOperator::Or => Terminator::Branch {
                        condition: lr,
                        when_true: short_b,
                        when_false: right_b,
                    },
                };
                let c = self.cur;
                self.seal(c, branch);
                self.cur = right_b;
                let rr = self.compile_bool_expression(r);
                self.emit(Instr::Store { slot: *id, src: rr });
                let c2 = self.cur;
                self.seal(c2, Terminator::Jump(continue_b));
                self.cur = short_b;
                let sr = self.fresh_reg();
                let short_value = match op {
                    ir::BooleanOperator::And => false,
                    ir::BooleanOperator::Or => true,
                };
                self.emit(Instr::ConstBool { dst: sr, value: short_value });
                self.emit(Instr::Store { slot: *id, src: sr });
                self.seal(short_b, Terminator::Jump(continue_b));
                self.cur = continue_b;
                let res = self.fresh_reg();
                self.emit(Instr::Load { dst: res, slot: *id, ty: VarType::Boolean });
                res
            },
        }
    }

    /// Lower a print statement: the operand's static type selects the
    /// format template handed to the output primitive.
    fn compile_print_statement(&mut self, statement: &ir::PrintStatement)
        requires
            old(self).cur < old(self).blocks@.len(),
        ensures
            final(self).gv() == spec_gen_statement(old(self).gv(), ir::StatementV::Print(
                statement@,
            )),
            final(self).declarations == old(self).declarations,
            final(self).functions == old(self).functions,
            final(self).cur < final(self).blocks@.len(),
    {
        match statement {
            ir::PrintStatement::Int(e) => {
                let r = self.compile_int_expression(e);
                self.emit(Instr::Output(OutputCall::IntFormat(r)));
            },
            ir::PrintStatement::Boolean(e) => {
                let r = self.compile_bool_expression(e);
                self.emit(Instr::Output(OutputCall::BoolFormat(r)));
            },
        }
    }

    /// Emit a call of the output primitive with a fixed text.
    fn compile_const_printf(&mut self, msg: String)
        requires
            old(self).cur < old(self).blocks@.len(),
        ensures
            final(self).gv() == gv_emit(old(self).gv(), InstrV::Output(OutputCallV::Text(msg@))),
            final(self).declarations == old(self).declarations,
            final(self).functions == old(self).functions,
            final(self).cur == old(self).cur,
            final(self).blocks@.len() == old(self).blocks@.len(),
    {
        self.emit(Instr::Output(OutputCall::Text(msg)));
    }

    /// Lower an assertion.
    fn compile_assert(&mut self, expression: &ir::BooleanExpression, message: &Option<String>)
        requires
            old(self).cur < old(self).blocks@.len(),
        ensures
            final(self).gv() == spec_gen_assert(
                old(self).gv(),
                expression@,
                match message {
                    Some(m) => Some(m@),
                    None => None,
                },
            ),
            final(self).declarations == old(self).declarations,
            final(self).functions == old(self).functions,
            final(self).cur < final(self).blocks@.len(),
    {
        let cr = self.compile_bool_expression(expression);
        let fail_b = self.new_block();
        let continue_b = self.new_block();
        let c = self.cur;
        self.seal(
            c,
            Terminator::Branch { condition: cr, when_true: continue_b, when_false: fail_b },
        );
        self.cur = fail_b;
        let msg = match message {
            Some(m) => String::from_str("Assert failed: ").concat(m.as_str()).concat("\n"),
            None => String::from_str("Assert failed\n"),
        };
        self.compile_const_printf(msg);
        self.emit(Instr::CallAbort);
        self.seal(fail_b, Terminator::Unreachable);
        self.cur = continue_b;
    }

    /// Lower one statement.
    fn compile_statement(&mut self, statement: &ir::Statement)
        requires
            old(self).cur < old(self).blocks@.len(),
        ensures
            final(self).gv() == spec_gen_statement(old(self).gv(), statement@),
            final(self).declarations == old(self).declarations,
            final(self).functions == old(self).functions,
            final(self).cur < final(self).blocks@.len(),
    {
        match statement {
            ir::Statement::Print(p) => self.compile_print_statement(p),
            ir::Statement::Assert(e, m) => self.compile_assert(e, m),
            ir::Statement::Assignment(id, a) => match a {
                ir::AssignmentStatement::Int(e) => {
                    let r = self.compile_int_expression(e);
                    self.emit(Instr::Store { slot: *id, src: r });
                },
                ir::AssignmentStatement::Boolean(e) => {
                    let r = self.compile_bool_expression(e);
                    self.emit(Instr::Store { slot: *id, src: r });
                },
            },
        }
    }

    /// Lower the statements of a body from position `k` onward.
    fn compile_statements(&mut self, body: &Vec<ir::Statement>, k: usize)
        requires
            old(self).cur < old(self).blocks@.len(),
            k <= body@.len(),
        ensures
            final(self).gv() == spec_gen_statements(old(self).gv(), body.deep_view(), k as int),
            final(self).declarations == old(self).declarations,
            final(self).functions == old(self).functions,
            final(self).cur < final(self).blocks@.len(),
        decreases body@.len() - k,
    {
        if k < body.len() {
            self.compile_statement(&body[k]);
            self.compile_statements(body, k + 1);
        }
    }

    /// Allocate the locals' slots from position `k` onward.
    fn compile_allocs(&mut self, locals: &Vec<(VariableIdentifier, VarType)>, k: usize)
        requires
            old(self).cur < old(self).blocks@.len(),
            k <= locals@.len(),
        ensures
            final(self).gv() == spec_gen_allocs(old(self).gv(), locals.deep_view(), k as int),
            final(self).declarations == old(self).declarations,
            final(self).functions == old(self).functions,
            final(self).cur == old(self).cur,
            final(self).blocks@.len() == old(self).blocks@.len(),
        decreases locals@.len() - k,
    {
        if k < locals.len() {
            self.emit(Instr::AllocSlot { slot: locals[k].0, ty: locals[k].1 });
            self.compile_allocs(locals, k + 1);
        }
    }

    /// Declare the runtime primitives the generated code calls.
    fn compile_libc_definitions(&mut self)
        ensures
            final(self).declarations.deep_view() == old(self).declarations.deep_view() + seq![
                RuntimeFn::FormattedOutput,
                RuntimeFn::TrappingAbort,
            ],
            final(self).functions == old(self).functions,
            final(self).blocks == old(self).blocks,
            final(self).cur == old(self).cur,
            final(self).next_reg == old(self).next_reg,
    {
        let ghost d0 = self.declarations.deep_view();
        self.declarations.push(RuntimeFn::FormattedOutput);
        self.declarations.push(RuntimeFn::TrappingAbort);
        proof {
            assert(self.declarations.deep_view() =~= d0 + seq![
                RuntimeFn::FormattedOutput,
                RuntimeFn::TrappingAbort,
            ]);
        }
    }

    /// Lower one resolved function and append it to the module.
    fn compile_top_level_statement(&mut self, statement: &ir::ToplevelStatement)
        ensures
            final(self).functions.deep_view() == old(self).functions.deep_view() + seq![
                spec_gen_function(statement@),
            ],
            final(self).declarations == old(self).declarations,
    {
        match statement {
            ir::ToplevelStatement::Function { name, body, locals } => {
                let mut blocks: Vec<BasicBlock> = Vec::new();
                let entry = BasicBlock {
                    instructions: Vec::new(),
                    terminator: Terminator::Unreachable,
                };
                proof {
                    assert(entry.instructions.deep_view() =~= Seq::<InstrV>::empty());
                    assert(entry@ == (BasicBlockV {
                        instructions: Seq::<InstrV>::empty(),
                        terminator: Terminator::Unreachable,
                    }));
                }
                blocks.push(entry);
                self.blocks = blocks;
                self.cur = 0;
                self.next_reg = 0;
                proof {
                    assert(self.gv().blocks =~= seq![
                        BasicBlockV {
                            instructions: Seq::<InstrV>::empty(),
                            terminator: Terminator::Unreachable,
                        },
                    ]);
                }
                self.compile_allocs(locals, 0);
                self.compile_statements(body, 0);
                let c = self.cur;
                self.seal(c, Terminator::Return);
                let mut finished: Vec<BasicBlock> = Vec::new();
                core::mem::swap(&mut finished, &mut self.blocks);
                let f = CfgFunction { name: name.clone(), blocks: finished };
                let ghost fns0 = self.functions.deep_view();
                self.functions.push(f);
                proof {
                    assert(self.functions.deep_view() =~= fns0 + seq![
                        spec_gen_function(statement@),
                    ]);
                }
            },
        }
    }

    /// Lower the functions of a module from position `k` onward.
    fn compile_functions(&mut self, tops: &Vec<ir::ToplevelStatement>, k: usize)
        requires
            k <= tops@.len(),
        ensures
            final(self).functions.deep_view() == old(self).functions.deep_view()
                + spec_gen_functions(tops.deep_view(), k as int),
            final(self).declarations == old(self).declarations,
        decreases tops@.len() - k,
    {
        if k < tops.len() {
            self.compile_top_level_statement(&tops[k]);
            self.compile_functions(tops, k + 1);
            proof {
                assert(old(self).functions.deep_view() + spec_gen_functions(
                    tops.deep_view(),
                    k as int,
                ) =~= (old(self).functions.deep_view() + seq![
                    spec_gen_function(tops.deep_view()[k as int]),
                ]) + spec_gen_functions(tops.deep_view(), k as int + 1));
            }
        } else {
            proof {
                assert(old(self).functions.deep_view() + spec_gen_functions(
                    tops.deep_view(),
                    k as int,
                ) =~= old(self).functions.deep_view());
            }
        }
    }

    /// Lower a whole resolved module.
    pub fn compile_module(&mut self, module: &ir::Module)
        requires
            old(self).declarations@.len() == 0,
            old(self).functions@.len() == 0,
        ensures
            final(self).artifact() == spec_generate(module@),
    {
        proof {
            assert(old(self).declarations.deep_view() =~= Seq::<RuntimeFn>::empty());
            assert(old(self).functions.deep_view() =~= Seq::<CfgFunctionV>::empty());
        }
        self.compile_libc_definitions();
        self.compile_functions(&module.0, 0);
        proof {
            assert(Seq::<RuntimeFn>::empty() + seq![
                RuntimeFn::FormattedOutput,
                RuntimeFn::TrappingAbort,
            ] =~= seq![RuntimeFn::FormattedOutput, RuntimeFn::TrappingAbort]);
            assert(Seq::<CfgFunctionV>::empty() + spec_gen_functions(module.0.deep_view(), 0)
                =~= spec_gen_functions(module.0.deep_view(), 0));
        }
    }

    /// The model of the module artifact built so far.
    pub open spec fn artifact(&self) -> CfgModuleV {
        CfgModuleV {
            declarations: self.declarations.deep_view(),
            functions: self.functions.deep_view(),
        }
    }

    /// Hand the finished module artifact out.
    pub fn into_module(self) -> (m: CfgModule)
        ensures
            m@ == self.artifact(),
    {
        CfgModule { declarations: self.declarations, functions: self.functions }
    }
}

} // verus!
