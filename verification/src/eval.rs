use vstd::prelude::*;

use crate::cfg::{CfgFunctionV, CfgModule, CfgModuleV, InstrV, OutputCallV, Reg, Terminator};
use crate::ir::{IntBinaryOp, IntComparisonOp, VarType};
use crate::text::{chars_of, decimal_i32, spec_decimal_i32};

verus! {

/// A runtime value of the target machine: a 32-bit integer or a single
/// bit.
#[derive(Debug, PartialEq, Eq, Clone, Copy, Structural)]
pub enum Value {
    Int(i32),
    Bool(bool),
}

impl DeepView for Value {
    type V = Value;

    open spec fn deep_view(&self) -> Value {
        *self
    }
}

/// The state of one storage slot: reserved but not yet written, or
/// holding a value.
#[derive(Debug, PartialEq, Eq, Clone, Copy, Structural)]
pub enum SlotState {
    Vacant(VarType),
    Stored(Value),
}

impl DeepView for SlotState {
    type V = SlotState;

    open spec fn deep_view(&self) -> SlotState {
        *self
    }
}

/// How a run ended.  `Stuck` covers every operation the target machine
/// leaves undefined: an unallocated or unwritten slot, an unwritten
/// register, a type confusion, an `unreachable` terminator, and a
/// division whose native result is undefined.
#[derive(Debug, PartialEq, Eq, Clone, Copy, Structural)]
pub enum RunStatus {
    Success,
    Aborted,
    OutOfFuel,
    Stuck,
}

/// What a finished run produced: everything the program printed, the
/// blocks it entered in order, and how it ended.
#[derive(Debug)]
pub struct RunResult {
    pub output: Vec<char>,
    pub visited: Vec<usize>,
    pub status: RunStatus,
}

/// Mathematical model of a finished run.
pub struct RunResultV {
    pub output: Seq<char>,
    pub visited: Seq<usize>,
    pub status: RunStatus,
}

impl View for RunResult {
    type V = RunResultV;

    open spec fn view(&self) -> RunResultV {
        RunResultV {
            output: self.output.deep_view(),
            visited: self.visited.deep_view(),
            status: self.status,
        }
    }
}

/// The machine state during a run.
pub struct Machine {
    pub regs: Vec<(usize, Value)>,
    pub slots: Vec<(usize, SlotState)>,
    pub output: Vec<char>,
    pub visited: Vec<usize>,
}

/// Mathematical model of the machine state.
pub struct MachineV {
    pub regs: Seq<(usize, Value)>,
    pub slots: Seq<(usize, SlotState)>,
    pub output: Seq<char>,
    pub visited: Seq<usize>,
}

impl View for Machine {
    type V = MachineV;

    open spec fn view(&self) -> MachineV {
        MachineV {
            regs: self.regs.deep_view(),
            slots: self.slots.deep_view(),
            output: self.output.deep_view(),
            visited: self.visited.deep_view(),
        }
    }
}

/// The value of a register, newest write first.
pub open spec fn spec_read_assoc<T>(entries: Seq<(usize, T)>, id: usize) -> Option<T>
    decreases entries.len(),
{
    if entries.len() == 0 {
        None
    } else if entries.last().0 == id {
        Some(entries.last().1)
    } else {
        spec_read_assoc(entries.drop_last(), id)
    }
}

/// Overwrite the newest entry for `id` with a stored value, or report
/// that no such slot exists.
pub open spec fn spec_write_slot(
    slots: Seq<(usize, SlotState)>,
    id: usize,
    v: Value,
) -> Option<Seq<(usize, SlotState)>>
    decreases slots.len(),
{
    if slots.len() == 0 {
        None
    } else if slots.last().0 == id {
        Some(slots.drop_last().push((id, SlotState::Stored(v))))
    } else {
        match spec_write_slot(slots.drop_last(), id, v) {
            Some(s) => Some(s.push(slots.last())),
            None => None,
        }
    }
}

/// Truncating signed division on mathematical integers.
pub open spec fn spec_trunc_div(l: int, r: int) -> int {
    let la = vstd::math::abs(l) as int;
    let ra = vstd::math::abs(r) as int;
    if (l < 0) == (r < 0) {
        la / ra
    } else {
        -(la / ra)
    }
}

/// The result of an integer operation: addition, subtraction and
/// multiplication wrap to 32 bits; a division with no defined native
/// result yields nothing.
pub open spec fn spec_int_binop(op: IntBinaryOp, l: i32, r: i32) -> Option<i32> {
    match op {
        IntBinaryOp::Plus => Some(vstd::wrapping::i32_specs::wrapping_add(l, r)),
        IntBinaryOp::Minus => Some(vstd::wrapping::i32_specs::wrapping_sub(l, r)),
        IntBinaryOp::Multiply => Some(vstd::wrapping::i32_specs::wrapping_mul(l, r)),
        IntBinaryOp::Divide => if r == 0 || (l == i32::MIN && r == -1i32) {
            None
        } else {
            Some(spec_trunc_div(l as int, r as int) as i32)
        },
    }
}

/// The truth of one comparison link.
pub open spec fn spec_compare(op: IntComparisonOp, l: i32, r: i32) -> bool {
    match op {
        IntComparisonOp::Equal => l == r,
        IntComparisonOp::NotEquals => l != r,
        IntComparisonOp::LessThan => l < r,
        IntComparisonOp::LessThanEquals => l <= r,
        IntComparisonOp::GreaterThan => l > r,
        IntComparisonOp::GreaterThanEquals => l >= r,
    }
}

/// The text the output primitive renders for a boolean operand.
pub open spec fn spec_bool_text(b: bool) -> Seq<char> {
    "Bool("@ + seq![if b { '1' } else { '0' }] + ")\n"@
}

/// The text the output primitive renders for an integer operand.
pub open spec fn spec_int_text(v: i32) -> Seq<char> {
    spec_decimal_i32(v as int) + "\n"@
}

/// What one instruction step produced: the machine continues, or the run
/// ended with a status.
pub enum StepRes {
    Next(MachineV),
    End(MachineV, RunStatus),
}

/// Execute one instruction.
pub open spec fn spec_step(m: MachineV, ins: InstrV) -> StepRes {
    match ins {
        InstrV::AllocSlot { slot, ty } => StepRes::Next(
            MachineV { slots: m.slots.push((slot.0, SlotState::Vacant(ty))), ..m },
        ),
        InstrV::ConstInt { dst, value } => StepRes::Next(
            MachineV { regs: m.regs.push((dst.0, Value::Int(value))), ..m },
        ),
        InstrV::ConstBool { dst, value } => StepRes::Next(
            MachineV { regs: m.regs.push((dst.0, Value::Bool(value))), ..m },
        ),
        InstrV::Negate { dst, operand } => match spec_read_assoc(m.regs, operand.0) {
            Some(Value::Int(v)) => StepRes::Next(
                MachineV {
                    regs: m.regs.push(
                        (dst.0, Value::Int(vstd::wrapping::i32_specs::wrapping_sub(0i32, v))),
                    ),
                    ..m
                },
            ),
            _ => StepRes::End(m, RunStatus::Stuck),
        },
        InstrV::Not { dst, operand } => match spec_read_assoc(m.regs, operand.0) {
            Some(Value::Bool(b)) => StepRes::Next(
                MachineV { regs: m.regs.push((dst.0, Value::Bool(!b))), ..m },
            ),
            _ => StepRes::End(m, RunStatus::Stuck),
        },
        InstrV::IntBinary { dst, op, left, right } => match (
            spec_read_assoc(m.regs, left.0),
            spec_read_assoc(m.regs, right.0),
        ) {
            (Some(Value::Int(l)), Some(Value::Int(r))) => match spec_int_binop(op, l, r) {
                Some(v) => StepRes::Next(
                    MachineV { regs: m.regs.push((dst.0, Value::Int(v))), ..m },
                ),
                None => StepRes::End(m, RunStatus::Stuck),
            },
            _ => StepRes::End(m, RunStatus::Stuck),
        },
        InstrV::Compare { dst, op, left, right } => match (
            spec_read_assoc(m.regs, left.0),
            spec_read_assoc(m.regs, right.0),
        ) {
            (Some(Value::Int(l)), Some(Value::Int(r))) => StepRes::Next(
                MachineV { regs: m.regs.push((dst.0, Value::Bool(spec_compare(op, l, r)))), ..m },
            ),
            _ => StepRes::End(m, RunStatus::Stuck),
        },
        InstrV::BitAnd { dst, left, right } => match (
            spec_read_assoc(m.regs, left.0),
            spec_read_assoc(m.regs, right.0),
        ) {
            (Some(Value::Bool(l)), Some(Value::Bool(r))) => StepRes::Next(
                MachineV { regs: m.regs.push((dst.0, Value::Bool(l && r))), ..m },
            ),
            _ => StepRes::End(m, RunStatus::Stuck),
        },
        InstrV::Load { dst, slot, ty } => match spec_read_assoc(m.slots, slot.0) {
            Some(SlotState::Stored(v)) => {
                let type_fits = match (v, ty) {
                    (Value::Int(_), VarType::Int) => true,
                    (Value::Bool(_), VarType::Boolean) => true,
                    _ => false,
                };
                if type_fits {
                    StepRes::Next(MachineV { regs: m.regs.push((dst.0, v)), ..m })
                } else {
                    StepRes::End(m, RunStatus::Stuck)
                }
            },
            _ => StepRes::End(m, RunStatus::Stuck),
        },
        InstrV::Store { slot, src } => match spec_read_assoc(m.regs, src.0) {
            Some(v) => match spec_write_slot(m.slots, slot.0, v) {
                Some(slots2) => StepRes::Next(MachineV { slots: slots2, ..m }),
                None => StepRes::End(m, RunStatus::Stuck),
            },
            None => StepRes::End(m, RunStatus::Stuck),
        },
        InstrV::Output(call) => match call {
            OutputCallV::IntFormat(r) => match spec_read_assoc(m.regs, r.0) {
                Some(Value::Int(v)) => StepRes::Next(
                    MachineV { output: m.output + spec_int_text(v), ..m },
                ),
                _ => StepRes::End(m, RunStatus::Stuck),
            },
            OutputCallV::BoolFormat(r) => match spec_read_assoc(m.regs, r.0) {
                Some(Value::Bool(b)) => StepRes::Next(
                    MachineV { output: m.output + spec_bool_text(b), ..m },
                ),
                _ => StepRes::End(m, RunStatus::Stuck),
            },
            OutputCallV::Text(s) => StepRes::Next(MachineV { output: m.output + s, ..m }),
        },
        InstrV::CallAbort => StepRes::End(m, RunStatus::Aborted),
    }
}

/// Execute the instructions of a block from position `k` onward.
pub open spec fn spec_run_instrs(m: MachineV, instrs: Seq<InstrV>, k: int) -> (MachineV, Option<
    RunStatus,
>)
    decreases instrs.len() - k,
{
    if 0 <= k < instrs.len() {
        match spec_step(m, instrs[k]) {
            StepRes::Next(m2) => spec_run_instrs(m2, instrs, k + 1),
            StepRes::End(m2, st) => (m2, Some(st)),
        }
    } else {
        (m, None)
    }
}

/// The run's result once the machine has stopped.
pub open spec fn run_result(m: MachineV, status: RunStatus) -> RunResultV {
    RunResultV { output: m.output, visited: m.visited, status }
}

/// Execute a function from block `b` onward.  Entering a block records
/// it; the fuel bounds the number of blocks entered.
pub open spec fn spec_run_block(f: CfgFunctionV, b: int, m: MachineV, fuel: nat) -> RunResultV
    decreases fuel,
{
    if fuel == 0 {
        run_result(m, RunStatus::OutOfFuel)
    } else if b < 0 || b >= f.blocks.len() {
        run_result(m, RunStatus::Stuck)
    } else {
        let m1 = MachineV { visited: m.visited.push(b as usize), ..m };
        let (m2, endo) = spec_run_instrs(m1, f.blocks[b].instructions, 0);
        match endo {
            Some(st) => run_result(m2, st),
            None => match f.blocks[b].terminator {
                Terminator::Jump(t) => spec_run_block(f, t as int, m2, (fuel - 1) as nat),
                Terminator::Branch { condition, when_true, when_false } => match spec_read_assoc(
                    m2.regs,
                    condition.0,
                ) {
                    Some(Value::Bool(true)) => spec_run_block(
                        f,
                        when_true as int,
                        m2,
                        (fuel - 1) as nat,
                    ),
                    Some(Value::Bool(false)) => spec_run_block(
                        f,
                        when_false as int,
                        m2,
                        (fuel - 1) as nat,
                    ),
                    _ => run_result(m2, RunStatus::Stuck),
                },
                Terminator::Return => run_result(m2, RunStatus::Success),
                Terminator::Unreachable => run_result(m2, RunStatus::Stuck),
            },
        }
    }
}

/// The empty machine a run starts from.
pub open spec fn spec_initial_machine() -> MachineV {
    MachineV {
        regs: Seq::empty(),
        slots: Seq::empty(),
        output: Seq::empty(),
        visited: Seq::empty(),
    }
}

/// Execute one function of a module from its entry block, on an empty
/// machine.
pub open spec fn spec_run_function(m: CfgModuleV, index: int, fuel: nat) -> RunResultV {
    if 0 <= index < m.functions.len() {
        spec_run_block(m.functions[index], 0, spec_initial_machine(), fuel)
    } else {
        run_result(spec_initial_machine(), RunStatus::Stuck)
    }
}

/// Execute a module: its first function is the program entry.
pub open spec fn spec_run_module(m: CfgModuleV, fuel: nat) -> RunResultV {
    spec_run_function(m, 0, fuel)
}

/// Read an association list, newest entry first, among the first `k`
/// entries.
fn read_assoc_value(entries: &Vec<(usize, Value)>, k: usize, id: usize) -> (r: Option<Value>)
    requires
        k <= entries@.len(),
    ensures
        r == spec_read_assoc(entries.deep_view().subrange(0, k as int), id),
    decreases k,
{
    if k == 0 {
        proof {
            assert(entries.deep_view().subrange(0, 0) =~= Seq::<(usize, Value)>::empty());
        }
        None
    } else {
        proof {
            assert(entries.deep_view().subrange(0, k as int).last() == entries.deep_view()[k
                - 1]);
            assert(entries.deep_view().subrange(0, k as int).drop_last()
                =~= entries.deep_view().subrange(0, k - 1));
        }
        if entries[k - 1].0 == id {
            Some(entries[k - 1].1)
        } else {
            read_assoc_value(entries, k - 1, id)
        }
    }
}

/// Read a register.
fn read_reg(regs: &Vec<(usize, Value)>, r: Reg) -> (v: Option<Value>)
    ensures
        v == spec_read_assoc(regs.deep_view(), r.0),
{
    let n = regs.len();
    let v = read_assoc_value(regs, n, r.0);
    proof {
        assert(regs.deep_view().subrange(0, n as int) =~= regs.deep_view());
    }
    v
}

/// Read a slot, newest entry first, among the first `k` entries.
fn read_assoc_slot(entries: &Vec<(usize, SlotState)>, k: usize, id: usize) -> (r: Option<SlotState>)
    requires
        k <= entries@.len(),
    ensures
        r == spec_read_assoc(entries.deep_view().subrange(0, k as int), id),
    decreases k,
{
    if k == 0 {
        proof {
            assert(entries.deep_view().subrange(0, 0) =~= Seq::<(usize, SlotState)>::empty());
        }
        None
    } else {
        proof {
            assert(entries.deep_view().subrange(0, k as int).last() == entries.deep_view()[k
                - 1]);
            assert(entries.deep_view().subrange(0, k as int).drop_last()
                =~= entries.deep_view().subrange(0, k - 1));
        }
        if entries[k - 1].0 == id {
            Some(entries[k - 1].1)
        } else {
            read_assoc_slot(entries, k - 1, id)
        }
    }
}

/// Read a slot.
fn read_slot(slots: &Vec<(usize, SlotState)>, id: usize) -> (v: Option<SlotState>)
    ensures
        v == spec_read_assoc(slots.deep_view(), id),
{
    let n = slots.len();
    let v = read_assoc_slot(slots, n, id);
    proof {
        assert(slots.deep_view().subrange(0, n as int) =~= slots.deep_view());
    }
    v
}

/// Overwrite the newest entry for a slot, reporting whether one existed.
fn write_slot(slots: &mut Vec<(usize, SlotState)>, id: usize, v: Value) -> (ok: bool)
    ensures
        match spec_write_slot(old(slots).deep_view(), id, v) {
            Some(s) => ok && final(slots).deep_view() == s,
            None => !ok && final(slots).deep_view() == old(slots).deep_view(),
        },
    decreases old(slots)@.len(),
{
    let ghost slots0 = slots.deep_view();
    match slots.pop() {
        None => {
            proof {
                assert(final(slots).deep_view() =~= slots0);
            }
            false
        },
        Some(last) => {
            proof {
                assert(slots.deep_view() =~= slots0.drop_last());
                assert(slots0.last() == last.deep_view());
            }
            if last.0 == id {
                slots.push((id, SlotState::Stored(v)));
                proof {
                    assert(slots.deep_view() =~= slots0.drop_last().push(
                        (id, SlotState::Stored(v)),
                    ));
                }
                true
            } else {
                let ok = write_slot(slots, id, v);
                let ghost mid = slots.deep_view();
                slots.push(last);
                proof {
                    assert(slots.deep_view() =~= mid.push(last.deep_view()));
                }
                ok
            }
        },
    }
}

/// Truncating signed division.
fn trunc_div_i32(l: i32, r: i32) -> (q: i32)
    requires
        r != 0,
        !(l == i32::MIN && r == -1i32),
    ensures
        q as int == spec_trunc_div(l as int, r as int),
{
    let neg: bool = (l < 0) != (r < 0);
    let la: u32 = if l < 0 {
        (-(l as i64)) as u32
    } else {
        l as u32
    };
    let ra: u32 = if r < 0 {
        (-(r as i64)) as u32
    } else {
        r as u32
    };
    let qa: u32 = la / ra;
    proof {
        vstd::arithmetic::div_mod::lemma_div_basics_5(la as int, ra as int);
        if !neg && qa > 0x7fff_ffffu32 {
            if ra >= 2 {
                vstd::arithmetic::div_mod::lemma_div_is_ordered_by_denominator(
                    la as int,
                    2,
                    ra as int,
                );
            }
        }
    }
    if neg {
        (-(qa as i64)) as i32
    } else {
        qa as i32
    }
}

/// Execute one instruction against the machine; `None` means the machine
/// continues, `Some` ends the run with that status.
fn step(m: &mut Machine, ins: &crate::cfg::Instr) -> (r: Option<RunStatus>)
    ensures
        match r {
            None => spec_step(old(m)@, ins@) == StepRes::Next(final(m)@),
            Some(st) => spec_step(old(m)@, ins@) == StepRes::End(final(m)@, st),
        },
{
    match ins {
        crate::cfg::Instr::AllocSlot { slot, ty } => {
            let ghost s0 = m.slots.deep_view();
            m.slots.push((slot.0, SlotState::Vacant(*ty)));
            proof {
                assert(m.slots.deep_view() =~= s0.push((slot.0, SlotState::Vacant(*ty))));
            }
            None
        },
        crate::cfg::Instr::ConstInt { dst, value } => {
            let ghost r0 = m.regs.deep_view();
            m.regs.push((dst.0, Value::Int(*value)));
            proof {
                assert(m.regs.deep_view() =~= r0.push((dst.0, Value::Int(*value))));
            }
            None
        },
        crate::cfg::Instr::ConstBool { dst, value } => {
            let ghost r0 = m.regs.deep_view();
            m.regs.push((dst.0, Value::Bool(*value)));
            proof {
                assert(m.regs.deep_view() =~= r0.push((dst.0, Value::Bool(*value))));
            }
            None
        },
        crate::cfg::Instr::Negate { dst, operand } => match read_reg(&m.regs, *operand) {
            Some(Value::Int(v)) => {
                let ghost r0 = m.regs.deep_view();
                let nv: i32 = (0i32).wrapping_sub(v);
                m.regs.push((dst.0, Value::Int(nv)));
                proof {
                    assert(m.regs.deep_view() =~= r0.push((dst.0, Value::Int(nv))));
                }
                None
            },
            _ => Some(RunStatus::Stuck),
        },
        crate::cfg::Instr::Not { dst, operand } => match read_reg(&m.regs, *operand) {
            Some(Value::Bool(b)) => {
                let ghost r0 = m.regs.deep_view();
                m.regs.push((dst.0, Value::Bool(!b)));
                proof {
                    assert(m.regs.deep_view() =~= r0.push((dst.0, Value::Bool(!b))));
                }
                None
            },
            _ => Some(RunStatus::Stuck),
        },
        crate::cfg::Instr::IntBinary { dst, op, left, right } => {
            let lv = read_reg(&m.regs, *left);
            let rv = read_reg(&m.regs, *right);
            match (lv, rv) {
                (Some(Value::Int(l)), Some(Value::Int(r))) => {
                    let computed: Option<i32> = match op {
                        IntBinaryOp::Plus => Some(l.wrapping_add(r)),
                        IntBinaryOp::Minus => Some(l.wrapping_sub(r)),
                        IntBinaryOp::Multiply => Some(l.wrapping_mul(r)),
                        IntBinaryOp::Divide => {
                            if r == 0 || (l == i32::MIN && r == -1i32) {
                                None
                            } else {
                                Some(trunc_div_i32(l, r))
                            }
                        },
                    };
                    match computed {
                        Some(v) => {
                            let ghost r0 = m.regs.deep_view();
                            m.regs.push((dst.0, Value::Int(v)));
                            proof {
                                assert(m.regs.deep_view() =~= r0.push((dst.0, Value::Int(v))));
                            }
                            None
                        },
                        None => Some(RunStatus::Stuck),
                    }
                },
                _ => Some(RunStatus::Stuck),
            }
        },
        crate::cfg::Instr::Compare { dst, op, left, right } => {
            let lv = read_reg(&m.regs, *left);
            let rv = read_reg(&m.regs, *right);
            match (lv, rv) {
                (Some(Value::Int(l)), Some(Value::Int(r))) => {
                    let b: bool = match op {
                        IntComparisonOp::Equal => l == r,
                        IntComparisonOp::NotEquals => l != r,
                        IntComparisonOp::LessThan => l < r,
                        IntComparisonOp::LessThanEquals => l <= r,
                        IntComparisonOp::GreaterThan => l > r,
                        IntComparisonOp::GreaterThanEquals => l >= r,
                    };
                    let ghost r0 = m.regs.deep_view();
                    m.regs.push((dst.0, Value::Bool(b)));
                    proof {
                        assert(m.regs.deep_view() =~= r0.push((dst.0, Value::Bool(b))));
                    }
                    None
                },
                _ => Some(RunStatus::Stuck),
            }
        },
        crate::cfg::Instr::BitAnd { dst, left, right } => {
            let lv = read_reg(&m.regs, *left);
            let rv = read_reg(&m.regs, *right);
            match (lv, rv) {
                (Some(Value::Bool(l)), Some(Value::Bool(r))) => {
                    let ghost r0 = m.regs.deep_view();
                    let b = l && r;
                    m.regs.push((dst.0, Value::Bool(b)));
                    proof {
                        assert(m.regs.deep_view() =~= r0.push((dst.0, Value::Bool(b))));
                    }
                    None
                },
                _ => Some(RunStatus::Stuck),
            }
        },
        crate::cfg::Instr::Load { dst, slot, ty } => match read_slot(&m.slots, slot.0) {
            Some(SlotState::Stored(v)) => {
                let type_fits: bool = match (v, ty) {
                    (Value::Int(_), VarType::Int) => true,
                    (Value::Bool(_), VarType::Boolean) => true,
                    _ => false,
                };
                if type_fits {
                    let ghost r0 = m.regs.deep_view();
                    m.regs.push((dst.0, v));
                    proof {
                        assert(m.regs.deep_view() =~= r0.push((dst.0, v)));
                    }
                    None
                } else {
                    Some(RunStatus::Stuck)
                }
            },
            _ => Some(RunStatus::Stuck),
        },
        crate::cfg::Instr::Store { slot, src } => match read_reg(&m.regs, *src) {
            Some(v) => {
                let ok = write_slot(&mut m.slots, slot.0, v);
                if ok {
                    None
                } else {
                    Some(RunStatus::Stuck)
                }
            },
            None => Some(RunStatus::Stuck),
        },
        crate::cfg::Instr::Output(call) => match call {
            crate::cfg::OutputCall::IntFormat(r) => match read_reg(&m.regs, *r) {
                Some(Value::Int(v)) => {
                    let ghost o0 = m.output.deep_view();
                    let mut text = decimal_i32(v);
                    m.output.append(&mut text);
                    m.output.push('\n');
                    proof {
                        reveal_strlit("\n");
                        assert(m.output.deep_view() =~= o0 + spec_int_text(v));
                    }
                    None
                },
                _ => Some(RunStatus::Stuck),
            },
            crate::cfg::OutputCall::BoolFormat(r) => match read_reg(&m.regs, *r) {
                Some(Value::Bool(b)) => {
                    let ghost o0 = m.output.deep_view();
                    let mut text = chars_of("Bool(");
                    m.output.append(&mut text);
                    m.output.push(if b {
                        '1'
                    } else {
                        '0'
                    });
                    let mut close = chars_of(")\n");
                    m.output.append(&mut close);
                    proof {
                        assert(m.output.deep_view() =~= o0 + spec_bool_text(b));
                    }
                    None
                },
                _ => Some(RunStatus::Stuck),
            },
            crate::cfg::OutputCall::Text(s) => {
                let ghost o0 = m.output.deep_view();
                let mut text = chars_of(s.as_str());
                m.output.append(&mut text);
                proof {
                    assert(m.output.deep_view() =~= o0 + s@);
                }
                None
            },
        },
        crate::cfg::Instr::CallAbort => Some(RunStatus::Aborted),
    }
}

/// Execute the instructions of a block from position `k` onward.
fn run_instrs(m: &mut Machine, instrs: &Vec<crate::cfg::Instr>, k: usize) -> (r: Option<RunStatus>)
    requires
        k <= instrs@.len(),
    ensures
        spec_run_instrs(old(m)@, instrs.deep_view(), k as int) == (
            final(m)@,
            r,
        ),
    decreases instrs@.len() - k,
{
    if k < instrs.len() {
        let outcome = step(m, &instrs[k]);
        match outcome {
            None => run_instrs(m, instrs, k + 1),
            Some(st) => Some(st),
        }
    } else {
        None
    }
}

/// Execute a function from block `b` onward, spending one fuel per block
/// entered.
fn run_block(m: &mut Machine, f: &crate::cfg::CfgFunction, b: usize, fuel: usize) -> (status:
    RunStatus)
    ensures
        spec_run_block(f@, b as int, old(m)@, fuel as nat) == run_result(final(m)@, status),
    decreases fuel,
{
    if fuel == 0 {
        RunStatus::OutOfFuel
    } else if b >= f.blocks.len() {
        RunStatus::Stuck
    } else {
        let ghost v0 = m.visited.deep_view();
        m.visited.push(b);
        proof {
            assert(m.visited.deep_view() =~= v0.push(b));
        }
        let outcome = run_instrs(m, &f.blocks[b].instructions, 0);
        match outcome {
            Some(st) => st,
            None => match f.blocks[b].terminator {
                Terminator::Jump(t) => run_block(m, f, t, fuel - 1),
                Terminator::Branch { condition, when_true, when_false } => {
                    match read_reg(&m.regs, condition) {
                        Some(Value::Bool(true)) => run_block(m, f, when_true, fuel - 1),
                        Some(Value::Bool(false)) => run_block(m, f, when_false, fuel - 1),
                        _ => RunStatus::Stuck,
                    }
                },
                Terminator::Return => RunStatus::Success,
                Terminator::Unreachable => RunStatus::Stuck,
            },
        }
    }
}

/// Execute one function of a module artifact from its entry block on an
/// empty machine, and report everything it printed, the blocks it
/// entered, and how it ended.
pub fn run_function(module: &CfgModule, index: usize, fuel: usize) -> (r: RunResult)
    ensures
        r@ == spec_run_function(module@, index as int, fuel as nat),
{
    let mut m = Machine {
        regs: Vec::new(),
        slots: Vec::new(),
        output: Vec::new(),
        visited: Vec::new(),
    };
    proof {
        assert(m@.regs =~= spec_initial_machine().regs);
        assert(m@.slots =~= spec_initial_machine().slots);
        assert(m@.output =~= spec_initial_machine().output);
        assert(m@.visited =~= spec_initial_machine().visited);
    }
    if index >= module.functions.len() {
        return RunResult { output: m.output, visited: m.visited, status: RunStatus::Stuck };
    }
    let status = run_block(&mut m, &module.functions[index], 0, fuel);
    RunResult { output: m.output, visited: m.visited, status }
}

/// Execute a module artifact: its first function is the program entry.
pub fn run_module(module: &CfgModule, fuel: usize) -> (r: RunResult)
    ensures
        r@ == spec_run_module(module@, fuel as nat),
{
    run_function(module, 0, fuel)
}

} // verus!
