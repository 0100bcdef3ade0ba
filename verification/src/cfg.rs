use vstd::prelude::*;

use crate::ir::{IntBinaryOp, IntComparisonOp, VarType, VariableIdentifier};

verus! {

/// A virtual register: the destination of exactly one instruction within
/// a function.
#[derive(Debug, PartialEq, Eq, Clone, Copy, Structural)]
pub struct Reg(pub usize);

impl DeepView for Reg {
    type V = Reg;

    open spec fn deep_view(&self) -> Reg {
        *self
    }
}

/// How a basic block ends: every block has exactly one terminator.
#[derive(Debug, PartialEq, Eq, Clone, Copy, Structural)]
pub enum Terminator {
    Jump(usize),
    Branch { condition: Reg, when_true: usize, when_false: usize },
    Return,
    Unreachable,
}

/// A call of the formatted-output runtime primitive: the format template
/// is selected by the operand's static type, and a bare text is printed
/// as itself.
#[derive(Debug, Clone)]
pub enum OutputCall {
    IntFormat(Reg),
    BoolFormat(Reg),
    Text(String),
}

/// Mathematical model of an output call.
pub enum OutputCallV {
    IntFormat(Reg),
    BoolFormat(Reg),
    Text(Seq<char>),
}

impl View for OutputCall {
    type V = OutputCallV;

    open spec fn view(&self) -> OutputCallV {
        match self {
            OutputCall::IntFormat(r) => OutputCallV::IntFormat(*r),
            OutputCall::BoolFormat(r) => OutputCallV::BoolFormat(*r),
            OutputCall::Text(s) => OutputCallV::Text(s@),
        }
    }
}

/// One instruction of a basic block.
#[derive(Debug, Clone)]
pub enum Instr {
    /// Reserve the storage slot for one local, sized by its type.
    AllocSlot { slot: VariableIdentifier, ty: VarType },
    ConstInt { dst: Reg, value: i32 },
    ConstBool { dst: Reg, value: bool },
    Negate { dst: Reg, operand: Reg },
    Not { dst: Reg, operand: Reg },
    IntBinary { dst: Reg, op: IntBinaryOp, left: Reg, right: Reg },
    Compare { dst: Reg, op: IntComparisonOp, left: Reg, right: Reg },
    /// The eager single-bit conjunction used to fold a comparison chain.
    BitAnd { dst: Reg, left: Reg, right: Reg },
    Load { dst: Reg, slot: VariableIdentifier, ty: VarType },
    Store { slot: VariableIdentifier, src: Reg },
    Output(OutputCall),
    /// A call of the trapping-abort runtime primitive; it never returns.
    CallAbort,
}

/// Mathematical model of an instruction.
pub enum InstrV {
    AllocSlot { slot: VariableIdentifier, ty: VarType },
    ConstInt { dst: Reg, value: i32 },
    ConstBool { dst: Reg, value: bool },
    Negate { dst: Reg, operand: Reg },
    Not { dst: Reg, operand: Reg },
    IntBinary { dst: Reg, op: IntBinaryOp, left: Reg, right: Reg },
    Compare { dst: Reg, op: IntComparisonOp, left: Reg, right: Reg },
    BitAnd { dst: Reg, left: Reg, right: Reg },
    Load { dst: Reg, slot: VariableIdentifier, ty: VarType },
    Store { slot: VariableIdentifier, src: Reg },
    Output(OutputCallV),
    CallAbort,
}

impl View for Instr {
    type V = InstrV;

    open spec fn view(&self) -> InstrV {
        match self {
            Instr::AllocSlot { slot, ty } => InstrV::AllocSlot { slot: *slot, ty: *ty },
            Instr::ConstInt { dst, value } => InstrV::ConstInt { dst: *dst, value: *value },
            Instr::ConstBool { dst, value } => InstrV::ConstBool { dst: *dst, value: *value },
            Instr::Negate { dst, operand } => InstrV::Negate { dst: *dst, operand: *operand },
            Instr::Not { dst, operand } => InstrV::Not { dst: *dst, operand: *operand },
            Instr::IntBinary { dst, op, left, right } => InstrV::IntBinary {
                dst: *dst,
                op: *op,
                left: *left,
                right: *right,
            },
            Instr::Compare { dst, op, left, right } => InstrV::Compare {
                dst: *dst,
                op: *op,
                left: *left,
                right: *right,
            },
            Instr::BitAnd { dst, left, right } => InstrV::BitAnd {
                dst: *dst,
                left: *left,
                right: *right,
            },
            Instr::Load { dst, slot, ty } => InstrV::Load { dst: *dst, slot: *slot, ty: *ty },
            Instr::Store { slot, src } => InstrV::Store { slot: *slot, src: *src },
            Instr::Output(c) => InstrV::Output(c@),
            Instr::CallAbort => InstrV::CallAbort,
        }
    }
}

impl DeepView for Instr {
    type V = InstrV;

    open spec fn deep_view(&self) -> InstrV {
        self.view()
    }
}

/// A basic block: a straight-line instruction sequence ending in exactly
/// one terminator.
#[derive(Debug, Clone)]
pub struct BasicBlock {
    pub instructions: Vec<Instr>,
    pub terminator: Terminator,
}

/// Mathematical model of a basic block.
pub struct BasicBlockV {
    pub instructions: Seq<InstrV>,
    pub terminator: Terminator,
}

impl View for BasicBlock {
    type V = BasicBlockV;

    open spec fn view(&self) -> BasicBlockV {
        BasicBlockV {
            instructions: self.instructions.deep_view(),
            terminator: self.terminator,
        }
    }
}

impl DeepView for BasicBlock {
    type V = BasicBlockV;

    open spec fn deep_view(&self) -> BasicBlockV {
        self.view()
    }
}

/// An emitted function: its name and its blocks; block 0 is the entry.
#[derive(Debug, Clone)]
pub struct CfgFunction {
    pub name: String,
    pub blocks: Vec<BasicBlock>,
}

/// Mathematical model of an emitted function.
pub struct CfgFunctionV {
    pub name: Seq<char>,
    pub blocks: Seq<BasicBlockV>,
}

impl View for CfgFunction {
    type V = CfgFunctionV;

    open spec fn view(&self) -> CfgFunctionV {
        CfgFunctionV { name: self.name@, blocks: self.blocks.deep_view() }
    }
}

impl DeepView for CfgFunction {
    type V = CfgFunctionV;

    open spec fn deep_view(&self) -> CfgFunctionV {
        self.view()
    }
}

/// A runtime primitive the module declares and calls: the variadic
/// formatted-output function and the trapping-abort function.
#[derive(Debug, PartialEq, Eq, Clone, Copy, Structural)]
pub enum RuntimeFn {
    FormattedOutput,
    TrappingAbort,
}

impl DeepView for RuntimeFn {
    type V = RuntimeFn;

    open spec fn deep_view(&self) -> RuntimeFn {
        *self
    }
}

/// The module artifact: the declared runtime primitives and the emitted
/// functions, in order.
#[derive(Debug, Clone)]
pub struct CfgModule {
    pub declarations: Vec<RuntimeFn>,
    pub functions: Vec<CfgFunction>,
}

/// Mathematical model of a module artifact.
pub struct CfgModuleV {
    pub declarations: Seq<RuntimeFn>,
    pub functions: Seq<CfgFunctionV>,
}

impl View for CfgModule {
    type V = CfgModuleV;

    open spec fn view(&self) -> CfgModuleV {
        CfgModuleV {
            declarations: self.declarations.deep_view(),
            functions: self.functions.deep_view(),
        }
    }
}

} // verus!
