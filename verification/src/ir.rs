use vstd::prelude::*;

verus! {

/// A resolver-assigned handle naming one storage slot, unique across the
/// whole compiled module.
#[derive(Debug, PartialEq, Eq, Hash, Copy, Clone, Structural)]
pub struct VariableIdentifier(pub usize);

impl DeepView for VariableIdentifier {
    type V = VariableIdentifier;

    open spec fn deep_view(&self) -> VariableIdentifier {
        *self
    }
}

/// The type of a storage slot or expression.
#[derive(Debug, PartialEq, Eq, Clone, Copy, Structural)]
pub enum VarType {
    Int,
    Boolean,
}

impl DeepView for VarType {
    type V = VarType;

    open spec fn deep_view(&self) -> VarType {
        *self
    }
}

/// An arithmetic operator over integers.
#[derive(Debug, PartialEq, Eq, Clone, Copy, Structural)]
pub enum IntBinaryOp {
    Plus,
    Minus,
    Multiply,
    Divide,
}

/// A relational operator over integers.
#[derive(Debug, PartialEq, Eq, Clone, Copy, Structural)]
pub enum IntComparisonOp {
    Equal,
    NotEquals,
    LessThan,
    LessThanEquals,
    GreaterThan,
    GreaterThanEquals,
}

impl DeepView for IntComparisonOp {
    type V = IntComparisonOp;

    open spec fn deep_view(&self) -> IntComparisonOp {
        *self
    }
}

/// A lazy boolean connective.
#[derive(Debug, PartialEq, Eq, Clone, Copy, Structural)]
pub enum BooleanOperator {
    And,
    Or,
}

/// A typed integer expression.
#[derive(Debug)]
pub enum IntExpression {
    Literal(i32),
    Negate(Box<IntExpression>),
    BinaryOperation(Box<IntExpression>, IntBinaryOp, Box<IntExpression>),
    Var(VariableIdentifier),
}

impl DeepView for IntExpression {
    type V = IntExpression;

    open spec fn deep_view(&self) -> IntExpression {
        *self
    }
}

/// A typed comparison chain: an integer left operand and the ordered
/// `(operator, operand)` links, each producing a boolean.
#[derive(Debug)]
pub enum ComparisonExpression {
    IntComparison(Box<IntExpression>, Vec<(IntComparisonOp, IntExpression)>),
}

/// Mathematical model of a comparison chain.
pub enum ComparisonExpressionV {
    IntComparison(IntExpression, Seq<(IntComparisonOp, IntExpression)>),
}

impl View for ComparisonExpression {
    type V = ComparisonExpressionV;

    open spec fn view(&self) -> ComparisonExpressionV {
        match self {
            ComparisonExpression::IntComparison(left, chain) => ComparisonExpressionV::IntComparison(
                *(*left),
                chain.deep_view(),
            ),
        }
    }
}

/// A typed boolean expression.  A lazy `Operator` node carries the
/// identifier of the storage slot the resolver reserved for its
/// short-circuit result.
#[derive(Debug)]
pub enum BooleanExpression {
    Literal(bool),
    Not(Box<BooleanExpression>),
    Comparison(ComparisonExpression),
    Operator(
        VariableIdentifier,
        Box<BooleanExpression>,
        BooleanOperator,
        Box<BooleanExpression>,
    ),
    Var(VariableIdentifier),
}

/// Mathematical model of a typed boolean expression.
pub enum BooleanExpressionV {
    Literal(bool),
    Not(Box<BooleanExpressionV>),
    Comparison(ComparisonExpressionV),
    Operator(
        VariableIdentifier,
        Box<BooleanExpressionV>,
        BooleanOperator,
        Box<BooleanExpressionV>,
    ),
    Var(VariableIdentifier),
}

/// The model of a boolean expression tree.
pub open spec fn bool_view(e: BooleanExpression) -> BooleanExpressionV
    decreases e,
{
    match e {
        BooleanExpression::Literal(b) => BooleanExpressionV::Literal(b),
        BooleanExpression::Not(inner) => BooleanExpressionV::Not(Box::new(bool_view(*inner))),
        BooleanExpression::Comparison(c) => BooleanExpressionV::Comparison(c@),
        BooleanExpression::Operator(id, l, op, r) => BooleanExpressionV::Operator(
            id,
            Box::new(bool_view(*l)),
            op,
            Box::new(bool_view(*r)),
        ),
        BooleanExpression::Var(id) => BooleanExpressionV::Var(id),
    }
}

impl View for BooleanExpression {
    type V = BooleanExpressionV;

    open spec fn view(&self) -> BooleanExpressionV {
        bool_view(*self)
    }
}

impl DeepView for BooleanExpression {
    type V = BooleanExpressionV;

    open spec fn deep_view(&self) -> BooleanExpressionV {
        bool_view(*self)
    }
}

/// The right-hand side of an assignment, split by type.
#[derive(Debug)]
pub enum AssignmentStatement {
    Int(IntExpression),
    Boolean(BooleanExpression),
}

/// Mathematical model of an assignment right-hand side.
pub enum AssignmentStatementV {
    Int(IntExpression),
    Boolean(BooleanExpressionV),
}

impl View for AssignmentStatement {
    type V = AssignmentStatementV;

    open spec fn view(&self) -> AssignmentStatementV {
        match self {
            AssignmentStatement::Int(e) => AssignmentStatementV::Int(*e),
            AssignmentStatement::Boolean(e) => AssignmentStatementV::Boolean(e@),
        }
    }
}

/// A print operand, split by type: each type selects its own output
/// format.
#[derive(Debug)]
pub enum PrintStatement {
    Int(IntExpression),
    Boolean(BooleanExpression),
}

/// Mathematical model of a print operand.
pub enum PrintStatementV {
    Int(IntExpression),
    Boolean(BooleanExpressionV),
}

impl View for PrintStatement {
    type V = PrintStatementV;

    open spec fn view(&self) -> PrintStatementV {
        match self {
            PrintStatement::Int(e) => PrintStatementV::Int(*e),
            PrintStatement::Boolean(e) => PrintStatementV::Boolean(e@),
        }
    }
}

/// A typed statement.
#[derive(Debug)]
pub enum Statement {
    Print(PrintStatement),
    Assert(BooleanExpression, Option<String>),
    Assignment(VariableIdentifier, AssignmentStatement),
}

/// Mathematical model of a typed statement.
pub enum StatementV {
    Print(PrintStatementV),
    Assert(BooleanExpressionV, Option<Seq<char>>),
    Assignment(VariableIdentifier, AssignmentStatementV),
}

impl View for Statement {
    type V = StatementV;

    open spec fn view(&self) -> StatementV {
        match self {
            Statement::Print(p) => StatementV::Print(p@),
            Statement::Assert(e, m) => StatementV::Assert(
                e@,
                match m {
                    Some(s) => Some(s@),
                    None => None,
                },
            ),
            Statement::Assignment(id, a) => StatementV::Assignment(*id, a@),
        }
    }
}

impl DeepView for Statement {
    type V = StatementV;

    open spec fn deep_view(&self) -> StatementV {
        self.view()
    }
}

/// A resolved function: its name, its statements, and the table that maps
/// every identifier the function uses to its type.
#[derive(Debug)]
pub enum ToplevelStatement {
    Function {
        name: String,
        body: Vec<Statement>,
        locals: Vec<(VariableIdentifier, VarType)>,
    },
}

/// Mathematical model of a resolved function.
pub enum ToplevelStatementV {
    Function {
        name: Seq<char>,
        body: Seq<StatementV>,
        locals: Seq<(VariableIdentifier, VarType)>,
    },
}

impl View for ToplevelStatement {
    type V = ToplevelStatementV;

    open spec fn view(&self) -> ToplevelStatementV {
        match self {
            ToplevelStatement::Function { name, body, locals } => ToplevelStatementV::Function {
                name: name@,
                body: body.deep_view(),
                locals: locals.deep_view(),
            },
        }
    }
}

impl DeepView for ToplevelStatement {
    type V = ToplevelStatementV;

    open spec fn deep_view(&self) -> ToplevelStatementV {
        self.view()
    }
}

/// A whole resolved module.
#[derive(Debug)]
pub struct Module(pub Vec<ToplevelStatement>);

/// Mathematical model of a resolved module.
pub struct ModuleV(pub Seq<ToplevelStatementV>);

impl View for Module {
    type V = ModuleV;

    open spec fn view(&self) -> ModuleV {
        ModuleV(self.0.deep_view())
    }
}

} // verus!
