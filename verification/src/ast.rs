use vstd::prelude::*;

verus! {

broadcast use vstd::std_specs::vec::axiom_vec_index_decreases;

/// A prefix operator.
#[derive(Debug, Clone, Copy, PartialEq, Eq, Structural)]
pub enum PrefixOp {
    Negate,
    Not,
}

/// A binary operator.
#[derive(Debug, Clone, Copy, PartialEq, Eq, Structural)]
pub enum BinaryOp {
    Plus,
    Minus,
    Multiply,
    Divide,
    And,
    Or,
}

/// A relational operator usable in a comparison chain.
#[derive(Debug, Clone, Copy, PartialEq, Eq, Structural)]
pub enum ComparisonOp {
    Equals,
    NotEquals,
    LessThan,
    LessThanEquals,
    GreaterThan,
    GreaterThanEquals,
}

impl DeepView for PrefixOp {
    type V = PrefixOp;

    open spec fn deep_view(&self) -> PrefixOp {
        *self
    }
}

impl DeepView for BinaryOp {
    type V = BinaryOp;

    open spec fn deep_view(&self) -> BinaryOp {
        *self
    }
}

impl DeepView for ComparisonOp {
    type V = ComparisonOp;

    open spec fn deep_view(&self) -> ComparisonOp {
        *self
    }
}

/// A literal: an integer, a boolean, or a reference to a named variable.
#[derive(Debug, Clone)]
pub enum Literal {
    Integer(i32),
    Boolean(bool),
    Variable(String),
}

/// Mathematical model of a literal.
pub enum LiteralV {
    Integer(i32),
    Boolean(bool),
    Variable(Seq<char>),
}

impl View for Literal {
    type V = LiteralV;

    open spec fn view(&self) -> LiteralV {
        match self {
            Literal::Integer(i) => LiteralV::Integer(*i),
            Literal::Boolean(b) => LiteralV::Boolean(*b),
            Literal::Variable(s) => LiteralV::Variable(s@),
        }
    }
}

impl DeepView for Literal {
    type V = LiteralV;

    open spec fn deep_view(&self) -> LiteralV {
        self.view()
    }
}

/// An expression of the surface language.  A comparison chain keeps its
/// left operand and the ordered `(operator, operand)` links as one flat
/// node.
#[derive(Debug)]
pub enum Expression {
    Literal(Literal),
    BinaryOp(Box<Expression>, BinaryOp, Box<Expression>),
    Prefix(PrefixOp, Box<Expression>),
    Comparison(Box<Expression>, Vec<(ComparisonOp, Expression)>),
}

/// Mathematical model of an expression.
pub enum ExpressionV {
    Literal(LiteralV),
    BinaryOp(Box<ExpressionV>, BinaryOp, Box<ExpressionV>),
    Prefix(PrefixOp, Box<ExpressionV>),
    Comparison(Box<ExpressionV>, Seq<(ComparisonOp, ExpressionV)>),
}

/// The model of an expression tree.
pub open spec fn expr_view(e: Expression) -> ExpressionV
    decreases e, 0int,
{
    match e {
        Expression::Literal(l) => ExpressionV::Literal(l@),
        Expression::BinaryOp(l, op, r) => ExpressionV::BinaryOp(
            Box::new(expr_view(*l)),
            op,
            Box::new(expr_view(*r)),
        ),
        Expression::Prefix(op, inner) => ExpressionV::Prefix(op, Box::new(expr_view(*inner))),
        Expression::Comparison(l, chain) => ExpressionV::Comparison(
            Box::new(expr_view(*l)),
            chain_view(chain),
        ),
    }
}

/// The models of the links of a comparison chain, in order.
pub open spec fn chain_view(chain: Vec<(ComparisonOp, Expression)>) -> Seq<
    (ComparisonOp, ExpressionV),
>
    decreases chain, chain@.len() + 1,
{
    chain_view_from(chain, 0)
}

/// The models of the links of a comparison chain from position `k` onward.
pub open spec fn chain_view_from(chain: Vec<(ComparisonOp, Expression)>, k: int) -> Seq<
    (ComparisonOp, ExpressionV),
>
    decreases chain, chain@.len() - k
        via chain_view_from_decreases
{
    if 0 <= k < chain@.len() {
        seq![(chain@[k].0, expr_view(chain@[k].1))] + chain_view_from(chain, k + 1)
    } else {
        Seq::empty()
    }
}

#[via_fn]
proof fn chain_view_from_decreases(chain: Vec<(ComparisonOp, Expression)>, k: int) {
    if 0 <= k < chain@.len() {
        vstd::std_specs::vec::axiom_vec_index_decreases(chain, k);
        assert(decreases_to!(chain@[k] => chain@[k].1));
    }
}

/// What each position of a chain view holds.
pub proof fn lemma_chain_view(chain: Vec<(ComparisonOp, Expression)>, k: int)
    requires
        0 <= k <= chain@.len(),
    ensures
        chain_view_from(chain, k).len() == chain@.len() - k,
        forall|j: int|
            0 <= j < chain@.len() - k ==> chain_view_from(chain, k)[j] == (
                chain@[k + j].0,
                expr_view(chain@[k + j].1),
            ),
    decreases chain@.len() - k,
{
    if k < chain@.len() {
        lemma_chain_view(chain, k + 1);
    }
}

impl View for Expression {
    type V = ExpressionV;

    open spec fn view(&self) -> ExpressionV {
        expr_view(*self)
    }
}

impl DeepView for Expression {
    type V = ExpressionV;

    open spec fn deep_view(&self) -> ExpressionV {
        expr_view(*self)
    }
}

/// A positive structural size for an expression tree, used as a
/// termination measure by code that walks expressions through borrowed
/// children.
pub open spec fn expr_size(e: Expression) -> nat
    decreases e, 0int,
{
    match e {
        Expression::Literal(_) => 1,
        Expression::BinaryOp(l, _, r) => 1 + expr_size(*l) + expr_size(*r),
        Expression::Prefix(_, inner) => 1 + expr_size(*inner),
        Expression::Comparison(l, chain) => 1 + expr_size(*l) + chain_size_from(chain, 0),
    }
}

/// The combined size of the links of a comparison chain from position `k`
/// onward; every link counts at least 1.
pub open spec fn chain_size_from(chain: Vec<(ComparisonOp, Expression)>, k: int) -> nat
    decreases chain, chain@.len() - k
        via chain_size_from_decreases
{
    if 0 <= k < chain@.len() {
        1 + expr_size(chain@[k].1) + chain_size_from(chain, k + 1)
    } else {
        0
    }
}

#[via_fn]
proof fn chain_size_from_decreases(chain: Vec<(ComparisonOp, Expression)>, k: int) {
    if 0 <= k < chain@.len() {
        vstd::std_specs::vec::axiom_vec_index_decreases(chain, k);
        assert(decreases_to!(chain@[k] => chain@[k].1));
    }
}

/// Every expression has positive size.
pub proof fn lemma_expr_size_pos(e: Expression)
    ensures
        expr_size(e) >= 1,
{
}

/// A statement of the surface language.
#[derive(Debug)]
pub enum Statement {
    Print(Expression),
    Assert(Expression, Option<String>),
    Declaration(String, Expression),
    Assignment(String, Expression),
}

/// Mathematical model of a statement.
pub enum StatementV {
    Print(ExpressionV),
    Assert(ExpressionV, Option<Seq<char>>),
    Declaration(Seq<char>, ExpressionV),
    Assignment(Seq<char>, ExpressionV),
}

impl View for Statement {
    type V = StatementV;

    open spec fn view(&self) -> StatementV {
        match self {
            Statement::Print(e) => StatementV::Print(e@),
            Statement::Assert(e, m) => StatementV::Assert(
                e@,
                match m {
                    Some(s) => Some(s@),
                    None => None,
                },
            ),
            Statement::Declaration(n, e) => StatementV::Declaration(n@, e@),
            Statement::Assignment(n, e) => StatementV::Assignment(n@, e@),
        }
    }
}

impl DeepView for Statement {
    type V = StatementV;

    open spec fn deep_view(&self) -> StatementV {
        self.view()
    }
}

/// A top-level definition: one function, written `$ { ... }`.
#[derive(Debug)]
pub enum ToplevelStatement {
    MainFunction(Vec<Statement>),
}

/// Mathematical model of a top-level definition.
pub enum ToplevelStatementV {
    MainFunction(Seq<StatementV>),
}

impl View for ToplevelStatement {
    type V = ToplevelStatementV;

    open spec fn view(&self) -> ToplevelStatementV {
        match self {
            ToplevelStatement::MainFunction(stmts) => ToplevelStatementV::MainFunction(
                stmts.deep_view(),
            ),
        }
    }
}

impl DeepView for ToplevelStatement {
    type V = ToplevelStatementV;

    open spec fn deep_view(&self) -> ToplevelStatementV {
        self.view()
    }
}

/// A whole parsed module: its top-level definitions in order.
#[derive(Debug)]
pub struct Module(pub Vec<ToplevelStatement>);

/// Mathematical model of a parsed module.
pub struct ModuleV(pub Seq<ToplevelStatementV>);

impl View for Module {
    type V = ModuleV;

    open spec fn view(&self) -> ModuleV {
        ModuleV(self.0.deep_view())
    }
}

impl DeepView for Module {
    type V = ModuleV;

    open spec fn deep_view(&self) -> ModuleV {
        self.view()
    }
}

} // verus!
