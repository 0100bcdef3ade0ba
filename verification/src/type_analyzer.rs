use vstd::prelude::*;

use crate::ast;
use crate::ast::{chain_size_from, expr_size, ExpressionV, LiteralV};
use crate::ir;
use crate::ir::{VarType, VariableIdentifier};

verus! {

/// A type-checking or name-resolution failure, carrying its message.
#[derive(Debug)]
pub struct TypeError(pub String);

impl View for TypeError {
    type V = Seq<char>;

    open spec fn view(&self) -> Seq<char> {
        self.0@
    }
}

/// What a name is bound to: its storage identifier and its type.
#[derive(Debug, PartialEq, Eq, Clone, Copy, Structural)]
pub struct VarInfo {
    pub identifier: VariableIdentifier,
    pub var_type: VarType,
}

impl DeepView for VarInfo {
    type V = VarInfo;

    open spec fn deep_view(&self) -> VarInfo {
        *self
    }
}

/// An expression the resolver has typed: the integer or the boolean form
/// of the intermediate representation.
pub enum TypedExpression {
    Int(ir::IntExpression),
    Boolean(ir::BooleanExpression),
}

/// Mathematical model of a typed expression.
pub enum TypedExpressionV {
    Int(ir::IntExpression),
    Boolean(ir::BooleanExpressionV),
}

impl View for TypedExpression {
    type V = TypedExpressionV;

    open spec fn view(&self) -> TypedExpressionV {
        match self {
            TypedExpression::Int(e) => TypedExpressionV::Int(*e),
            TypedExpression::Boolean(e) => TypedExpressionV::Boolean(e@),
        }
    }
}

impl TypedExpression {
    /// Demand the integer form.
    pub fn is_int(self) -> (r: Result<ir::IntExpression, TypeError>)
        ensures
            match r {
                Ok(e) => self@ == TypedExpressionV::Int(e),
                Err(er) => er@ == "Expected int"@ && (self@ is Boolean),
            },
    {
        match self {
            TypedExpression::Int(e) => Ok(e),
            TypedExpression::Boolean(_) => Err(TypeError(String::from_str("Expected int"))),
        }
    }

    /// Demand the boolean form.
    pub fn is_boolean(self) -> (r: Result<ir::BooleanExpression, TypeError>)
        ensures
            match r {
                Ok(e) => self@ == TypedExpressionV::Boolean(e@),
                Err(er) => er@ == "Expected bool"@ && (self@ is Int),
            },
    {
        match self {
            TypedExpression::Boolean(e) => Ok(e),
            TypedExpression::Int(_) => Err(TypeError(String::from_str("Expected bool"))),
        }
    }

    /// The type of the expression.
    pub fn to_var_type(&self) -> (r: VarType)
        ensures
            r == spec_type_of(self@),
    {
        match self {
            TypedExpression::Int(_) => VarType::Int,
            TypedExpression::Boolean(_) => VarType::Boolean,
        }
    }
}

/// The type of a typed expression.
pub open spec fn spec_type_of(te: TypedExpressionV) -> VarType {
    match te {
        TypedExpressionV::Int(_) => VarType::Int,
        TypedExpressionV::Boolean(_) => VarType::Boolean,
    }
}

/// One lexical scope frame: names bound to identifiers, newest last.
pub type FrameV = Seq<(Seq<char>, VarInfo)>;

/// Mathematical model of the resolver state: the scope stack, the locals
/// table of the function being resolved, and the module-wide identifier
/// counter.
pub struct AnalyzerV {
    pub scopes: Seq<FrameV>,
    pub locals: Seq<(VariableIdentifier, VarType)>,
    pub current_identifier: usize,
}

/// The result of one resolver step: the new state and a value, or a
/// failure message.
pub type RRes<T> = Result<(AnalyzerV, T), Seq<char>>;

/// Look a name up in one frame, newest binding first.
pub open spec fn spec_lookup_frame(frame: FrameV, name: Seq<char>) -> Option<VarInfo>
    decreases frame.len(),
{
    if frame.len() == 0 {
        None
    } else if frame.last().0 == name {
        Some(frame.last().1)
    } else {
        spec_lookup_frame(frame.drop_last(), name)
    }
}

/// Look a name up on the scope stack, walking innermost to outermost.
pub open spec fn spec_lookup_scopes(scopes: Seq<FrameV>, name: Seq<char>) -> Option<VarInfo>
    decreases scopes.len(),
{
    if scopes.len() == 0 {
        None
    } else {
        match spec_lookup_frame(scopes.last(), name) {
            Some(vi) => Some(vi),
            None => spec_lookup_scopes(scopes.drop_last(), name),
        }
    }
}

/// A fresh identifier: the counter is advanced and never reused.  The
/// counter running out of the machine word is a failure; it cannot occur
/// for any module that fits in memory.
pub open spec fn spec_fresh(st: AnalyzerV) -> RRes<VariableIdentifier> {
    if st.current_identifier == usize::MAX {
        Err("identifier space exhausted"@)
    } else {
        let next = (st.current_identifier + 1) as usize;
        Ok(
            (
                AnalyzerV {
                    current_identifier: next,
                    scopes: st.scopes,
                    locals: st.locals,
                },
                VariableIdentifier(next),
            ),
        )
    }
}

/// The failure message for an unknown variable.
pub open spec fn spec_not_found_msg(name: Seq<char>) -> Seq<char> {
    "variable "@ + name + " not found"@
}

/// The printed name of a type.
pub open spec fn spec_type_name(vt: VarType) -> Seq<char> {
    match vt {
        VarType::Int => "Int"@,
        VarType::Boolean => "Boolean"@,
    }
}

/// The failure message for re-assigning a variable at the wrong type.
pub open spec fn spec_mismatch_msg(vt: VarType, name: Seq<char>) -> Seq<char> {
    "expression is of type "@ + spec_type_name(vt) + ", but variable "@ + name + " is not."@
}

/// Resolve a literal: integers and booleans stand for themselves; a name
/// resolves against the scope stack, at the type it was declared with.
pub open spec fn spec_resolve_literal(st: AnalyzerV, lit: LiteralV) -> RRes<TypedExpressionV> {
    match lit {
        LiteralV::Integer(i) => Ok((st, TypedExpressionV::Int(ir::IntExpression::Literal(i)))),
        LiteralV::Boolean(b) => Ok(
            (st, TypedExpressionV::Boolean(ir::BooleanExpressionV::Literal(b))),
        ),
        LiteralV::Variable(name) => match spec_lookup_scopes(st.scopes, name) {
            None => Err(spec_not_found_msg(name)),
            Some(vi) => Ok(
                (
                    st,
                    match vi.var_type {
                        VarType::Int => TypedExpressionV::Int(
                            ir::IntExpression::Var(vi.identifier),
                        ),
                        VarType::Boolean => TypedExpressionV::Boolean(
                            ir::BooleanExpressionV::Var(vi.identifier),
                        ),
                    },
                ),
            ),
        },
    }
}

/// The intermediate form of a relational operator.
pub open spec fn spec_cmp_op(op: ast::ComparisonOp) -> ir::IntComparisonOp {
    match op {
        ast::ComparisonOp::Equals => ir::IntComparisonOp::Equal,
        ast::ComparisonOp::NotEquals => ir::IntComparisonOp::NotEquals,
        ast::ComparisonOp::LessThan => ir::IntComparisonOp::LessThan,
        ast::ComparisonOp::LessThanEquals => ir::IntComparisonOp::LessThanEquals,
        ast::ComparisonOp::GreaterThan => ir::IntComparisonOp::GreaterThan,
        ast::ComparisonOp::GreaterThanEquals => ir::IntComparisonOp::GreaterThanEquals,
    }
}

/// Finish a binary node once both operands are resolved.  The legality of
/// the operator follows the type of the left operand; a lazy boolean
/// connective additionally reserves a fresh boolean slot for its
/// short-circuit result, recorded in the function's locals.
pub open spec fn spec_finish_binary(
    st: AnalyzerV,
    tl: TypedExpressionV,
    op: ast::BinaryOp,
    tr: TypedExpressionV,
) -> RRes<TypedExpressionV> {
    match tl {
        TypedExpressionV::Int(le) => match tr {
            TypedExpressionV::Int(re) => {
                let int_op = match op {
                    ast::BinaryOp::Plus => Some(ir::IntBinaryOp::Plus),
                    ast::BinaryOp::Minus => Some(ir::IntBinaryOp::Minus),
                    ast::BinaryOp::Multiply => Some(ir::IntBinaryOp::Multiply),
                    ast::BinaryOp::Divide => Some(ir::IntBinaryOp::Divide),
                    _ => None,
                };
                match int_op {
                    Some(int_op) => Ok(
                        (
                            st,
                            TypedExpressionV::Int(
                                ir::IntExpression::BinaryOperation(
                                    Box::new(le),
                                    int_op,
                                    Box::new(re),
                                ),
                            ),
                        ),
                    ),
                    None => Err("Operator not supported for int"@),
                }
            },
            TypedExpressionV::Boolean(_) => Err("Expected int"@),
        },
        TypedExpressionV::Boolean(le) => match tr {
            TypedExpressionV::Boolean(re) => {
                let bool_op = match op {
                    ast::BinaryOp::And => Some(ir::BooleanOperator::And),
                    ast::BinaryOp::Or => Some(ir::BooleanOperator::Or),
                    _ => None,
                };
                match bool_op {
                    Some(bool_op) => match spec_fresh(st) {
                        Ok((st1, id)) => Ok(
                            (
                                AnalyzerV {
                                    locals: st1.locals.push((id, VarType::Boolean)),
                                    scopes: st1.scopes,
                                    current_identifier: st1.current_identifier,
                                },
                                TypedExpressionV::Boolean(
                                    ir::BooleanExpressionV::Operator(
                                        id,
                                        Box::new(le),
                                        bool_op,
                                        Box::new(re),
                                    ),
                                ),
                            ),
                        ),
                        Err(m) => Err(m),
                    },
                    None => Err("Operator not supported for boolean"@),
                }
            },
            TypedExpressionV::Int(_) => Err("Expected bool"@),
        },
    }
}

/// Resolve one expression.  State is threaded left to right: operands are
/// resolved in source order, so identifier allocation order follows the
/// source.
pub open spec fn spec_resolve_expression(st: AnalyzerV, e: ExpressionV) -> RRes<TypedExpressionV>
    decreases e, 0int,
{
    match e {
        ExpressionV::Literal(l) => spec_resolve_literal(st, l),
        ExpressionV::Prefix(op, inner) => match spec_resolve_expression(st, *inner) {
            Ok((st1, te)) => match op {
                ast::PrefixOp::Negate => match te {
                    TypedExpressionV::Int(ie) => Ok(
                        (st1, TypedExpressionV::Int(ir::IntExpression::Negate(Box::new(ie)))),
                    ),
                    TypedExpressionV::Boolean(_) => Err("Expected int"@),
                },
                ast::PrefixOp::Not => match te {
                    TypedExpressionV::Boolean(be) => Ok(
                        (
                            st1,
                            TypedExpressionV::Boolean(
                                ir::BooleanExpressionV::Not(Box::new(be)),
                            ),
                        ),
                    ),
                    TypedExpressionV::Int(_) => Err("Expected bool"@),
                },
            },
            Err(m) => Err(m),
        },
        ExpressionV::BinaryOp(l, op, r) => match spec_resolve_expression(st, *l) {
            Ok((st1, tl)) => match spec_resolve_expression(st1, *r) {
                Ok((st2, tr)) => spec_finish_binary(st2, tl, op, tr),
                Err(m) => Err(m),
            },
            Err(m) => Err(m),
        },
        ExpressionV::Comparison(l, chain) => match spec_resolve_expression(st, *l) {
            Ok((st1, tl)) => match tl {
                TypedExpressionV::Int(le) => match spec_resolve_chain(st1, chain, 0, Seq::empty()) {
                    Ok((st2, links)) => Ok(
                        (
                            st2,
                            TypedExpressionV::Boolean(
                                ir::BooleanExpressionV::Comparison(
                                    ir::ComparisonExpressionV::IntComparison(le, links),
                                ),
                            ),
                        ),
                    ),
                    Err(m) => Err(m),
                },
                TypedExpressionV::Boolean(_) => Err("Expected int"@),
            },
            Err(m) => Err(m),
        },
    }
}

/// Resolve the links of a comparison chain from position `k` onward; each
/// operand must be an integer.
pub open spec fn spec_resolve_chain(
    st: AnalyzerV,
    chain: Seq<(ast::ComparisonOp, ExpressionV)>,
    k: int,
    acc: Seq<(ir::IntComparisonOp, ir::IntExpression)>,
) -> RRes<Seq<(ir::IntComparisonOp, ir::IntExpression)>>
    decreases chain, chain.len() - k
        via spec_resolve_chain_decreases
{
    if 0 <= k < chain.len() {
        match spec_resolve_expression(st, chain[k].1) {
            Ok((st1, te)) => match te {
                TypedExpressionV::Int(ie) => spec_resolve_chain(
                    st1,
                    chain,
                    k + 1,
                    acc.push((spec_cmp_op(chain[k].0), ie)),
                ),
                TypedExpressionV::Boolean(_) => Err("Expected int"@),
            },
            Err(m) => Err(m),
        }
    } else {
        Ok((st, acc))
    }
}

#[via_fn]
proof fn spec_resolve_chain_decreases(
    st: AnalyzerV,
    chain: Seq<(ast::ComparisonOp, ExpressionV)>,
    k: int,
    acc: Seq<(ir::IntComparisonOp, ir::IntExpression)>,
) {
    if 0 <= k < chain.len() {
        vstd::seq::axiom_seq_index_decreases(chain, k);
        assert(decreases_to!(chain[k] => chain[k].1));
    }
}

/// Bind a name in the innermost scope frame.
pub open spec fn spec_bind(st: AnalyzerV, name: Seq<char>, vi: VarInfo) -> RRes<()> {
    if st.scopes.len() == 0 {
        Err("no open scope"@)
    } else {
        Ok(
            (
                AnalyzerV {
                    scopes: st.scopes.drop_last().push(st.scopes.last().push((name, vi))),
                    locals: st.locals,
                    current_identifier: st.current_identifier,
                },
                (),
            ),
        )
    }
}

/// Resolve one statement.
pub open spec fn spec_resolve_statement(st: AnalyzerV, s: ast::StatementV) -> RRes<ir::StatementV> {
    match s {
        ast::StatementV::Print(e) => match spec_resolve_expression(st, e) {
            Ok((st1, te)) => Ok(
                (
                    st1,
                    ir::StatementV::Print(
                        match te {
                            TypedExpressionV::Int(ie) => ir::PrintStatementV::Int(ie),
                            TypedExpressionV::Boolean(be) => ir::PrintStatementV::Boolean(be),
                        },
                    ),
                ),
            ),
            Err(m) => Err(m),
        },
        ast::StatementV::Assert(e, msg) => match spec_resolve_expression(st, e) {
            Ok((st1, te)) => match te {
                TypedExpressionV::Boolean(be) => Ok((st1, ir::StatementV::Assert(be, msg))),
                TypedExpressionV::Int(_) => Err("Expected bool"@),
            },
            Err(m) => Err(m),
        },
        ast::StatementV::Declaration(name, e) => match spec_fresh(st) {
            Ok((st1, id)) => match spec_resolve_expression(st1, e) {
                Ok((st2, te)) => {
                    let vt = spec_type_of(te);
                    let st3 = AnalyzerV {
                        locals: st2.locals.push((id, vt)),
                        scopes: st2.scopes,
                        current_identifier: st2.current_identifier,
                    };
                    match spec_bind(st3, name, VarInfo { identifier: id, var_type: vt }) {
                        Ok((st4, _)) => Ok(
                            (
                                st4,
                                ir::StatementV::Assignment(
                                    id,
                                    match te {
                                        TypedExpressionV::Int(ie) => ir::AssignmentStatementV::Int(
                                            ie,
                                        ),
                                        TypedExpressionV::Boolean(be)
                                            => ir::AssignmentStatementV::Boolean(be),
                                    },
                                ),
                            ),
                        ),
                        Err(m) => Err(m),
                    }
                },
                Err(m) => Err(m),
            },
            Err(m) => Err(m),
        },
        ast::StatementV::Assignment(name, e) => match spec_resolve_expression(st, e) {
            Ok((st1, te)) => match spec_lookup_scopes(st1.scopes, name) {
                None => Err(spec_not_found_msg(name)),
                Some(vi) => {
                    let vt = spec_type_of(te);
                    if vt != vi.var_type {
                        Err(spec_mismatch_msg(vt, name))
                    } else {
                        Ok(
                            (
                                st1,
                                ir::StatementV::Assignment(
                                    vi.identifier,
                                    match te {
                                        TypedExpressionV::Int(ie) => ir::AssignmentStatementV::Int(
                                            ie,
                                        ),
                                        TypedExpressionV::Boolean(be)
                                            => ir::AssignmentStatementV::Boolean(be),
                                    },
                                ),
                            ),
                        )
                    }
                },
            },
            Err(m) => Err(m),
        },
    }
}

/// Resolve the statements of a function body from position `k` onward.
pub open spec fn spec_resolve_statements(
    st: AnalyzerV,
    stmts: Seq<ast::StatementV>,
    k: int,
    acc: Seq<ir::StatementV>,
) -> RRes<Seq<ir::StatementV>>
    decreases stmts.len() - k,
{
    if 0 <= k < stmts.len() {
        match spec_resolve_statement(st, stmts[k]) {
            Ok((st1, s)) => spec_resolve_statements(st1, stmts, k + 1, acc.push(s)),
            Err(m) => Err(m),
        }
    } else {
        Ok((st, acc))
    }
}

/// Resolve one top-level definition: a fresh scope frame and a fresh
/// locals table, the body in order, then the frame is popped.  The
/// identifier counter carries across functions, which keeps identifiers
/// unique module-wide.
pub open spec fn spec_resolve_top_level(st: AnalyzerV, t: ast::ToplevelStatementV) -> RRes<
    ir::ToplevelStatementV,
> {
    match t {
        ast::ToplevelStatementV::MainFunction(stmts) => {
            let st1 = AnalyzerV {
                scopes: st.scopes.push(Seq::empty()),
                locals: Seq::empty(),
                current_identifier: st.current_identifier,
            };
            match spec_resolve_statements(st1, stmts, 0, Seq::empty()) {
                Ok((st2, body)) => Ok(
                    (
                        AnalyzerV {
                            scopes: st2.scopes.drop_last(),
                            locals: st2.locals,
                            current_identifier: st2.current_identifier,
                        },
                        ir::ToplevelStatementV::Function {
                            name: "main"@,
                            body,
                            locals: st2.locals,
                        },
                    ),
                ),
                Err(m) => Err(m),
            }
        },
    }
}

/// Resolve the top-level definitions from position `k` onward.
pub open spec fn spec_resolve_top_levels(
    st: AnalyzerV,
    tops: Seq<ast::ToplevelStatementV>,
    k: int,
    acc: Seq<ir::ToplevelStatementV>,
) -> RRes<Seq<ir::ToplevelStatementV>>
    decreases tops.len() - k,
{
    if 0 <= k < tops.len() {
        match spec_resolve_top_level(st, tops[k]) {
            Ok((st1, f)) => spec_resolve_top_levels(st1, tops, k + 1, acc.push(f)),
            Err(m) => Err(m),
        }
    } else {
        Ok((st, acc))
    }
}

/// Resolve a whole module from a given resolver state.
pub open spec fn spec_resolve_module(st: AnalyzerV, m: ast::ModuleV) -> RRes<ir::ModuleV> {
    match spec_resolve_top_levels(st, m.0, 0, Seq::empty()) {
        Ok((st1, fns)) => Ok((st1, ir::ModuleV(fns))),
        Err(msg) => Err(msg),
    }
}

/// The initial resolver state: no scopes, no locals, counter at zero.
pub open spec fn spec_initial_state() -> AnalyzerV {
    AnalyzerV { scopes: Seq::empty(), locals: Seq::empty(), current_identifier: 0 }
}

/// The resolution of a whole module by a fresh resolver.
pub open spec fn spec_resolve(m: ast::ModuleV) -> Result<ir::ModuleV, Seq<char>> {
    match spec_resolve_module(spec_initial_state(), m) {
        Ok((_, im)) => Ok(im),
        Err(msg) => Err(msg),
    }
}

/// Resolving an expression leaves the scope stack unchanged: it may
/// allocate identifiers and record locals, but binds no name.
pub proof fn lemma_expr_preserves_scopes(st: AnalyzerV, e: ExpressionV)
    ensures
        match spec_resolve_expression(st, e) {
            Ok((st1, _)) => st1.scopes == st.scopes,
            Err(_) => true,
        },
    decreases e, 1int,
{
    match e {
        ExpressionV::Literal(_) => {},
        ExpressionV::Prefix(_, inner) => {
            lemma_expr_preserves_scopes(st, *inner);
        },
        ExpressionV::BinaryOp(l, _, r) => {
            lemma_expr_preserves_scopes(st, *l);
            match spec_resolve_expression(st, *l) {
                Ok((st1, _)) => {
                    lemma_expr_preserves_scopes(st1, *r);
                },
                Err(_) => {},
            }
        },
        ExpressionV::Comparison(l, chain) => {
            lemma_expr_preserves_scopes(st, *l);
            match spec_resolve_expression(st, *l) {
                Ok((st1, _)) => {
                    lemma_chain_preserves_scopes(st1, chain, 0, Seq::empty());
                },
                Err(_) => {},
            }
        },
    }
}

/// Resolving the links of a comparison chain leaves the scope stack
/// unchanged.
pub proof fn lemma_chain_preserves_scopes(
    st: AnalyzerV,
    chain: Seq<(ast::ComparisonOp, ExpressionV)>,
    k: int,
    acc: Seq<(ir::IntComparisonOp, ir::IntExpression)>,
)
    ensures
        match spec_resolve_chain(st, chain, k, acc) {
            Ok((st1, _)) => st1.scopes == st.scopes,
            Err(_) => true,
        },
    decreases chain, chain.len() - k, 2int,
{
    if 0 <= k < chain.len() {
        vstd::seq::axiom_seq_index_decreases(chain, k);
        assert(decreases_to!(chain[k] => chain[k].1));
        lemma_expr_preserves_scopes(st, chain[k].1);
        match spec_resolve_expression(st, chain[k].1) {
            Ok((st1, te)) => match te {
                TypedExpressionV::Int(ie) => {
                    lemma_chain_preserves_scopes(
                        st1,
                        chain,
                        k + 1,
                        acc.push((spec_cmp_op(chain[k].0), ie)),
                    );
                },
                TypedExpressionV::Boolean(_) => {},
            },
            Err(_) => {},
        }
    }
}

/// Resolving a statement keeps the depth of the scope stack: a
/// declaration rebinds inside the innermost frame only.
pub proof fn lemma_statement_preserves_depth(st: AnalyzerV, s: ast::StatementV)
    ensures
        match spec_resolve_statement(st, s) {
            Ok((st1, _)) => st1.scopes.len() == st.scopes.len(),
            Err(_) => true,
        },
{
    match s {
        ast::StatementV::Print(e) => {
            lemma_expr_preserves_scopes(st, e);
        },
        ast::StatementV::Assert(e, _) => {
            lemma_expr_preserves_scopes(st, e);
        },
        ast::StatementV::Declaration(_, e) => {
            match spec_fresh(st) {
                Ok((st1, _)) => {
                    lemma_expr_preserves_scopes(st1, e);
                },
                Err(_) => {},
            }
        },
        ast::StatementV::Assignment(_, e) => {
            lemma_expr_preserves_scopes(st, e);
        },
    }
}

/// Resolving a statement list keeps the depth of the scope stack.
pub proof fn lemma_statements_preserve_depth(
    st: AnalyzerV,
    stmts: Seq<ast::StatementV>,
    k: int,
    acc: Seq<ir::StatementV>,
)
    ensures
        match spec_resolve_statements(st, stmts, k, acc) {
            Ok((st1, _)) => st1.scopes.len() == st.scopes.len(),
            Err(_) => true,
        },
    decreases stmts.len() - k,
{
    if 0 <= k < stmts.len() {
        lemma_statement_preserves_depth(st, stmts[k]);
        match spec_resolve_statement(st, stmts[k]) {
            Ok((st1, s)) => {
                lemma_statements_preserve_depth(st1, stmts, k + 1, acc.push(s));
            },
            Err(_) => {},
        }
    }
}

/// How one resolver state extends another as identifiers are allocated:
/// the counter never goes down, the locals table only grows, every
/// identifier it gains lies strictly above the old counter and at most at
/// the new one, and no two gained identifiers coincide.
pub open spec fn extends_ids(st: AnalyzerV, st1: AnalyzerV) -> bool {
    &&& st.current_identifier <= st1.current_identifier
    &&& st.locals.len() <= st1.locals.len()
    &&& st1.locals.subrange(0, st.locals.len() as int) == st.locals
    &&& forall|j: int|
        st.locals.len() <= j < st1.locals.len() ==> st.current_identifier < (
        #[trigger] st1.locals[j]).0.0 <= st1.current_identifier
    &&& forall|j1: int, j2: int|
        st.locals.len() <= j1 < j2 < st1.locals.len() ==> (#[trigger] st1.locals[j1]).0.0 != (
        #[trigger] st1.locals[j2]).0.0
}

/// A locals table is sound for a counter value when every identifier in
/// it is at most the counter and no identifier repeats.
pub open spec fn table_ok(locals: Seq<(VariableIdentifier, VarType)>, c: usize) -> bool {
    &&& forall|j: int| 0 <= j < locals.len() ==> (#[trigger] locals[j]).0.0 <= c
    &&& forall|j1: int, j2: int|
        0 <= j1 < j2 < locals.len() ==> locals[j1].0.0 != locals[j2].0.0
}

/// `extends_ids` composes.
pub proof fn lemma_extends_trans(st: AnalyzerV, st1: AnalyzerV, st2: AnalyzerV)
    requires
        extends_ids(st, st1),
        extends_ids(st1, st2),
    ensures
        extends_ids(st, st2),
{
    assert(st2.locals.subrange(0, st.locals.len() as int) =~= st1.locals.subrange(
        0,
        st.locals.len() as int,
    ));
    assert forall|j: int|
        st.locals.len() <= j < st2.locals.len() implies st.current_identifier < (
    #[trigger] st2.locals[j]).0.0 <= st2.current_identifier by {
        if j < st1.locals.len() {
            assert(st1.locals[j] == st2.locals.subrange(0, st1.locals.len() as int)[j]);
        }
    }
    assert forall|j1: int, j2: int|
        st.locals.len() <= j1 < j2 < st2.locals.len() implies (#[trigger] st2.locals[j1]).0.0 != (
    #[trigger] st2.locals[j2]).0.0 by {
        if j1 < st1.locals.len() {
            assert(st1.locals[j1] == st2.locals.subrange(0, st1.locals.len() as int)[j1]);
        }
        if j2 < st1.locals.len() {
            assert(st1.locals[j2] == st2.locals.subrange(0, st1.locals.len() as int)[j2]);
        }
    }
}

/// A sound table stays sound across an extension.
pub proof fn lemma_extends_table_ok(st: AnalyzerV, st1: AnalyzerV)
    requires
        extends_ids(st, st1),
        table_ok(st.locals, st.current_identifier),
    ensures
        table_ok(st1.locals, st1.current_identifier),
{
    assert forall|j: int| 0 <= j < st1.locals.len() implies (#[trigger] st1.locals[j]).0.0
        <= st1.current_identifier by {
        if j < st.locals.len() {
            assert(st1.locals[j] == st1.locals.subrange(0, st.locals.len() as int)[j]);
        }
    }
    assert forall|j1: int, j2: int|
        0 <= j1 < j2 < st1.locals.len() implies st1.locals[j1].0.0 != st1.locals[j2].0.0 by {
        if j1 < st.locals.len() {
            assert(st1.locals[j1] == st1.locals.subrange(0, st.locals.len() as int)[j1]);
        }
        if j2 < st.locals.len() {
            assert(st1.locals[j2] == st1.locals.subrange(0, st.locals.len() as int)[j2]);
        }
    }
}

/// Resolving an expression only appends fresh identifiers, each strictly
/// above the counter it was drawn from.
pub proof fn lemma_expr_extends_ids(st: AnalyzerV, e: ExpressionV)
    ensures
        match spec_resolve_expression(st, e) {
            Ok((st1, _)) => extends_ids(st, st1),
            Err(_) => true,
        },
    decreases e, 1int,
{
    match e {
        ExpressionV::Literal(_) => {
            assert(st.locals.subrange(0, st.locals.len() as int) =~= st.locals);
        },
        ExpressionV::Prefix(_, inner) => {
            lemma_expr_extends_ids(st, *inner);
        },
        ExpressionV::BinaryOp(l, op, r) => {
            lemma_expr_extends_ids(st, *l);
            match spec_resolve_expression(st, *l) {
                Ok((st1, tl)) => {
                    lemma_expr_extends_ids(st1, *r);
                    match spec_resolve_expression(st1, *r) {
                        Ok((st2, tr)) => {
                            lemma_extends_trans(st, st1, st2);
                            match spec_finish_binary(st2, tl, op, tr) {
                                Ok((st3, _)) => {
                                    assert(extends_ids(st2, st3)) by {
                                        assert(st3.locals.subrange(
                                            0,
                                            st2.locals.len() as int,
                                        ) =~= st2.locals);
                                    }
                                    lemma_extends_trans(st, st2, st3);
                                },
                                Err(_) => {},
                            }
                        },
                        Err(_) => {},
                    }
                },
                Err(_) => {},
            }
        },
        ExpressionV::Comparison(l, chain) => {
            lemma_expr_extends_ids(st, *l);
            match spec_resolve_expression(st, *l) {
                Ok((st1, _)) => {
                    lemma_chain_extends_ids(st1, chain, 0, Seq::empty());
                    match spec_resolve_chain(st1, chain, 0, Seq::empty()) {
                        Ok((st2, _)) => {
                            lemma_extends_trans(st, st1, st2);
                        },
                        Err(_) => {},
                    }
                },
                Err(_) => {},
            }
        },
    }
}

/// Resolving a comparison chain only appends fresh identifiers.
pub proof fn lemma_chain_extends_ids(
    st: AnalyzerV,
    chain: Seq<(ast::ComparisonOp, ExpressionV)>,
    k: int,
    acc: Seq<(ir::IntComparisonOp, ir::IntExpression)>,
)
    ensures
        match spec_resolve_chain(st, chain, k, acc) {
            Ok((st1, _)) => extends_ids(st, st1),
            Err(_) => true,
        },
    decreases chain, chain.len() - k, 2int,
{
    if 0 <= k < chain.len() {
        vstd::seq::axiom_seq_index_decreases(chain, k);
        assert(decreases_to!(chain[k] => chain[k].1));
        lemma_expr_extends_ids(st, chain[k].1);
        match spec_resolve_expression(st, chain[k].1) {
            Ok((st1, te)) => match te {
                TypedExpressionV::Int(ie) => {
                    lemma_chain_extends_ids(
                        st1,
                        chain,
                        k + 1,
                        acc.push((spec_cmp_op(chain[k].0), ie)),
                    );
                    match spec_resolve_chain(st1, chain, k + 1, acc.push(
                        (spec_cmp_op(chain[k].0), ie),
                    )) {
                        Ok((st2, _)) => {
                            lemma_extends_trans(st, st1, st2);
                        },
                        Err(_) => {},
                    }
                },
                TypedExpressionV::Boolean(_) => {},
            },
            Err(_) => {},
        }
    } else {
        assert(st.locals.subrange(0, st.locals.len() as int) =~= st.locals);
    }
}

/// Resolving a statement only appends fresh identifiers, and keeps a
/// sound locals table sound.
pub proof fn lemma_statement_extends_ids(st: AnalyzerV, s: ast::StatementV)
    ensures
        match spec_resolve_statement(st, s) {
            Ok((st1, _)) => extends_ids(st, st1) && (table_ok(st.locals, st.current_identifier)
                ==> table_ok(st1.locals, st1.current_identifier)),
            Err(_) => true,
        },
{
    match s {
        ast::StatementV::Print(e) => {
            lemma_expr_extends_ids(st, e);
            match spec_resolve_expression(st, e) {
                Ok((st1, _)) => {
                    if table_ok(st.locals, st.current_identifier) {
                        lemma_extends_table_ok(st, st1);
                    }
                },
                Err(_) => {},
            }
        },
        ast::StatementV::Assert(e, _) => {
            lemma_expr_extends_ids(st, e);
            match spec_resolve_expression(st, e) {
                Ok((st1, _)) => {
                    if table_ok(st.locals, st.current_identifier) {
                        lemma_extends_table_ok(st, st1);
                    }
                },
                Err(_) => {},
            }
        },
        ast::StatementV::Assignment(_, e) => {
            lemma_expr_extends_ids(st, e);
            match spec_resolve_expression(st, e) {
                Ok((st1, _)) => {
                    if table_ok(st.locals, st.current_identifier) {
                        lemma_extends_table_ok(st, st1);
                    }
                },
                Err(_) => {},
            }
        },
        ast::StatementV::Declaration(_, e) => {
            match spec_fresh(st) {
                Ok((sta, id)) => {
                    assert(extends_ids(st, sta)) by {
                        assert(sta.locals.subrange(0, st.locals.len() as int) =~= st.locals);
                    }
                    lemma_expr_extends_ids(sta, e);
                    match spec_resolve_expression(sta, e) {
                        Ok((stb, te)) => {
                            let vt = spec_type_of(te);
                            let stc = AnalyzerV {
                                locals: stb.locals.push((id, vt)),
                                scopes: stb.scopes,
                                current_identifier: stb.current_identifier,
                            };
                            assert(extends_ids(st, stc)) by {
                                lemma_extends_trans(st, sta, stb);
                                assert(stc.locals.subrange(0, st.locals.len() as int)
                                    =~= stb.locals.subrange(0, st.locals.len() as int));
                            }
                            if table_ok(st.locals, st.current_identifier) {
                                lemma_extends_table_ok(st, sta);
                                lemma_extends_table_ok(sta, stb);
                                assert(table_ok(stc.locals, stc.current_identifier)) by {
                                    assert(forall|j: int|
                                        0 <= j < stb.locals.len() ==> (
                                        #[trigger] stb.locals[j]).0.0 != id.0) by {
                                        assert(forall|j: int|
                                            st.locals.len() <= j < stb.locals.len()
                                                ==> sta.current_identifier < (
                                            #[trigger] stb.locals[j]).0.0);
                                        assert forall|j: int|
                                            0 <= j < st.locals.len() implies (
                                        #[trigger] stb.locals[j]).0.0
                                            <= st.current_identifier by {
                                            assert(stb.locals[j] == stb.locals.subrange(
                                                0,
                                                st.locals.len() as int,
                                            )[j]);
                                            assert(sta.locals[j] == st.locals[j]);
                                        }
                                    }
                                }
                            }
                        },
                        Err(_) => {},
                    }
                },
                Err(_) => {},
            }
        },
    }
}

/// Resolving a statement list only appends fresh identifiers, and keeps a
/// sound locals table sound.
pub proof fn lemma_statements_extend_ids(
    st: AnalyzerV,
    stmts: Seq<ast::StatementV>,
    k: int,
    acc: Seq<ir::StatementV>,
)
    ensures
        match spec_resolve_statements(st, stmts, k, acc) {
            Ok((st1, _)) => extends_ids(st, st1) && (table_ok(st.locals, st.current_identifier)
                ==> table_ok(st1.locals, st1.current_identifier)),
            Err(_) => true,
        },
    decreases stmts.len() - k,
{
    if 0 <= k < stmts.len() {
        lemma_statement_extends_ids(st, stmts[k]);
        match spec_resolve_statement(st, stmts[k]) {
            Ok((st1, s)) => {
                lemma_statements_extend_ids(st1, stmts, k + 1, acc.push(s));
                match spec_resolve_statements(st1, stmts, k + 1, acc.push(s)) {
                    Ok((st2, _)) => {
                        lemma_extends_trans(st, st1, st2);
                    },
                    Err(_) => {},
                }
            },
            Err(_) => {},
        }
    } else {
        assert(st.locals.subrange(0, st.locals.len() as int) =~= st.locals);
    }
}

/// The identifiers of every function's locals table, projected out.
pub open spec fn locals_of(t: ir::ToplevelStatementV) -> Seq<(VariableIdentifier, VarType)> {
    match t {
        ir::ToplevelStatementV::Function { locals, .. } => locals,
    }
}

/// Every identifier of every emitted function lies at most at `c`, and no
/// identifier appears twice anywhere, within one function or across two.
pub open spec fn module_ids_ok(fns: Seq<ir::ToplevelStatementV>, c: usize) -> bool {
    &&& forall|f: int, j: int|
        0 <= f < fns.len() && 0 <= j < locals_of(fns[f]).len() ==> (#[trigger] locals_of(
            fns[f],
        )[j]).0.0 <= c
    &&& forall|f1: int, j1: int, f2: int, j2: int|
        0 <= f1 < fns.len() && 0 <= j1 < locals_of(fns[f1]).len() && 0 <= f2 < fns.len() && 0
            <= j2 < locals_of(fns[f2]).len() && (f1 != f2 || j1 != j2) ==> (#[trigger] locals_of(
            fns[f1],
        )[j1]).0.0 != (#[trigger] locals_of(fns[f2])[j2]).0.0
}

/// Resolving one function yields a locals table whose identifiers are
/// fresh: strictly above the counter the function started from, at most
/// at the one it ended with, and pairwise distinct.
pub proof fn lemma_top_level_ids(st: AnalyzerV, t: ast::ToplevelStatementV)
    ensures
        match spec_resolve_top_level(st, t) {
            Ok((st1, f)) => {
                &&& st.current_identifier <= st1.current_identifier
                &&& forall|j: int|
                    0 <= j < locals_of(f).len() ==> st.current_identifier < (
                    #[trigger] locals_of(f)[j]).0.0 <= st1.current_identifier
                &&& forall|j1: int, j2: int|
                    0 <= j1 < j2 < locals_of(f).len() ==> locals_of(f)[j1].0.0 != locals_of(
                        f,
                    )[j2].0.0
            },
            Err(_) => true,
        },
{
    match t {
        ast::ToplevelStatementV::MainFunction(stmts) => {
            let st1 = AnalyzerV {
                scopes: st.scopes.push(Seq::empty()),
                locals: Seq::empty(),
                current_identifier: st.current_identifier,
            };
            lemma_statements_extend_ids(st1, stmts, 0, Seq::empty());
        },
    }
}

/// Resolving the remaining functions keeps the whole module's identifier
/// table sound.
pub proof fn lemma_top_levels_ids(
    st: AnalyzerV,
    tops: Seq<ast::ToplevelStatementV>,
    k: int,
    acc: Seq<ir::ToplevelStatementV>,
)
    ensures
        match spec_resolve_top_levels(st, tops, k, acc) {
            Ok((st1, fns)) => module_ids_ok(acc, st.current_identifier) ==> module_ids_ok(
                fns,
                st1.current_identifier,
            ),
            Err(_) => true,
        },
    decreases tops.len() - k,
{
    if 0 <= k < tops.len() {
        lemma_top_level_ids(st, tops[k]);
        match spec_resolve_top_level(st, tops[k]) {
            Ok((st1, f)) => {
                lemma_top_levels_ids(st1, tops, k + 1, acc.push(f));
                if module_ids_ok(acc, st.current_identifier) {
                    assert(module_ids_ok(acc.push(f), st1.current_identifier)) by {
                        assert(forall|f0: int|
                            0 <= f0 < acc.len() ==> #[trigger] acc.push(f)[f0] == acc[f0]);
                        assert(acc.push(f)[acc.len() as int] == f);
                    }
                }
            },
            Err(_) => {},
        }
    }
}

/// IDENTIFIER UNIQUENESS.  Across a whole resolved module, no two
/// declared or synthesized variables ever receive the same identifier:
/// every pair of distinct positions in the functions' locals tables, in
/// one function or in two, holds distinct identifiers.
pub proof fn lemma_identifier_uniqueness(m: ast::ModuleV, im: ir::ModuleV)
    requires
        spec_resolve(m) == Ok::<ir::ModuleV, Seq<char>>(im),
    ensures
        forall|f1: int, j1: int, f2: int, j2: int|
            0 <= f1 < im.0.len() && 0 <= j1 < locals_of(im.0[f1]).len() && 0 <= f2 < im.0.len()
                && 0 <= j2 < locals_of(im.0[f2]).len() && (f1 != f2 || j1 != j2) ==> (
            #[trigger] locals_of(im.0[f1])[j1]).0.0 != (#[trigger] locals_of(im.0[f2])[j2]).0.0,
{
    lemma_top_levels_ids(spec_initial_state(), m.0, 0, Seq::empty());
}

/// The resolver: a scope stack, the locals of the function being
/// resolved, and the module-wide identifier counter, owned by exactly one
/// compilation.
pub struct Analyzer {
    pub scopes: Vec<Vec<(String, VarInfo)>>,
    pub locals: Vec<(VariableIdentifier, VarType)>,
    pub current_identifier: usize,
}

impl View for Analyzer {
    type V = AnalyzerV;

    open spec fn view(&self) -> AnalyzerV {
        AnalyzerV {
            scopes: self.scopes.deep_view(),
            locals: self.locals.deep_view(),
            current_identifier: self.current_identifier,
        }
    }
}

impl Analyzer {
    /// A fresh resolver.
    pub fn new() -> (a: Analyzer)
        ensures
            a@ == spec_initial_state(),
    {
        let a = Analyzer { scopes: Vec::new(), locals: Vec::new(), current_identifier: 0 };
        proof {
            assert(a@.scopes =~= spec_initial_state().scopes);
            assert(a@.locals =~= spec_initial_state().locals);
        }
        a
    }

    /// The next unused identifier.
    fn get_free_identifier(&mut self) -> (r: Result<VariableIdentifier, TypeError>)
        ensures
            match r {
                Ok(id) => spec_fresh(old(self)@) == Ok::<_, Seq<char>>((final(self)@, id)),
                Err(e) => spec_fresh(old(self)@) == Err::<(AnalyzerV, VariableIdentifier), _>(e@)
                    && final(self)@ == old(self)@,
            },
    {
        if self.current_identifier == usize::MAX {
            Err(TypeError(String::from_str("identifier space exhausted")))
        } else {
            self.current_identifier = self.current_identifier + 1;
            Ok(VariableIdentifier(self.current_identifier))
        }
    }

    /// Look a name up on the scope stack, innermost frame first, newest
    /// binding first inside a frame.
    #[verifier::loop_isolation(false)]
    fn lookup(&self, name: &String) -> (r: Option<VarInfo>)
        ensures
            r == spec_lookup_scopes(self@.scopes, name@),
    {
        let mut f: usize = self.scopes.len();
        proof {
            assert(self@.scopes.subrange(0, f as int) =~= self@.scopes);
        }
        while f > 0
            invariant
                f <= self.scopes@.len(),
                spec_lookup_scopes(self@.scopes, name@) == spec_lookup_scopes(
                    self@.scopes.subrange(0, f as int),
                    name@,
                ),
            decreases f,
        {
            let frame = &self.scopes[f - 1];
            proof {
                assert(self@.scopes.subrange(0, f as int).last() == frame.deep_view());
                assert(self@.scopes.subrange(0, f as int).drop_last() =~= self@.scopes.subrange(
                    0,
                    f - 1,
                ));
            }
            let mut i: usize = frame.len();
            proof {
                assert(frame.deep_view().subrange(0, i as int) =~= frame.deep_view());
            }
            while i > 0
                invariant
                    i <= frame@.len(),
                    spec_lookup_frame(frame.deep_view(), name@) == spec_lookup_frame(
                        frame.deep_view().subrange(0, i as int),
                        name@,
                    ),
                decreases i,
            {
                proof {
                    assert(frame.deep_view().subrange(0, i as int).last() == frame@[i - 1
                    ].deep_view());
                    assert(frame.deep_view().subrange(0, i as int).drop_last()
                        =~= frame.deep_view().subrange(0, i - 1));
                }
                if frame[i - 1].0.eq(name) {
                    proof {
                        assert(frame.deep_view()[i - 1].0 == name@);
                        assert(spec_lookup_frame(
                            frame.deep_view().subrange(0, i as int),
                            name@,
                        ) == Some(frame.deep_view()[i - 1].1));
                        assert(spec_lookup_frame(frame.deep_view(), name@) == Some(
                            frame.deep_view()[i - 1].1,
                        ));
                        assert(self@.scopes.subrange(0, f as int).len() > 0);
                        assert(self@.scopes.subrange(0, f as int).last() == frame.deep_view());
                        assert(spec_lookup_scopes(
                            self@.scopes.subrange(0, f as int),
                            name@,
                        ) == Some(frame.deep_view()[i - 1].1));
                    }
                    return Some(frame[i - 1].1);
                }
                i = i - 1;
            }
            proof {
                assert(frame.deep_view().subrange(0, 0) =~= Seq::<(Seq<char>, VarInfo)>::empty());
            }
            f = f - 1;
        }
        proof {
            assert(self@.scopes.subrange(0, 0) =~= Seq::<FrameV>::empty());
        }
        None
    }

    /// Resolve a literal.
    fn resolve_literal(&mut self, literal: &ast::Literal) -> (r: Result<TypedExpression, TypeError>)
        ensures
            match r {
                Ok(te) => spec_resolve_literal(old(self)@, literal@) == Ok::<_, Seq<char>>(
                    (final(self)@, te@),
                ),
                Err(e) => spec_resolve_literal(old(self)@, literal@) == Err::<
                    (AnalyzerV, TypedExpressionV),
                    _,
                >(e@),
            },
    {
        match literal {
            ast::Literal::Integer(i) => Ok(TypedExpression::Int(ir::IntExpression::Literal(*i))),
            ast::Literal::Boolean(b) => Ok(
                TypedExpression::Boolean(ir::BooleanExpression::Literal(*b)),
            ),
            ast::Literal::Variable(name) => match self.lookup(name) {
                None => {
                    let msg = String::from_str("variable ").concat(name.as_str()).concat(
                        " not found",
                    );
                    Err(TypeError(msg))
                },
                Some(vi) => match vi.var_type {
                    VarType::Int => Ok(TypedExpression::Int(ir::IntExpression::Var(vi.identifier))),
                    VarType::Boolean => Ok(
                        TypedExpression::Boolean(ir::BooleanExpression::Var(vi.identifier)),
                    ),
                },
            },
        }
    }

    /// Resolve a prefix node: `-` demands an integer operand, `!` a
    /// boolean one.
    fn resolve_prefix(&mut self, expression: &ast::Expression, op: ast::PrefixOp) -> (r: Result<
        TypedExpression,
        TypeError,
    >)
        ensures
            match r {
                Ok(te) => spec_resolve_expression(
                    old(self)@,
                    ExpressionV::Prefix(op, Box::new(expression.deep_view())),
                ) == Ok::<_, Seq<char>>((final(self)@, te@)),
                Err(e) => spec_resolve_expression(
                    old(self)@,
                    ExpressionV::Prefix(op, Box::new(expression.deep_view())),
                ) == Err::<(AnalyzerV, TypedExpressionV), _>(e@),
            },
        decreases expr_size(*expression), 1int,
    {
        let te = match self.resolve_expression(expression) {
            Ok(te) => te,
            Err(e) => {
                return Err(e);
            },
        };
        match op {
            ast::PrefixOp::Negate => match te.is_int() {
                Ok(ie) => Ok(TypedExpression::Int(ir::IntExpression::Negate(Box::new(ie)))),
                Err(e) => Err(e),
            },
            ast::PrefixOp::Not => match te.is_boolean() {
                Ok(be) => Ok(TypedExpression::Boolean(ir::BooleanExpression::Not(Box::new(be)))),
                Err(e) => Err(e),
            },
        }
    }

    /// Resolve a binary node.
    fn resolve_binary(
        &mut self,
        left: &ast::Expression,
        op: ast::BinaryOp,
        right: &ast::Expression,
    ) -> (r: Result<TypedExpression, TypeError>)
        ensures
            match r {
                Ok(te) => spec_resolve_expression(
                    old(self)@,
                    ExpressionV::BinaryOp(
                        Box::new(left.deep_view()),
                        op,
                        Box::new(right.deep_view()),
                    ),
                ) == Ok::<_, Seq<char>>((final(self)@, te@)),
                Err(e) => spec_resolve_expression(
                    old(self)@,
                    ExpressionV::BinaryOp(
                        Box::new(left.deep_view()),
                        op,
                        Box::new(right.deep_view()),
                    ),
                ) == Err::<(AnalyzerV, TypedExpressionV), _>(e@),
            },
        decreases expr_size(*left) + expr_size(*right), 1int,
    {
        proof {
            crate::ast::lemma_expr_size_pos(*left);
            crate::ast::lemma_expr_size_pos(*right);
        }
        let tl = match self.resolve_expression(left) {
            Ok(te) => te,
            Err(e) => {
                return Err(e);
            },
        };
        let tr = match self.resolve_expression(right) {
            Ok(te) => te,
            Err(e) => {
                return Err(e);
            },
        };
        match tl {
            TypedExpression::Int(le) => {
                let re = match tr.is_int() {
                    Ok(re) => re,
                    Err(e) => {
                        return Err(e);
                    },
                };
                let int_op = match op {
                    ast::BinaryOp::Plus => Some(ir::IntBinaryOp::Plus),
                    ast::BinaryOp::Minus => Some(ir::IntBinaryOp::Minus),
                    ast::BinaryOp::Multiply => Some(ir::IntBinaryOp::Multiply),
                    ast::BinaryOp::Divide => Some(ir::IntBinaryOp::Divide),
                    _ => None,
                };
                match int_op {
                    Some(int_op) => Ok(
                        TypedExpression::Int(
                            ir::IntExpression::BinaryOperation(
                                Box::new(le),
                                int_op,
                                Box::new(re),
                            ),
                        ),
                    ),
                    None => Err(TypeError(String::from_str("Operator not supported for int"))),
                }
            },
            TypedExpression::Boolean(le) => {
                let re = match tr.is_boolean() {
                    Ok(re) => re,
                    Err(e) => {
                        return Err(e);
                    },
                };
                let bool_op = match op {
                    ast::BinaryOp::And => Some(ir::BooleanOperator::And),
                    ast::BinaryOp::Or => Some(ir::BooleanOperator::Or),
                    _ => None,
                };
                match bool_op {
                    Some(bool_op) => {
                        let id = match self.get_free_identifier() {
                            Ok(id) => id,
                            Err(e) => {
                                return Err(e);
                            },
                        };
                        let ghost locals0 = self@.locals;
                        self.locals.push((id, VarType::Boolean));
                        proof {
                            assert(self@.locals =~= locals0.push((id, VarType::Boolean)));
                        }
                        Ok(
                            TypedExpression::Boolean(
                                ir::BooleanExpression::Operator(
                                    id,
                                    Box::new(le),
                                    bool_op,
                                    Box::new(re),
                                ),
                            ),
                        )
                    },
                    None => Err(TypeError(String::from_str("Operator not supported for boolean"))),
                }
            },
        }
    }

    /// Resolve a comparison chain: the left operand and every link operand
    /// must be integers; each link becomes one boolean-producing
    /// comparison.
    fn resolve_comparison(
        &mut self,
        left_side: &ast::Expression,
        chains: &Vec<(ast::ComparisonOp, ast::Expression)>,
    ) -> (r: Result<TypedExpression, TypeError>)
        ensures
            match r {
                Ok(te) => spec_resolve_expression(
                    old(self)@,
                    ExpressionV::Comparison(
                        Box::new(left_side.deep_view()),
                        crate::ast::chain_view(*chains),
                    ),
                ) == Ok::<_, Seq<char>>((final(self)@, te@)),
                Err(e) => spec_resolve_expression(
                    old(self)@,
                    ExpressionV::Comparison(
                        Box::new(left_side.deep_view()),
                        crate::ast::chain_view(*chains),
                    ),
                ) == Err::<(AnalyzerV, TypedExpressionV), _>(e@),
            },
        decreases expr_size(*left_side) + chain_size_from(*chains, 0), 1int,
    {
        proof {
            crate::ast::lemma_expr_size_pos(*left_side);
        }
        let tl = match self.resolve_expression(left_side) {
            Ok(te) => te,
            Err(e) => {
                return Err(e);
            },
        };
        let le = match tl.is_int() {
            Ok(le) => le,
            Err(e) => {
                return Err(e);
            },
        };
        let acc: Vec<(ir::IntComparisonOp, ir::IntExpression)> = Vec::new();
        proof {
            assert(acc.deep_view() =~= Seq::<(ir::IntComparisonOp, ir::IntExpression)>::empty());
            crate::ast::lemma_chain_view(*chains, 0);
        }
        match self.resolve_chain(chains, 0, acc) {
            Ok(links) => Ok(
                TypedExpression::Boolean(
                    ir::BooleanExpression::Comparison(
                        ir::ComparisonExpression::IntComparison(Box::new(le), links),
                    ),
                ),
            ),
            Err(e) => Err(e),
        }
    }

    /// Resolve the links of a comparison chain from position `k` onward.
    fn resolve_chain(
        &mut self,
        chains: &Vec<(ast::ComparisonOp, ast::Expression)>,
        k: usize,
        acc: Vec<(ir::IntComparisonOp, ir::IntExpression)>,
    ) -> (r: Result<Vec<(ir::IntComparisonOp, ir::IntExpression)>, TypeError>)
        requires
            k <= chains@.len(),
        ensures
            match r {
                Ok(links) => spec_resolve_chain(
                    old(self)@,
                    crate::ast::chain_view(*chains),
                    k as int,
                    acc.deep_view(),
                ) == Ok::<_, Seq<char>>((final(self)@, links.deep_view())),
                Err(e) => spec_resolve_chain(
                    old(self)@,
                    crate::ast::chain_view(*chains),
                    k as int,
                    acc.deep_view(),
                ) == Err::<(AnalyzerV, Seq<(ir::IntComparisonOp, ir::IntExpression)>), _>(e@),
            },
        decreases chain_size_from(*chains, k as int), 2int,
    {
        proof {
            crate::ast::lemma_chain_view(*chains, 0);
        }
        if k < chains.len() {
            proof {
                crate::ast::lemma_expr_size_pos(chains@[k as int].1);
            }
            let te = match self.resolve_expression(&chains[k].1) {
                Ok(te) => te,
                Err(e) => {
                    return Err(e);
                },
            };
            let ie = match te.is_int() {
                Ok(ie) => ie,
                Err(e) => {
                    return Err(e);
                },
            };
            let op = cmp_op(chains[k].0);
            let ghost acc0 = acc.deep_view();
            let mut acc2 = acc;
            acc2.push((op, ie));
            proof {
                assert(acc2.deep_view() =~= acc0.push((op, ie)));
            }
            self.resolve_chain(chains, k + 1, acc2)
        } else {
            Ok(acc)
        }
    }

    /// Resolve one expression.
    fn resolve_expression(&mut self, expression: &ast::Expression) -> (r: Result<
        TypedExpression,
        TypeError,
    >)
        ensures
            match r {
                Ok(te) => spec_resolve_expression(old(self)@, expression.deep_view()) == Ok::<
                    _,
                    Seq<char>,
                >((final(self)@, te@)),
                Err(e) => spec_resolve_expression(old(self)@, expression.deep_view()) == Err::<
                    (AnalyzerV, TypedExpressionV),
                    _,
                >(e@),
            },
        decreases expr_size(*expression), 0int,
    {
        match expression {
            ast::Expression::Literal(literal) => self.resolve_literal(literal),
            ast::Expression::Prefix(op, inner) => self.resolve_prefix(inner, *op),
            ast::Expression::BinaryOp(left, op, right) => self.resolve_binary(left, *op, right),
            ast::Expression::Comparison(left_side, chains) => self.resolve_comparison(
                left_side,
                chains,
            ),
        }
    }

    /// Resolve a print operand; its resolved type selects the output
    /// format later.
    fn resolve_print_statement(&mut self, expression: &ast::Expression) -> (r: Result<
        ir::PrintStatement,
        TypeError,
    >)
        ensures
            match r {
                Ok(p) => spec_resolve_statement(
                    old(self)@,
                    ast::StatementV::Print(expression.deep_view()),
                ) == Ok::<_, Seq<char>>((final(self)@, ir::StatementV::Print(p@))),
                Err(e) => spec_resolve_statement(
                    old(self)@,
                    ast::StatementV::Print(expression.deep_view()),
                ) == Err::<(AnalyzerV, ir::StatementV), _>(e@),
            },
    {
        match self.resolve_expression(expression) {
            Ok(TypedExpression::Int(ie)) => Ok(ir::PrintStatement::Int(ie)),
            Ok(TypedExpression::Boolean(be)) => Ok(ir::PrintStatement::Boolean(be)),
            Err(e) => Err(e),
        }
    }

    /// Resolve one statement.
    fn resolve_statement(&mut self, statement: &ast::Statement) -> (r: Result<
        ir::Statement,
        TypeError,
    >)
        ensures
            match r {
                Ok(s) => spec_resolve_statement(old(self)@, statement@) == Ok::<_, Seq<char>>(
                    (final(self)@, s@),
                ),
                Err(e) => spec_resolve_statement(old(self)@, statement@) == Err::<
                    (AnalyzerV, ir::StatementV),
                    _,
                >(e@),
            },
    {
        match statement {
            ast::Statement::Print(expression) => match self.resolve_print_statement(expression) {
                Ok(p) => Ok(ir::Statement::Print(p)),
                Err(e) => Err(e),
            },
            ast::Statement::Assert(expression, message) => {
                let te = match self.resolve_expression(expression) {
                    Ok(te) => te,
                    Err(e) => {
                        return Err(e);
                    },
                };
                let be = match te.is_boolean() {
                    Ok(be) => be,
                    Err(e) => {
                        return Err(e);
                    },
                };
                let msg = match message {
                    Some(m) => Some(m.clone()),
                    None => None,
                };
                Ok(ir::Statement::Assert(be, msg))
            },
            ast::Statement::Declaration(name, expression) => {
                let id = match self.get_free_identifier() {
                    Ok(id) => id,
                    Err(e) => {
                        return Err(e);
                    },
                };
                let te = match self.resolve_expression(expression) {
                    Ok(te) => te,
                    Err(e) => {
                        return Err(e);
                    },
                };
                let vt = te.to_var_type();
                let ghost locals0 = self@.locals;
                self.locals.push((id, vt));
                proof {
                    assert(self@.locals =~= locals0.push((id, vt)));
                }
                if self.scopes.len() == 0 {
                    return Err(TypeError(String::from_str("no open scope")));
                }
                let ghost scopes0 = self@.scopes;
                let mut frame = match self.scopes.pop() {
                    Some(f) => f,
                    None => {
                        return Err(TypeError(String::from_str("no open scope")));
                    },
                };
                let ghost frame0 = frame.deep_view();
                frame.push((name.clone(), VarInfo { identifier: id, var_type: vt }));
                proof {
                    assert(frame.deep_view() =~= frame0.push(
                        (name@, VarInfo { identifier: id, var_type: vt }),
                    ));
                }
                self.scopes.push(frame);
                proof {
                    assert(self@.scopes =~~= scopes0.drop_last().push(
                        scopes0.last().push((name@, VarInfo { identifier: id, var_type: vt })),
                    ));
                }
                let assignment = match te {
                    TypedExpression::Int(ie) => ir::AssignmentStatement::Int(ie),
                    TypedExpression::Boolean(be) => ir::AssignmentStatement::Boolean(be),
                };
                Ok(ir::Statement::Assignment(id, assignment))
            },
            ast::Statement::Assignment(name, expression) => {
                let te = match self.resolve_expression(expression) {
                    Ok(te) => te,
                    Err(e) => {
                        return Err(e);
                    },
                };
                let vi = match self.lookup(name) {
                    Some(vi) => vi,
                    None => {
                        let msg = String::from_str("variable ").concat(name.as_str()).concat(
                            " not found",
                        );
                        return Err(TypeError(msg));
                    },
                };
                let vt = te.to_var_type();
                if !var_type_eq(vt, vi.var_type) {
                    let msg = String::from_str("expression is of type ").concat(
                        var_type_name(vt),
                    ).concat(", but variable ").concat(name.as_str()).concat(" is not.");
                    return Err(TypeError(msg));
                }
                let assignment = match te {
                    TypedExpression::Int(ie) => ir::AssignmentStatement::Int(ie),
                    TypedExpression::Boolean(be) => ir::AssignmentStatement::Boolean(be),
                };
                Ok(ir::Statement::Assignment(vi.identifier, assignment))
            },
        }
    }

    /// Resolve the statements of a function body from position `k` onward.
    fn resolve_statements(
        &mut self,
        statements: &Vec<ast::Statement>,
        k: usize,
        acc: Vec<ir::Statement>,
    ) -> (r: Result<Vec<ir::Statement>, TypeError>)
        requires
            k <= statements@.len(),
        ensures
            match r {
                Ok(body) => spec_resolve_statements(
                    old(self)@,
                    statements.deep_view(),
                    k as int,
                    acc.deep_view(),
                ) == Ok::<_, Seq<char>>((final(self)@, body.deep_view())),
                Err(e) => spec_resolve_statements(
                    old(self)@,
                    statements.deep_view(),
                    k as int,
                    acc.deep_view(),
                ) == Err::<(AnalyzerV, Seq<ir::StatementV>), _>(e@),
            },
        decreases statements@.len() - k,
    {
        if k < statements.len() {
            let s = match self.resolve_statement(&statements[k]) {
                Ok(s) => s,
                Err(e) => {
                    return Err(e);
                },
            };
            let ghost acc0 = acc.deep_view();
            let mut acc2 = acc;
            acc2.push(s);
            proof {
                assert(acc2.deep_view() =~= acc0.push(s@));
            }
            self.resolve_statements(statements, k + 1, acc2)
        } else {
            Ok(acc)
        }
    }

    /// Resolve one top-level definition.
    pub fn resolve_top_level_statement(&mut self, statement: &ast::ToplevelStatement) -> (r: Result<
        ir::ToplevelStatement,
        TypeError,
    >)
        ensures
            match r {
                Ok(f) => spec_resolve_top_level(old(self)@, statement@) == Ok::<_, Seq<char>>(
                    (final(self)@, f@),
                ),
                Err(e) => spec_resolve_top_level(old(self)@, statement@) == Err::<
                    (AnalyzerV, ir::ToplevelStatementV),
                    _,
                >(e@),
            },
    {
        match statement {
            ast::ToplevelStatement::MainFunction(statements) => {
                self.locals = Vec::new();
                let ghost scopes0 = self@.scopes;
                let ghost svec0 = self.scopes@;
                let fresh_frame: Vec<(String, VarInfo)> = Vec::new();
                proof {
                    assert(fresh_frame.deep_view() =~= Seq::<(Seq<char>, VarInfo)>::empty());
                }
                self.scopes.push(fresh_frame);
                proof {
                    assert(self@.locals =~= Seq::<(VariableIdentifier, VarType)>::empty());
                    assert(self.scopes@ =~= svec0.push(fresh_frame));
                    assert forall|k: int| 0 <= k < self.scopes@.len() implies self@.scopes[k]
                        == scopes0.push(Seq::<(Seq<char>, VarInfo)>::empty())[k] by {
                        if k < svec0.len() {
                            assert(self.scopes@[k] == svec0[k]);
                        }
                    }
                    assert(self@.scopes =~= scopes0.push(Seq::empty()));
                }
                let acc: Vec<ir::Statement> = Vec::new();
                proof {
                    assert(acc.deep_view() =~= Seq::<ir::StatementV>::empty());
                }
                let body = match self.resolve_statements(statements, 0, acc) {
                    Ok(body) => body,
                    Err(e) => {
                        return Err(e);
                    },
                };
                let locals = clone_locals(&self.locals);
                proof {
                    lemma_statements_preserve_depth(
                        AnalyzerV {
                            scopes: scopes0.push(Seq::empty()),
                            locals: Seq::empty(),
                            current_identifier: old(self)@.current_identifier,
                        },
                        statements.deep_view(),
                        0,
                        Seq::empty(),
                    );
                }
                let ghost scopes1 = self@.scopes;
                let ghost svec1 = self.scopes@;
                let _ = self.scopes.pop();
                proof {
                    assert(self.scopes@ =~= svec1.drop_last());
                    assert forall|k: int| 0 <= k < self.scopes@.len() implies self@.scopes[k]
                        == scopes1.drop_last()[k] by {
                        assert(self.scopes@[k] == svec1[k]);
                    }
                    assert(self@.scopes =~= scopes1.drop_last());
                }
                Ok(
                    ir::ToplevelStatement::Function {
                        name: String::from_str("main"),
                        body,
                        locals,
                    },
                )
            },
        }
    }

    /// Resolve the top-level definitions from position `k` onward.
    fn resolve_top_levels(
        &mut self,
        tops: &Vec<ast::ToplevelStatement>,
        k: usize,
        acc: Vec<ir::ToplevelStatement>,
    ) -> (r: Result<Vec<ir::ToplevelStatement>, TypeError>)
        requires
            k <= tops@.len(),
        ensures
            match r {
                Ok(fns) => spec_resolve_top_levels(
                    old(self)@,
                    tops.deep_view(),
                    k as int,
                    acc.deep_view(),
                ) == Ok::<_, Seq<char>>((final(self)@, fns.deep_view())),
                Err(e) => spec_resolve_top_levels(
                    old(self)@,
                    tops.deep_view(),
                    k as int,
                    acc.deep_view(),
                ) == Err::<(AnalyzerV, Seq<ir::ToplevelStatementV>), _>(e@),
            },
        decreases tops@.len() - k,
    {
        if k < tops.len() {
            let f = match self.resolve_top_level_statement(&tops[k]) {
                Ok(f) => f,
                Err(e) => {
                    return Err(e);
                },
            };
            let ghost acc0 = acc.deep_view();
            let mut acc2 = acc;
            acc2.push(f);
            proof {
                assert(acc2.deep_view() =~= acc0.push(f@));
            }
            self.resolve_top_levels(tops, k + 1, acc2)
        } else {
            Ok(acc)
        }
    }

    /// Resolve a whole module.
    pub fn resolve_module(&mut self, module: &ast::Module) -> (r: Result<ir::Module, TypeError>)
        ensures
            match r {
                Ok(im) => spec_resolve_module(old(self)@, module@) == Ok::<_, Seq<char>>(
                    (final(self)@, im@),
                ),
                Err(e) => spec_resolve_module(old(self)@, module@) == Err::<
                    (AnalyzerV, ir::ModuleV),
                    _,
                >(e@),
            },
    {
        let acc: Vec<ir::ToplevelStatement> = Vec::new();
        proof {
            assert(acc.deep_view() =~= Seq::<ir::ToplevelStatementV>::empty());
        }
        match self.resolve_top_levels(&module.0, 0, acc) {
            Ok(fns) => Ok(ir::Module(fns)),
            Err(e) => Err(e),
        }
    }
}

/// Executable twin of `spec_cmp_op`.
fn cmp_op(op: ast::ComparisonOp) -> (r: ir::IntComparisonOp)
    ensures
        r == spec_cmp_op(op),
{
    match op {
        ast::ComparisonOp::Equals => ir::IntComparisonOp::Equal,
        ast::ComparisonOp::NotEquals => ir::IntComparisonOp::NotEquals,
        ast::ComparisonOp::LessThan => ir::IntComparisonOp::LessThan,
        ast::ComparisonOp::LessThanEquals => ir::IntComparisonOp::LessThanEquals,
        ast::ComparisonOp::GreaterThan => ir::IntComparisonOp::GreaterThan,
        ast::ComparisonOp::GreaterThanEquals => ir::IntComparisonOp::GreaterThanEquals,
    }
}

/// Whether two types are the same.
fn var_type_eq(a: VarType, b: VarType) -> (r: bool)
    ensures
        r == (a == b),
{
    match (a, b) {
        (VarType::Int, VarType::Int) => true,
        (VarType::Boolean, VarType::Boolean) => true,
        _ => false,
    }
}

/// Executable twin of `spec_type_name`.
fn var_type_name(vt: VarType) -> (r: &'static str)
    ensures
        r@ == spec_type_name(vt),
{
    match vt {
        VarType::Int => "Int",
        VarType::Boolean => "Boolean",
    }
}

/// A copy of a locals table that models the same sequence.
fn clone_locals(locals: &Vec<(VariableIdentifier, VarType)>) -> (r: Vec<
    (VariableIdentifier, VarType),
>)
    ensures
        r.deep_view() == locals.deep_view(),
        r@ == locals@,
{
    let mut r: Vec<(VariableIdentifier, VarType)> = Vec::new();
    let mut i: usize = 0;
    while i < locals.len()
        invariant
            i <= locals@.len(),
            r@ == locals@.subrange(0, i as int),
        decreases locals@.len() - i,
    {
        r.push(locals[i]);
        i = i + 1;
        proof {
            assert(r@ =~= locals@.subrange(0, i as int));
        }
    }
    proof {
        assert(r@ =~= locals@);
        assert(r.deep_view() =~= locals.deep_view());
    }
    r
}

} // verus!
