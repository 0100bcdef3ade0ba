use vstd::prelude::*;

use crate::ast::{
    BinaryOp, ComparisonOp, Expression, ExpressionV, Literal, LiteralV, Module, ModuleV, PrefixOp,
    Statement, StatementV, ToplevelStatement, ToplevelStatementV,
};
use crate::tokens::{Token, TokenType, TokenTypeV, TokenV};

verus! {

/// A parse failure: the position and kind of the offending token, and a
/// description of what was expected there.
#[derive(Debug)]
pub struct ParsingError {
    pub line: usize,
    pub char: usize,
    pub got: TokenType,
    pub expected: String,
}

/// Mathematical model of a parse failure.
pub struct ParsingErrorV {
    pub line: usize,
    pub char: usize,
    pub got: TokenTypeV,
    pub expected: Seq<char>,
}

impl View for ParsingError {
    type V = ParsingErrorV;

    open spec fn view(&self) -> ParsingErrorV {
        ParsingErrorV {
            line: self.line,
            char: self.char,
            got: self.got@,
            expected: self.expected@,
        }
    }
}

/// Running out of tokens is reported as an ordinary parse failure rather
/// than a separate error kind; it carries position 0:0, which no real
/// token has, and the end-of-stream kind.
pub open spec fn eot_error() -> ParsingErrorV {
    ParsingErrorV {
        line: 0,
        char: 0,
        got: TokenTypeV::Eof,
        expected: "Unexpected End of Tokens"@,
    }
}

/// The failure for a token that is not what the grammar demands there.
pub open spec fn mismatch(tok: TokenV, expected: Seq<char>) -> ParsingErrorV {
    ParsingErrorV { line: tok.line, char: tok.char, got: tok.t, expected }
}

/// A small integer naming each token constructor, used to compare token
/// kinds.
pub open spec fn spec_kind(t: TokenTypeV) -> int {
    match t {
        TokenTypeV::Integer(_) => 0,
        TokenTypeV::Identifier(_) => 1,
        TokenTypeV::Text(_) => 2,
        TokenTypeV::Print => 3,
        TokenTypeV::SemiColon => 4,
        TokenTypeV::Dollar => 5,
        TokenTypeV::CurlyOpen => 6,
        TokenTypeV::CurlyClose => 7,
        TokenTypeV::ParenOpen => 8,
        TokenTypeV::ParenClose => 9,
        TokenTypeV::Comma => 10,
        TokenTypeV::True => 11,
        TokenTypeV::False => 12,
        TokenTypeV::Assert => 13,
        TokenTypeV::Let => 14,
        TokenTypeV::SetKw => 15,
        TokenTypeV::Assign => 16,
        TokenTypeV::Bang => 17,
        TokenTypeV::EqEq => 18,
        TokenTypeV::BangEq => 19,
        TokenTypeV::Lt => 20,
        TokenTypeV::Gt => 21,
        TokenTypeV::GtEq => 22,
        TokenTypeV::LtEq => 23,
        TokenTypeV::Minus => 24,
        TokenTypeV::Plus => 25,
        TokenTypeV::Star => 26,
        TokenTypeV::Slash => 27,
        TokenTypeV::AndAnd => 28,
        TokenTypeV::OrOr => 29,
        TokenTypeV::Or => 30,
        TokenTypeV::And => 31,
        TokenTypeV::Eof => 32,
    }
}

/// The binary operator that a token stands for at the given precedence
/// level, if any: logical operators at level 1, additive at level 3,
/// multiplicative at level 4.
pub open spec fn spec_binop_of(prec: int, t: TokenTypeV) -> Option<BinaryOp> {
    if prec == 1 {
        if t == TokenTypeV::AndAnd {
            Some(BinaryOp::And)
        } else if t == TokenTypeV::OrOr {
            Some(BinaryOp::Or)
        } else {
            None
        }
    } else if prec == 3 {
        if t == TokenTypeV::Plus {
            Some(BinaryOp::Plus)
        } else if t == TokenTypeV::Minus {
            Some(BinaryOp::Minus)
        } else {
            None
        }
    } else if prec == 4 {
        if t == TokenTypeV::Star {
            Some(BinaryOp::Multiply)
        } else if t == TokenTypeV::Slash {
            Some(BinaryOp::Divide)
        } else {
            None
        }
    } else {
        None
    }
}

/// The relational operator that a token stands for, if any.
pub open spec fn spec_cmpop_of(t: TokenTypeV) -> Option<ComparisonOp> {
    if t == TokenTypeV::EqEq {
        Some(ComparisonOp::Equals)
    } else if t == TokenTypeV::BangEq {
        Some(ComparisonOp::NotEquals)
    } else if t == TokenTypeV::Lt {
        Some(ComparisonOp::LessThan)
    } else if t == TokenTypeV::LtEq {
        Some(ComparisonOp::LessThanEquals)
    } else if t == TokenTypeV::Gt {
        Some(ComparisonOp::GreaterThan)
    } else if t == TokenTypeV::GtEq {
        Some(ComparisonOp::GreaterThanEquals)
    } else {
        None
    }
}

/// The measure that orders the precedence levels for termination: tighter
/// levels are smaller.
pub open spec fn lvl(prec: int) -> int {
    if 0 <= prec <= 6 {
        6 - prec
    } else {
        0
    }
}

/// Demand one exact token: consume it, or fail naming `expected`.
pub open spec fn spec_expect(ts: Seq<TokenV>, i: int, t: TokenTypeV, expected: Seq<char>) -> Result<
    int,
    ParsingErrorV,
> {
    if i < 0 || i >= ts.len() {
        Err(eot_error())
    } else if ts[i].t == t {
        Ok(i + 1)
    } else {
        Err(mismatch(ts[i], expected))
    }
}

/// Parse one literal: an integer, `true`, `false`, or a variable name.
pub open spec fn spec_literal(ts: Seq<TokenV>, i: int) -> Result<(LiteralV, int), ParsingErrorV> {
    if i < 0 || i >= ts.len() {
        Err(eot_error())
    } else {
        match ts[i].t {
            TokenTypeV::Integer(v) => Ok((LiteralV::Integer(v), i + 1)),
            TokenTypeV::True => Ok((LiteralV::Boolean(true), i + 1)),
            TokenTypeV::False => Ok((LiteralV::Boolean(false), i + 1)),
            TokenTypeV::Identifier(name) => Ok((LiteralV::Variable(name), i + 1)),
            _ => Err(mismatch(ts[i], "Literal"@)),
        }
    }
}

/// Parse a parenthesized sub-expression, or a literal.
pub open spec fn spec_group(ts: Seq<TokenV>, i: int) -> Result<(ExpressionV, int), ParsingErrorV>
    decreases ts.len() - i, 0int, 1int
        when 0 <= i
{
    if i >= ts.len() {
        Err(eot_error())
    } else if ts[i].t == TokenTypeV::ParenOpen {
        match spec_expression(ts, i + 1, 0) {
            Ok((e, j)) => match spec_expect(ts, j, TokenTypeV::ParenClose, "ParenClose"@) {
                Ok(k) => Ok((e, k)),
                Err(er) => Err(er),
            },
            Err(er) => Err(er),
        }
    } else {
        match spec_literal(ts, i) {
            Ok((l, j)) => Ok((ExpressionV::Literal(l), j)),
            Err(er) => Err(er),
        }
    }
}

/// The precedence-climbing expression grammar.  Level 0 is the logical-not
/// prefix, 1 the logical binaries, 2 the chained comparison, 3 additive,
/// 4 multiplicative, 5 the negate prefix; anything beyond parses a primary.
///
/// The bounds tests on the positions that sub-parses return serve the
/// termination measure only: a parse always lands inside the token
/// stream, so their failure arms are never taken.
pub open spec fn spec_expression(ts: Seq<TokenV>, i: int, prec: int) -> Result<
    (ExpressionV, int),
    ParsingErrorV,
>
    decreases ts.len() - i, lvl(prec), 2int
        when 0 <= i && 0 <= prec
{
    if prec == 0 || prec == 5 {
        let tok = if prec == 0 {
            TokenTypeV::Bang
        } else {
            TokenTypeV::Minus
        };
        let op = if prec == 0 {
            PrefixOp::Not
        } else {
            PrefixOp::Negate
        };
        if i >= ts.len() {
            Err(eot_error())
        } else if ts[i].t == tok {
            match spec_expression(ts, i + 1, prec) {
                Ok((e, j)) => Ok((ExpressionV::Prefix(op, Box::new(e)), j)),
                Err(er) => Err(er),
            }
        } else {
            spec_expression(ts, i, prec + 1)
        }
    } else if prec == 1 || prec == 3 || prec == 4 {
        match spec_expression(ts, i, prec + 1) {
            Ok((left, j)) => if i <= j <= ts.len() {
                spec_binary_rest(ts, j, prec, left)
            } else {
                Err(eot_error())
            },
            Err(er) => Err(er),
        }
    } else if prec == 2 {
        match spec_expression(ts, i, 3) {
            Ok((left, j)) => if i <= j <= ts.len() {
                match spec_cmp_rest(ts, j, Seq::empty()) {
                    Ok((chain, k)) => if chain.len() == 0 {
                        Ok((left, k))
                    } else {
                        Ok((ExpressionV::Comparison(Box::new(left), chain), k))
                    },
                    Err(er) => Err(er),
                }
            } else {
                Err(eot_error())
            },
            Err(er) => Err(er),
        }
    } else {
        spec_group(ts, i)
    }
}

/// Greedily consume `(operator, operand)` pairs of one left-associative
/// binary level, folding them onto `left`.
pub open spec fn spec_binary_rest(ts: Seq<TokenV>, i: int, prec: int, left: ExpressionV) -> Result<
    (ExpressionV, int),
    ParsingErrorV,
>
    decreases ts.len() - i, lvl(prec), 1int
        when 0 <= i && 0 <= prec
{
    if i >= ts.len() {
        Err(eot_error())
    } else {
        match spec_binop_of(prec, ts[i].t) {
            Some(op) => match spec_expression(ts, i + 1, prec + 1) {
                Ok((right, j)) => if i < j <= ts.len() {
                    spec_binary_rest(
                        ts,
                        j,
                        prec,
                        ExpressionV::BinaryOp(Box::new(left), op, Box::new(right)),
                    )
                } else {
                    Err(eot_error())
                },
                Err(er) => Err(er),
            },
            None => Ok((left, i)),
        }
    }
}

/// Greedily consume `(operator, operand)` pairs of the comparison level,
/// accumulating the flat chain.
pub open spec fn spec_cmp_rest(
    ts: Seq<TokenV>,
    i: int,
    chain: Seq<(ComparisonOp, ExpressionV)>,
) -> Result<(Seq<(ComparisonOp, ExpressionV)>, int), ParsingErrorV>
    decreases ts.len() - i, lvl(2), 1int
        when 0 <= i
{
    if i >= ts.len() {
        Err(eot_error())
    } else {
        match spec_cmpop_of(ts[i].t) {
            Some(op) => match spec_expression(ts, i + 1, 3) {
                Ok((right, j)) => if i < j <= ts.len() {
                    spec_cmp_rest(ts, j, chain.push((op, right)))
                } else {
                    Err(eot_error())
                },
                Err(er) => Err(er),
            },
            None => Ok((chain, i)),
        }
    }
}

/// Parse one statement: `print`, `assert`, `let` or `set`.
pub open spec fn spec_statement(ts: Seq<TokenV>, i: int) -> Result<(StatementV, int), ParsingErrorV>
    decreases ts.len() - i, 8int, 0int
        when 0 <= i
{
    if i >= ts.len() {
        Err(eot_error())
    } else {
        let tok = ts[i];
        if tok.t == TokenTypeV::Print {
            match spec_expression(ts, i + 1, 0) {
                Ok((e, j)) => match spec_expect(ts, j, TokenTypeV::SemiColon, "SemiColon"@) {
                    Ok(k) => Ok((StatementV::Print(e), k)),
                    Err(er) => Err(er),
                },
                Err(er) => Err(er),
            }
        } else if tok.t == TokenTypeV::Assert {
            match spec_expression(ts, i + 1, 0) {
                Ok((e, j)) => if j < 0 || j >= ts.len() {
                    Err(eot_error())
                } else if ts[j].t == TokenTypeV::Comma {
                    if j + 1 >= ts.len() {
                        Err(eot_error())
                    } else {
                        match ts[j + 1].t {
                            TokenTypeV::Text(msg) => match spec_expect(
                                ts,
                                j + 2,
                                TokenTypeV::SemiColon,
                                "SemiColon"@,
                            ) {
                                Ok(k) => Ok((StatementV::Assert(e, Some(msg)), k)),
                                Err(er) => Err(er),
                            },
                            _ => Err(mismatch(ts[j + 1], "String"@)),
                        }
                    }
                } else {
                    match spec_expect(ts, j, TokenTypeV::SemiColon, "SemiColon"@) {
                        Ok(k) => Ok((StatementV::Assert(e, None), k)),
                        Err(er) => Err(er),
                    }
                },
                Err(er) => Err(er),
            }
        } else if tok.t == TokenTypeV::Let || tok.t == TokenTypeV::SetKw {
            if i + 1 >= ts.len() {
                Err(eot_error())
            } else {
                match ts[i + 1].t {
                    TokenTypeV::Identifier(name) => match spec_expect(
                        ts,
                        i + 2,
                        TokenTypeV::Assign,
                        "Assign"@,
                    ) {
                        Ok(j0) => match spec_expression(ts, j0, 0) {
                            Ok((e, j)) => match spec_expect(
                                ts,
                                j,
                                TokenTypeV::SemiColon,
                                "SemiColon"@,
                            ) {
                                Ok(k) => Ok(
                                    (
                                        if tok.t == TokenTypeV::Let {
                                            StatementV::Declaration(name, e)
                                        } else {
                                            StatementV::Assignment(name, e)
                                        },
                                        k,
                                    ),
                                ),
                                Err(er) => Err(er),
                            },
                            Err(er) => Err(er),
                        },
                        Err(er) => Err(er),
                    },
                    _ => Err(mismatch(ts[i + 1], "Identifier"@)),
                }
            }
        } else {
            Err(mismatch(tok, "Statement"@))
        }
    }
}

/// Parse statements until the closing brace, which is consumed.
pub open spec fn spec_statement_list(ts: Seq<TokenV>, i: int, acc: Seq<StatementV>) -> Result<
    (Seq<StatementV>, int),
    ParsingErrorV,
>
    decreases ts.len() - i, 9int, 0int
        when 0 <= i
{
    if i >= ts.len() {
        Err(eot_error())
    } else if ts[i].t == TokenTypeV::CurlyClose {
        Ok((acc, i + 1))
    } else {
        match spec_statement(ts, i) {
            Ok((s, j)) => if i < j <= ts.len() {
                spec_statement_list(ts, j, acc.push(s))
            } else {
                Err(eot_error())
            },
            Err(er) => Err(er),
        }
    }
}

/// Parse a function body: `{ statement* }`.
pub open spec fn spec_main_function(ts: Seq<TokenV>, i: int) -> Result<
    (ToplevelStatementV, int),
    ParsingErrorV,
>
    decreases ts.len() - i, 10int, 0int
        when 0 <= i
{
    match spec_expect(ts, i, TokenTypeV::CurlyOpen, "CurlyOpen"@) {
        Ok(j) => match spec_statement_list(ts, j, Seq::empty()) {
            Ok((stmts, k)) => Ok((ToplevelStatementV::MainFunction(stmts), k)),
            Err(er) => Err(er),
        },
        Err(er) => Err(er),
    }
}

/// Parse one top-level definition: `$` followed by a function body.
pub open spec fn spec_top_level_statement(ts: Seq<TokenV>, i: int) -> Result<
    (ToplevelStatementV, int),
    ParsingErrorV,
>
    decreases ts.len() - i, 11int, 0int
        when 0 <= i
{
    if i >= ts.len() {
        Err(eot_error())
    } else if ts[i].t == TokenTypeV::Dollar {
        spec_main_function(ts, i + 1)
    } else {
        Err(mismatch(ts[i], "Top Level Statement"@))
    }
}

/// Parse top-level definitions until the end-of-stream token.
pub open spec fn spec_top_level_list(ts: Seq<TokenV>, i: int, acc: Seq<ToplevelStatementV>) -> Result<
    (Seq<ToplevelStatementV>, int),
    ParsingErrorV,
>
    decreases ts.len() - i, 12int, 0int
        when 0 <= i
{
    if i >= ts.len() {
        Err(eot_error())
    } else if ts[i].t == TokenTypeV::Eof {
        Ok((acc, i))
    } else {
        match spec_top_level_statement(ts, i) {
            Ok((f, j)) => if i < j <= ts.len() {
                spec_top_level_list(ts, j, acc.push(f))
            } else {
                Err(eot_error())
            },
            Err(er) => Err(er),
        }
    }
}

/// Parse a whole module from position `i`.
pub open spec fn spec_module_from(ts: Seq<TokenV>, i: int) -> Result<ModuleV, ParsingErrorV>
    decreases ts.len() - i, 13int, 0int
        when 0 <= i
{
    match spec_top_level_list(ts, i, Seq::empty()) {
        Ok((fns, _)) => Ok(ModuleV(fns)),
        Err(er) => Err(er),
    }
}

/// The parse of a whole token stream.
pub open spec fn spec_parse(ts: Seq<TokenV>) -> Result<ModuleV, ParsingErrorV> {
    spec_module_from(ts, 0)
}

/// The parser: the token stream and the position reached so far.
pub struct Parser {
    pub tokens: Vec<Token>,
    pub pos: usize,
}

impl Parser {
    /// The model of the token stream.
    pub open spec fn toks(&self) -> Seq<TokenV> {
        self.tokens.deep_view()
    }

    /// A fresh parser over the given tokens.
    pub fn new(tokens: Vec<Token>) -> (p: Parser)
        ensures
            p.tokens == tokens,
            p.pos == 0,
    {
        Parser { tokens, pos: 0 }
    }

    /// Consume one token, or fail with the normalized end-of-tokens error.
    fn advance(&mut self) -> (r: Result<Token, ParsingError>)
        ensures
            final(self).tokens == old(self).tokens,
            old(self).pos < old(self).toks().len() ==> (match r {
                Ok(t) => t@ == old(self).toks()[old(self).pos as int] && final(self).pos == old(
                    self,
                ).pos + 1,
                Err(_) => false,
            }),
            old(self).pos >= old(self).toks().len() ==> (match r {
                Ok(_) => false,
                Err(e) => e@ == eot_error() && final(self).pos == old(self).pos,
            }),
    {
        if self.pos < self.tokens.len() {
            let t = clone_token(&self.tokens[self.pos]);
            self.pos = self.pos + 1;
            Ok(t)
        } else {
            Err(make_eot())
        }
    }

    /// Demand one exact token.
    fn expect(&mut self, expected_token: TokenType, name: &str) -> (r: Result<(), ParsingError>)
        ensures
            final(self).tokens == old(self).tokens,
            match r {
                Ok(_) => spec_expect(old(self).toks(), old(self).pos as int, expected_token@, name@)
                    == Ok::<int, ParsingErrorV>(final(self).pos as int) && final(self).pos == old(
                    self,
                ).pos + 1,
                Err(e) => spec_expect(old(self).toks(), old(self).pos as int, expected_token@, name@)
                    == Err::<int, ParsingErrorV>(e@),
            },
    {
        let t = match self.advance() {
            Ok(t) => t,
            Err(e) => {
                return Err(e);
            },
        };
        if eq_token_type(&t._type, &expected_token) {
            Ok(())
        } else {
            Err(parse_error(t, name))
        }
    }

    /// Parse one literal.
    fn literal(&mut self) -> (r: Result<Literal, ParsingError>)
        ensures
            final(self).tokens == old(self).tokens,
            match r {
                Ok(l) => spec_literal(old(self).toks(), old(self).pos as int) == Ok::<
                    _,
                    ParsingErrorV,
                >((l@, final(self).pos as int)) && old(self).pos < final(self).pos <= old(
                    self,
                ).toks().len(),
                Err(e) => spec_literal(old(self).toks(), old(self).pos as int) == Err::<
                    (LiteralV, int),
                    _,
                >(e@),
            },
    {
        let t = match self.advance() {
            Ok(t) => t,
            Err(e) => {
                return Err(e);
            },
        };
        match t._type {
            TokenType::Integer(v) => Ok(Literal::Integer(v)),
            TokenType::True => Ok(Literal::Boolean(true)),
            TokenType::False => Ok(Literal::Boolean(false)),
            TokenType::Identifier(name) => Ok(Literal::Variable(name)),
            _type => Err(parse_error(Token { _type, line: t.line, char: t.char }, "Literal")),
        }
    }

    /// Parse a parenthesized sub-expression or a literal.
    fn group(&mut self) -> (r: Result<Expression, ParsingError>)
        ensures
            final(self).tokens == old(self).tokens,
            match r {
                Ok(e) => spec_group(old(self).toks(), old(self).pos as int) == Ok::<
                    _,
                    ParsingErrorV,
                >((e.deep_view(), final(self).pos as int)) && old(self).pos < final(self).pos <= old(
                    self,
                ).toks().len(),
                Err(er) => spec_group(old(self).toks(), old(self).pos as int) == Err::<
                    (ExpressionV, int),
                    _,
                >(er@),
            },
        decreases self.toks().len() - self.pos, 0int, 1int,
    {
        if self.pos >= self.tokens.len() {
            return Err(make_eot());
        }
        let is_paren = matches!(&self.tokens[self.pos]._type, TokenType::ParenOpen);
        if is_paren {
            self.pos = self.pos + 1;
            let e = match self.expression_precedence(0) {
                Ok(e) => e,
                Err(er) => {
                    return Err(er);
                },
            };
            match self.expect(TokenType::ParenClose, "ParenClose") {
                Ok(_) => Ok(e),
                Err(er) => Err(er),
            }
        } else {
            match self.literal() {
                Ok(l) => Ok(Expression::Literal(l)),
                Err(er) => Err(er),
            }
        }
    }

    /// Parse an expression at the given precedence level.
    fn expression_precedence(&mut self, precedence: usize) -> (r: Result<Expression, ParsingError>)
        ensures
            final(self).tokens == old(self).tokens,
            match r {
                Ok(e) => spec_expression(old(self).toks(), old(self).pos as int, precedence as int)
                    == Ok::<_, ParsingErrorV>((e.deep_view(), final(self).pos as int)) && old(
                    self,
                ).pos < final(self).pos <= old(self).toks().len(),
                Err(er) => spec_expression(old(self).toks(), old(self).pos as int, precedence as int)
                    == Err::<(ExpressionV, int), _>(er@),
            },
        decreases self.toks().len() - self.pos, lvl(precedence as int), 2int,
    {
        if precedence == 0 || precedence == 5 {
            if self.pos >= self.tokens.len() {
                return Err(make_eot());
            }
            let is_prefix = if precedence == 0 {
                matches!(&self.tokens[self.pos]._type, TokenType::Bang)
            } else {
                matches!(&self.tokens[self.pos]._type, TokenType::Minus)
            };
            if is_prefix {
                let op = if precedence == 0 {
                    PrefixOp::Not
                } else {
                    PrefixOp::Negate
                };
                self.pos = self.pos + 1;
                match self.expression_precedence(precedence) {
                    Ok(e) => Ok(Expression::Prefix(op, Box::new(e))),
                    Err(er) => Err(er),
                }
            } else {
                self.expression_precedence(precedence + 1)
            }
        } else if precedence == 1 || precedence == 3 || precedence == 4 {
            let left = match self.expression_precedence(precedence + 1) {
                Ok(e) => e,
                Err(er) => {
                    return Err(er);
                },
            };
            self.binary_rest(precedence, left)
        } else if precedence == 2 {
            let left = match self.expression_precedence(3) {
                Ok(e) => e,
                Err(er) => {
                    return Err(er);
                },
            };
            let empty_chain: Vec<(ComparisonOp, Expression)> = Vec::new();
            let chain = match self.comparison_rest(empty_chain) {
                Ok(c) => c,
                Err(er) => {
                    return Err(er);
                },
            };
            if chain.len() == 0 {
                proof {
                    assert(crate::ast::chain_view(chain) =~= Seq::<
                        (ComparisonOp, ExpressionV),
                    >::empty());
                }
                Ok(left)
            } else {
                let e = Expression::Comparison(Box::new(left), chain);
                Ok(e)
            }
        } else {
            self.group()
        }
    }

    /// Greedily fold one left-associative binary level onto `left`.
    fn binary_rest(&mut self, precedence: usize, left: Expression) -> (r: Result<
        Expression,
        ParsingError,
    >)
        requires
            precedence == 1 || precedence == 3 || precedence == 4,
        ensures
            final(self).tokens == old(self).tokens,
            match r {
                Ok(e) => spec_binary_rest(
                    old(self).toks(),
                    old(self).pos as int,
                    precedence as int,
                    left.deep_view(),
                ) == Ok::<_, ParsingErrorV>((e.deep_view(), final(self).pos as int)) && old(
                    self,
                ).pos <= final(self).pos <= old(self).toks().len(),
                Err(er) => spec_binary_rest(
                    old(self).toks(),
                    old(self).pos as int,
                    precedence as int,
                    left.deep_view(),
                ) == Err::<(ExpressionV, int), _>(er@),
            },
        decreases self.toks().len() - self.pos, lvl(precedence as int), 1int,
    {
        if self.pos >= self.tokens.len() {
            return Err(make_eot());
        }
        let op = binop_of(precedence, &self.tokens[self.pos]._type);
        match op {
            Some(op) => {
                self.pos = self.pos + 1;
                let right = match self.expression_precedence(precedence + 1) {
                    Ok(e) => e,
                    Err(er) => {
                        return Err(er);
                    },
                };
                self.binary_rest(
                    precedence,
                    Expression::BinaryOp(Box::new(left), op, Box::new(right)),
                )
            },
            None => Ok(left),
        }
    }

    /// Greedily collect the links of a comparison chain.
    fn comparison_rest(&mut self, chain: Vec<(ComparisonOp, Expression)>) -> (r: Result<
        Vec<(ComparisonOp, Expression)>,
        ParsingError,
    >)
        ensures
            final(self).tokens == old(self).tokens,
            match r {
                Ok(c) => spec_cmp_rest(
                    old(self).toks(),
                    old(self).pos as int,
                    crate::ast::chain_view(chain),
                ) == Ok::<_, ParsingErrorV>(
                    (crate::ast::chain_view(c), final(self).pos as int),
                ) && old(self).pos <= final(self).pos <= old(self).toks().len(),
                Err(er) => spec_cmp_rest(
                    old(self).toks(),
                    old(self).pos as int,
                    crate::ast::chain_view(chain),
                ) == Err::<(Seq<(ComparisonOp, ExpressionV)>, int), _>(er@),
            },
        decreases self.toks().len() - self.pos, lvl(2), 1int,
    {
        if self.pos >= self.tokens.len() {
            return Err(make_eot());
        }
        let op = cmpop_of(&self.tokens[self.pos]._type);
        match op {
            Some(op) => {
                self.pos = self.pos + 1;
                let right = match self.expression_precedence(3) {
                    Ok(e) => e,
                    Err(er) => {
                        return Err(er);
                    },
                };
                let ghost chain0 = chain;
                let mut chain2 = chain;
                chain2.push((op, right));
                proof {
                    lemma_chain_push(chain0, chain2, op, right);
                }
                self.comparison_rest(chain2)
            },
            None => Ok(chain),
        }
    }

    /// Parse one statement.
    fn statement(&mut self) -> (r: Result<Statement, ParsingError>)
        ensures
            final(self).tokens == old(self).tokens,
            match r {
                Ok(s) => spec_statement(old(self).toks(), old(self).pos as int) == Ok::<
                    _,
                    ParsingErrorV,
                >((s@, final(self).pos as int)) && old(self).pos < final(self).pos <= old(
                    self,
                ).toks().len(),
                Err(er) => spec_statement(old(self).toks(), old(self).pos as int) == Err::<
                    (StatementV, int),
                    _,
                >(er@),
            },
        decreases self.toks().len() - self.pos, 8int, 0int,
    {
        let t = match self.advance() {
            Ok(t) => t,
            Err(e) => {
                return Err(e);
            },
        };
        match t._type {
            TokenType::Print => {
                let e = match self.expression_precedence(0) {
                    Ok(e) => e,
                    Err(er) => {
                        return Err(er);
                    },
                };
                match self.expect(TokenType::SemiColon, "SemiColon") {
                    Ok(_) => Ok(Statement::Print(e)),
                    Err(er) => Err(er),
                }
            },
            TokenType::Assert => {
                let e = match self.expression_precedence(0) {
                    Ok(e) => e,
                    Err(er) => {
                        return Err(er);
                    },
                };
                if self.pos >= self.tokens.len() {
                    return Err(make_eot());
                }
                let has_comma = matches!(&self.tokens[self.pos]._type, TokenType::Comma);
                if has_comma {
                    self.pos = self.pos + 1;
                    let should_be_string = match self.advance() {
                        Ok(t) => t,
                        Err(er) => {
                            return Err(er);
                        },
                    };
                    match should_be_string._type {
                        TokenType::Text(msg) => {
                            match self.expect(TokenType::SemiColon, "SemiColon") {
                                Ok(_) => Ok(Statement::Assert(e, Some(msg))),
                                Err(er) => Err(er),
                            }
                        },
                        _type => Err(
                            parse_error(
                                Token {
                                    _type,
                                    line: should_be_string.line,
                                    char: should_be_string.char,
                                },
                                "String",
                            ),
                        ),
                    }
                } else {
                    match self.expect(TokenType::SemiColon, "SemiColon") {
                        Ok(_) => Ok(Statement::Assert(e, None)),
                        Err(er) => Err(er),
                    }
                }
            },
            TokenType::Let | TokenType::SetKw => {
                let is_let = matches!(&t._type, TokenType::Let);
                let identifier = match self.advance() {
                    Ok(t2) => t2,
                    Err(er) => {
                        return Err(er);
                    },
                };
                match identifier._type {
                    TokenType::Identifier(name) => {
                        match self.expect(TokenType::Assign, "Assign") {
                            Ok(_) => {},
                            Err(er) => {
                                return Err(er);
                            },
                        }
                        let e = match self.expression_precedence(0) {
                            Ok(e) => e,
                            Err(er) => {
                                return Err(er);
                            },
                        };
                        match self.expect(TokenType::SemiColon, "SemiColon") {
                            Ok(_) => if is_let {
                                Ok(Statement::Declaration(name, e))
                            } else {
                                Ok(Statement::Assignment(name, e))
                            },
                            Err(er) => Err(er),
                        }
                    },
                    _type => Err(
                        parse_error(
                            Token { _type, line: identifier.line, char: identifier.char },
                            "Identifier",
                        ),
                    ),
                }
            },
            _type => Err(parse_error(Token { _type, line: t.line, char: t.char }, "Statement")),
        }
    }

    /// Parse statements until the closing brace.
    fn statement_list(&mut self, acc: Vec<Statement>) -> (r: Result<Vec<Statement>, ParsingError>)
        ensures
            final(self).tokens == old(self).tokens,
            match r {
                Ok(v) => spec_statement_list(
                    old(self).toks(),
                    old(self).pos as int,
                    acc.deep_view(),
                ) == Ok::<_, ParsingErrorV>((v.deep_view(), final(self).pos as int)) && old(
                    self,
                ).pos < final(self).pos <= old(self).toks().len(),
                Err(er) => spec_statement_list(
                    old(self).toks(),
                    old(self).pos as int,
                    acc.deep_view(),
                ) == Err::<(Seq<StatementV>, int), _>(er@),
            },
        decreases self.toks().len() - self.pos, 9int, 0int,
    {
        if self.pos >= self.tokens.len() {
            return Err(make_eot());
        }
        let is_close = matches!(&self.tokens[self.pos]._type, TokenType::CurlyClose);
        if is_close {
            self.pos = self.pos + 1;
            Ok(acc)
        } else {
            let s = match self.statement() {
                Ok(s) => s,
                Err(er) => {
                    return Err(er);
                },
            };
            let ghost acc0 = acc.deep_view();
            let mut acc2 = acc;
            acc2.push(s);
            proof {
                assert(acc2.deep_view() =~= acc0.push(s@));
            }
            self.statement_list(acc2)
        }
    }

    /// Parse a function body: `{ statement* }`.
    fn main_function(&mut self) -> (r: Result<ToplevelStatement, ParsingError>)
        ensures
            final(self).tokens == old(self).tokens,
            match r {
                Ok(f) => spec_main_function(old(self).toks(), old(self).pos as int) == Ok::<
                    _,
                    ParsingErrorV,
                >((f@, final(self).pos as int)) && old(self).pos < final(self).pos <= old(
                    self,
                ).toks().len(),
                Err(er) => spec_main_function(old(self).toks(), old(self).pos as int) == Err::<
                    (ToplevelStatementV, int),
                    _,
                >(er@),
            },
        decreases self.toks().len() - self.pos, 10int, 0int,
    {
        match self.expect(TokenType::CurlyOpen, "CurlyOpen") {
            Ok(_) => {},
            Err(er) => {
                return Err(er);
            },
        }
        let empty: Vec<Statement> = Vec::new();
        proof {
            assert(empty.deep_view() =~= Seq::<StatementV>::empty());
        }
        match self.statement_list(empty) {
            Ok(v) => Ok(ToplevelStatement::MainFunction(v)),
            Err(er) => Err(er),
        }
    }

    /// Parse one top-level definition.
    fn top_level_statement(&mut self) -> (r: Result<ToplevelStatement, ParsingError>)
        ensures
            final(self).tokens == old(self).tokens,
            match r {
                Ok(f) => spec_top_level_statement(old(self).toks(), old(self).pos as int) == Ok::<
                    _,
                    ParsingErrorV,
                >((f@, final(self).pos as int)) && old(self).pos < final(self).pos <= old(
                    self,
                ).toks().len(),
                Err(er) => spec_top_level_statement(old(self).toks(), old(self).pos as int)
                    == Err::<(ToplevelStatementV, int), _>(er@),
            },
        decreases self.toks().len() - self.pos, 11int, 0int,
    {
        let t = match self.advance() {
            Ok(t) => t,
            Err(e) => {
                return Err(e);
            },
        };
        match t._type {
            TokenType::Dollar => self.main_function(),
            _type => Err(
                parse_error(Token { _type, line: t.line, char: t.char }, "Top Level Statement"),
            ),
        }
    }

    /// Parse top-level definitions until the end-of-stream token.
    fn top_level_list(&mut self, acc: Vec<ToplevelStatement>) -> (r: Result<
        Vec<ToplevelStatement>,
        ParsingError,
    >)
        ensures
            final(self).tokens == old(self).tokens,
            match r {
                Ok(v) => spec_top_level_list(
                    old(self).toks(),
                    old(self).pos as int,
                    acc.deep_view(),
                ) == Ok::<_, ParsingErrorV>((v.deep_view(), final(self).pos as int)),
                Err(er) => spec_top_level_list(
                    old(self).toks(),
                    old(self).pos as int,
                    acc.deep_view(),
                ) == Err::<(Seq<ToplevelStatementV>, int), _>(er@),
            },
        decreases self.toks().len() - self.pos, 12int, 0int,
    {
        if self.pos >= self.tokens.len() {
            return Err(make_eot());
        }
        let is_eof = matches!(&self.tokens[self.pos]._type, TokenType::Eof);
        if is_eof {
            Ok(acc)
        } else {
            let f = match self.top_level_statement() {
                Ok(f) => f,
                Err(er) => {
                    return Err(er);
                },
            };
            let ghost acc0 = acc.deep_view();
            let mut acc2 = acc;
            acc2.push(f);
            proof {
                assert(acc2.deep_view() =~= acc0.push(f@));
            }
            self.top_level_list(acc2)
        }
    }

    /// Parse the whole token stream into a module.
    pub fn module(self) -> (r: Result<Module, ParsingError>)
        ensures
            match r {
                Ok(m) => spec_module_from(self.toks(), self.pos as int) == Ok::<_, ParsingErrorV>(
                    m@,
                ),
                Err(er) => spec_module_from(self.toks(), self.pos as int) == Err::<ModuleV, _>(er@),
            },
    {
        let mut p = self;
        let empty: Vec<ToplevelStatement> = Vec::new();
        proof {
            assert(empty.deep_view() =~= Seq::<ToplevelStatementV>::empty());
        }
        match p.top_level_list(empty) {
            Ok(v) => Ok(Module(v)),
            Err(er) => Err(er),
        }
    }
}

/// Pushing a link onto a comparison chain extends its model by the link's
/// model.
proof fn lemma_chain_push(
    chain: Vec<(ComparisonOp, Expression)>,
    chain2: Vec<(ComparisonOp, Expression)>,
    op: ComparisonOp,
    right: Expression,
)
    requires
        chain2@ == chain@.push((op, right)),
    ensures
        crate::ast::chain_view(chain2) == crate::ast::chain_view(chain).push(
            (op, crate::ast::expr_view(right)),
        ),
{
    crate::ast::lemma_chain_view(chain, 0);
    crate::ast::lemma_chain_view(chain2, 0);
    assert(crate::ast::chain_view(chain2) =~= crate::ast::chain_view(chain).push(
        (op, crate::ast::expr_view(right)),
    ));
}

/// The normalized error for running out of tokens.
fn make_eot() -> (e: ParsingError)
    ensures
        e@ == eot_error(),
{
    ParsingError {
        line: 0,
        char: 0,
        got: TokenType::Eof,
        expected: String::from_str("Unexpected End of Tokens"),
    }
}

/// The error for a token that is not what the grammar demands.
fn parse_error(got: Token, expected: &str) -> (e: ParsingError)
    ensures
        e@ == mismatch(got@, expected@),
{
    ParsingError {
        line: got.line,
        char: got.char,
        got: got._type,
        expected: String::from_str(expected),
    }
}

/// A copy of a token kind that models the same value.
fn clone_token_type(t: &TokenType) -> (r: TokenType)
    ensures
        r@ == t@,
{
    match t {
        TokenType::Integer(i) => TokenType::Integer(*i),
        TokenType::Identifier(s) => TokenType::Identifier(s.clone()),
        TokenType::Text(s) => TokenType::Text(s.clone()),
        TokenType::Print => TokenType::Print,
        TokenType::SemiColon => TokenType::SemiColon,
        TokenType::Dollar => TokenType::Dollar,
        TokenType::CurlyOpen => TokenType::CurlyOpen,
        TokenType::CurlyClose => TokenType::CurlyClose,
        TokenType::ParenOpen => TokenType::ParenOpen,
        TokenType::ParenClose => TokenType::ParenClose,
        TokenType::Comma => TokenType::Comma,
        TokenType::True => TokenType::True,
        TokenType::False => TokenType::False,
        TokenType::Assert => TokenType::Assert,
        TokenType::Let => TokenType::Let,
        TokenType::SetKw => TokenType::SetKw,
        TokenType::Assign => TokenType::Assign,
        TokenType::Bang => TokenType::Bang,
        TokenType::EqEq => TokenType::EqEq,
        TokenType::BangEq => TokenType::BangEq,
        TokenType::Lt => TokenType::Lt,
        TokenType::Gt => TokenType::Gt,
        TokenType::GtEq => TokenType::GtEq,
        TokenType::LtEq => TokenType::LtEq,
        TokenType::Minus => TokenType::Minus,
        TokenType::Plus => TokenType::Plus,
        TokenType::Star => TokenType::Star,
        TokenType::Slash => TokenType::Slash,
        TokenType::AndAnd => TokenType::AndAnd,
        TokenType::OrOr => TokenType::OrOr,
        TokenType::Or => TokenType::Or,
        TokenType::And => TokenType::And,
        TokenType::Eof => TokenType::Eof,
    }
}

/// A copy of a token that models the same value.
fn clone_token(t: &Token) -> (r: Token)
    ensures
        r@ == t@,
{
    Token { _type: clone_token_type(&t._type), line: t.line, char: t.char }
}

/// Whether two token kinds model the same value.
fn eq_token_type(a: &TokenType, b: &TokenType) -> (r: bool)
    ensures
        r == (a@ == b@),
{
    match (a, b) {
        (TokenType::Integer(x), TokenType::Integer(y)) => *x == *y,
        (TokenType::Identifier(x), TokenType::Identifier(y)) => x.eq(y),
        (TokenType::Text(x), TokenType::Text(y)) => x.eq(y),
        (TokenType::Print, TokenType::Print) => true,
        (TokenType::SemiColon, TokenType::SemiColon) => true,
        (TokenType::Dollar, TokenType::Dollar) => true,
        (TokenType::CurlyOpen, TokenType::CurlyOpen) => true,
        (TokenType::CurlyClose, TokenType::CurlyClose) => true,
        (TokenType::ParenOpen, TokenType::ParenOpen) => true,
        (TokenType::ParenClose, TokenType::ParenClose) => true,
        (TokenType::Comma, TokenType::Comma) => true,
        (TokenType::True, TokenType::True) => true,
        (TokenType::False, TokenType::False) => true,
        (TokenType::Assert, TokenType::Assert) => true,
        (TokenType::Let, TokenType::Let) => true,
        (TokenType::SetKw, TokenType::SetKw) => true,
        (TokenType::Assign, TokenType::Assign) => true,
        (TokenType::Bang, TokenType::Bang) => true,
        (TokenType::EqEq, TokenType::EqEq) => true,
        (TokenType::BangEq, TokenType::BangEq) => true,
        (TokenType::Lt, TokenType::Lt) => true,
        (TokenType::Gt, TokenType::Gt) => true,
        (TokenType::GtEq, TokenType::GtEq) => true,
        (TokenType::LtEq, TokenType::LtEq) => true,
        (TokenType::Minus, TokenType::Minus) => true,
        (TokenType::Plus, TokenType::Plus) => true,
        (TokenType::Star, TokenType::Star) => true,
        (TokenType::Slash, TokenType::Slash) => true,
        (TokenType::AndAnd, TokenType::AndAnd) => true,
        (TokenType::OrOr, TokenType::OrOr) => true,
        (TokenType::Or, TokenType::Or) => true,
        (TokenType::And, TokenType::And) => true,
        (TokenType::Eof, TokenType::Eof) => true,
        _ => false,
    }
}

/// Executable twin of `spec_binop_of`.
fn binop_of(prec: usize, t: &TokenType) -> (r: Option<BinaryOp>)
    ensures
        match r {
            Some(op) => spec_binop_of(prec as int, t@) == Some(op),
            None => spec_binop_of(prec as int, t@) is None,
        },
{
    if prec == 1 {
        match t {
            TokenType::AndAnd => Some(BinaryOp::And),
            TokenType::OrOr => Some(BinaryOp::Or),
            _ => None,
        }
    } else if prec == 3 {
        match t {
            TokenType::Plus => Some(BinaryOp::Plus),
            TokenType::Minus => Some(BinaryOp::Minus),
            _ => None,
        }
    } else if prec == 4 {
        match t {
            TokenType::Star => Some(BinaryOp::Multiply),
            TokenType::Slash => Some(BinaryOp::Divide),
            _ => None,
        }
    } else {
        None
    }
}

/// Executable twin of `spec_cmpop_of`.
fn cmpop_of(t: &TokenType) -> (r: Option<ComparisonOp>)
    ensures
        match r {
            Some(op) => spec_cmpop_of(t@) == Some(op),
            None => spec_cmpop_of(t@) is None,
        },
{
    match t {
        TokenType::EqEq => Some(ComparisonOp::Equals),
        TokenType::BangEq => Some(ComparisonOp::NotEquals),
        TokenType::Lt => Some(ComparisonOp::LessThan),
        TokenType::LtEq => Some(ComparisonOp::LessThanEquals),
        TokenType::Gt => Some(ComparisonOp::GreaterThan),
        TokenType::GtEq => Some(ComparisonOp::GreaterThanEquals),
        _ => None,
    }
}

} // verus!
