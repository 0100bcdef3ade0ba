use vstd::prelude::*;

use crate::text::{bump, bump_usize, chars_eq, chars_of, string_from_chars};

verus! {

/// The kind of a single token, together with its payload where one exists.
#[derive(Debug, Clone, PartialEq, Eq)]
pub enum TokenType {
    Integer(i32),
    Identifier(String),
    Text(String),
    Print,
    SemiColon,
    Dollar,
    CurlyOpen,
    CurlyClose,
    ParenOpen,
    ParenClose,
    Comma,
    True,
    False,
    Assert,
    Let,
    SetKw,
    Assign,
    Bang,
    EqEq,
    BangEq,
    Lt,
    Gt,
    GtEq,
    LtEq,
    Minus,
    Plus,
    Star,
    Slash,
    AndAnd,
    OrOr,
    Or,
    And,
    Eof,
}

/// Mathematical model of a token kind: string payloads become character
/// sequences.
pub enum TokenTypeV {
    Integer(i32),
    Identifier(Seq<char>),
    Text(Seq<char>),
    Print,
    SemiColon,
    Dollar,
    CurlyOpen,
    CurlyClose,
    ParenOpen,
    ParenClose,
    Comma,
    True,
    False,
    Assert,
    Let,
    SetKw,
    Assign,
    Bang,
    EqEq,
    BangEq,
    Lt,
    Gt,
    GtEq,
    LtEq,
    Minus,
    Plus,
    Star,
    Slash,
    AndAnd,
    OrOr,
    Or,
    And,
    Eof,
}

impl View for TokenType {
    type V = TokenTypeV;

    open spec fn view(&self) -> TokenTypeV {
        match self {
            TokenType::Integer(i) => TokenTypeV::Integer(*i),
            TokenType::Identifier(s) => TokenTypeV::Identifier(s@),
            TokenType::Text(s) => TokenTypeV::Text(s@),
            TokenType::Print => TokenTypeV::Print,
            TokenType::SemiColon => TokenTypeV::SemiColon,
            TokenType::Dollar => TokenTypeV::Dollar,
            TokenType::CurlyOpen => TokenTypeV::CurlyOpen,
            TokenType::CurlyClose => TokenTypeV::CurlyClose,
            TokenType::ParenOpen => TokenTypeV::ParenOpen,
            TokenType::ParenClose => TokenTypeV::ParenClose,
            TokenType::Comma => TokenTypeV::Comma,
            TokenType::True => TokenTypeV::True,
            TokenType::False => TokenTypeV::False,
            TokenType::Assert => TokenTypeV::Assert,
            TokenType::Let => TokenTypeV::Let,
            TokenType::SetKw => TokenTypeV::SetKw,
            TokenType::Assign => TokenTypeV::Assign,
            TokenType::Bang => TokenTypeV::Bang,
            TokenType::EqEq => TokenTypeV::EqEq,
            TokenType::BangEq => TokenTypeV::BangEq,
            TokenType::Lt => TokenTypeV::Lt,
            TokenType::Gt => TokenTypeV::Gt,
            TokenType::GtEq => TokenTypeV::GtEq,
            TokenType::LtEq => TokenTypeV::LtEq,
            TokenType::Minus => TokenTypeV::Minus,
            TokenType::Plus => TokenTypeV::Plus,
            TokenType::Star => TokenTypeV::Star,
            TokenType::Slash => TokenTypeV::Slash,
            TokenType::AndAnd => TokenTypeV::AndAnd,
            TokenType::OrOr => TokenTypeV::OrOr,
            TokenType::Or => TokenTypeV::Or,
            TokenType::And => TokenTypeV::And,
            TokenType::Eof => TokenTypeV::Eof,
        }
    }
}

impl DeepView for TokenType {
    type V = TokenTypeV;

    open spec fn deep_view(&self) -> TokenTypeV {
        self.view()
    }
}

/// A token with the source position recorded when it was produced.
#[derive(Debug, Clone)]
pub struct Token {
    pub _type: TokenType,
    pub line: usize,
    pub char: usize,
}

/// Mathematical model of a token.
pub struct TokenV {
    pub t: TokenTypeV,
    pub line: usize,
    pub char: usize,
}

impl View for Token {
    type V = TokenV;

    open spec fn view(&self) -> TokenV {
        TokenV { t: self._type@, line: self.line, char: self.char }
    }
}

impl DeepView for Token {
    type V = TokenV;

    open spec fn deep_view(&self) -> TokenV {
        self.view()
    }
}

/// A fatal tokenizing failure, with the position it was noticed at.
#[derive(Debug, Clone)]
pub struct TokenizerError {
    pub line: usize,
    pub char: usize,
    pub message: String,
}

/// Mathematical model of a tokenizing failure.
pub struct TokenizerErrorV {
    pub line: usize,
    pub char: usize,
    pub message: Seq<char>,
}

impl View for TokenizerError {
    type V = TokenizerErrorV;

    open spec fn view(&self) -> TokenizerErrorV {
        TokenizerErrorV { line: self.line, char: self.char, message: self.message@ }
    }
}

/// The model of a finished tokenize pass: the tokens in order, or the
/// first failure.
pub type TokRes = Result<Seq<TokenV>, TokenizerErrorV>;

/// Model of an executable tokenize result.
pub open spec fn tokens_res_view(r: Result<Vec<Token>, TokenizerError>) -> TokRes {
    match r {
        Ok(v) => Ok(v.deep_view()),
        Err(e) => Err(e@),
    }
}

/// Decimal digit characters.
pub open spec fn spec_is_digit(c: char) -> bool {
    48 <= c as u32 <= 57
}

/// ASCII letters.
pub open spec fn spec_is_alpha(c: char) -> bool {
    (65 <= c as u32 <= 90) || (97 <= c as u32 <= 122)
}

/// ASCII letters and digits: the characters an identifier may continue with.
pub open spec fn spec_is_alnum(c: char) -> bool {
    spec_is_digit(c) || spec_is_alpha(c)
}

/// ASCII whitespace: space, tab, newline, carriage return and form feed.
pub open spec fn spec_is_space(c: char) -> bool {
    c == ' ' || c == '\t' || c == '\n' || c == '\r' || c == '\x0c'
}

/// The numeric value of a decimal digit character.
pub open spec fn digit_value(c: char) -> int {
    c as u32 - 48
}

/// The line counter after consuming one character.
pub open spec fn adv_line(c: char, line: usize) -> usize {
    if c == '\n' {
        bump(line)
    } else {
        line
    }
}

/// The column counter after consuming one character: it resets on a
/// newline and advances otherwise.
pub open spec fn adv_char(c: char, ch: usize) -> usize {
    if c == '\n' {
        1usize
    } else {
        bump(ch)
    }
}

/// The token kind of a one-character punctuation symbol, if the character
/// is one.
pub open spec fn spec_single_token(c: char) -> Option<TokenTypeV> {
    if c == ';' {
        Some(TokenTypeV::SemiColon)
    } else if c == '$' {
        Some(TokenTypeV::Dollar)
    } else if c == ',' {
        Some(TokenTypeV::Comma)
    } else if c == '{' {
        Some(TokenTypeV::CurlyOpen)
    } else if c == '}' {
        Some(TokenTypeV::CurlyClose)
    } else if c == '(' {
        Some(TokenTypeV::ParenOpen)
    } else if c == ')' {
        Some(TokenTypeV::ParenClose)
    } else if c == '-' {
        Some(TokenTypeV::Minus)
    } else if c == '+' {
        Some(TokenTypeV::Plus)
    } else if c == '*' {
        Some(TokenTypeV::Star)
    } else if c == '/' {
        Some(TokenTypeV::Slash)
    } else {
        None
    }
}

/// Prepend one token to a tokenize result, passing a failure through.
pub open spec fn spec_cons(t: TokenV, rest: TokRes) -> TokRes {
    match rest {
        Ok(ts) => Ok(seq![t] + ts),
        Err(e) => Err(e),
    }
}

/// The keyword or identifier token for a completed word.
pub open spec fn spec_keyword(acc: Seq<char>) -> TokenTypeV {
    if acc == "print"@ {
        TokenTypeV::Print
    } else if acc == "true"@ {
        TokenTypeV::True
    } else if acc == "false"@ {
        TokenTypeV::False
    } else if acc == "assert"@ {
        TokenTypeV::Assert
    } else if acc == "let"@ {
        TokenTypeV::Let
    } else if acc == "set"@ {
        TokenTypeV::SetKw
    } else {
        TokenTypeV::Identifier(acc)
    }
}

/// The definitional tokenizer: the tokens of `cs` from position `i`
/// onward, with the current line and column counters.  Every token and
/// every failure records the position exactly as the executable tokenizer
/// tracks it: counters advance after each consumed character.
pub open spec fn spec_tokenize_from(cs: Seq<char>, i: int, line: usize, ch: usize) -> TokRes
    decreases cs.len() - i, 0int
        when 0 <= i
{
    if i >= cs.len() {
        Ok(seq![TokenV { t: TokenTypeV::Eof, line, char: ch }])
    } else {
        let c = cs[i];
        let l2 = adv_line(c, line);
        let c2 = adv_char(c, ch);
        if c == '#' {
            spec_comment(cs, i + 1, l2, c2)
        } else if c == '"' {
            spec_string(cs, i + 1, l2, c2, Seq::empty())
        } else if spec_is_digit(c) {
            spec_number(cs, i + 1, l2, c2, digit_value(c) as i32)
        } else if spec_is_alpha(c) {
            spec_identifier(cs, i + 1, l2, c2, seq![c])
        } else if spec_is_space(c) {
            spec_space(cs, i + 1, l2, c2)
        } else if c == '=' {
            spec_double(cs, i + 1, l2, c2, '=', TokenTypeV::Assign, TokenTypeV::EqEq)
        } else if c == '!' {
            spec_double(cs, i + 1, l2, c2, '=', TokenTypeV::Bang, TokenTypeV::BangEq)
        } else if c == '<' {
            spec_double(cs, i + 1, l2, c2, '=', TokenTypeV::Lt, TokenTypeV::LtEq)
        } else if c == '>' {
            spec_double(cs, i + 1, l2, c2, '=', TokenTypeV::Gt, TokenTypeV::GtEq)
        } else if c == '&' {
            spec_double(cs, i + 1, l2, c2, '&', TokenTypeV::And, TokenTypeV::AndAnd)
        } else if c == '|' {
            spec_double(cs, i + 1, l2, c2, '|', TokenTypeV::Or, TokenTypeV::OrOr)
        } else {
            match spec_single_token(c) {
                Some(t) => spec_cons(
                    TokenV { t, line: l2, char: c2 },
                    spec_tokenize_from(cs, i + 1, l2, c2),
                ),
                None => Err(
                    TokenizerErrorV {
                        line: l2,
                        char: c2,
                        message: "Unexpected character: "@ + seq![c],
                    },
                ),
            }
        }
    }
}

/// Skip a line comment: everything up to and including the next newline.
pub open spec fn spec_comment(cs: Seq<char>, i: int, line: usize, ch: usize) -> TokRes
    decreases cs.len() - i, 1int
        when 0 <= i
{
    if i >= cs.len() {
        spec_tokenize_from(cs, i, line, ch)
    } else {
        let c = cs[i];
        if c == '\n' {
            spec_tokenize_from(cs, i + 1, adv_line(c, line), adv_char(c, ch))
        } else {
            spec_comment(cs, i + 1, adv_line(c, line), adv_char(c, ch))
        }
    }
}

/// Skip a run of whitespace characters.
pub open spec fn spec_space(cs: Seq<char>, i: int, line: usize, ch: usize) -> TokRes
    decreases cs.len() - i, 1int
        when 0 <= i
{
    if i < cs.len() && spec_is_space(cs[i]) {
        spec_space(cs, i + 1, adv_line(cs[i], line), adv_char(cs[i], ch))
    } else {
        spec_tokenize_from(cs, i, line, ch)
    }
}

/// Accumulate a decimal integer literal.  A literal that exceeds the
/// 32-bit signed range is a tokenizing failure.
pub open spec fn spec_number(cs: Seq<char>, i: int, line: usize, ch: usize, acc: i32) -> TokRes
    decreases cs.len() - i, 1int
        when 0 <= i
{
    if i < cs.len() && spec_is_digit(cs[i]) {
        let d = digit_value(cs[i]);
        if acc > (i32::MAX - d) / 10 {
            Err(TokenizerErrorV { line, char: ch, message: "Integer literal is too large"@ })
        } else {
            spec_number(cs, i + 1, adv_line(cs[i], line), adv_char(cs[i], ch), (acc * 10 + d) as i32)
        }
    } else {
        spec_cons(
            TokenV { t: TokenTypeV::Integer(acc), line, char: ch },
            spec_tokenize_from(cs, i, line, ch),
        )
    }
}

/// Accumulate a word, then classify it as a keyword or an identifier.
pub open spec fn spec_identifier(cs: Seq<char>, i: int, line: usize, ch: usize, acc: Seq<char>) -> TokRes
    decreases cs.len() - i, 1int
        when 0 <= i
{
    if i < cs.len() && spec_is_alnum(cs[i]) {
        spec_identifier(cs, i + 1, adv_line(cs[i], line), adv_char(cs[i], ch), acc.push(cs[i]))
    } else {
        spec_cons(
            TokenV { t: spec_keyword(acc), line, char: ch },
            spec_tokenize_from(cs, i, line, ch),
        )
    }
}

/// Accumulate a double-quoted string literal.  A newline inside the
/// literal, or the end of the input before the closing quote, is a
/// tokenizing failure.
pub open spec fn spec_string(cs: Seq<char>, i: int, line: usize, ch: usize, acc: Seq<char>) -> TokRes
    decreases cs.len() - i, 1int
        when 0 <= i
{
    if i >= cs.len() {
        Err(TokenizerErrorV { line, char: ch, message: "Unexpected end of file"@ })
    } else {
        let c = cs[i];
        if c == '"' {
            spec_cons(
                TokenV { t: TokenTypeV::Text(acc), line: adv_line(c, line), char: adv_char(c, ch) },
                spec_tokenize_from(cs, i + 1, adv_line(c, line), adv_char(c, ch)),
            )
        } else if c == '\n' {
            Err(TokenizerErrorV { line, char: ch, message: "Unexpected newline in string"@ })
        } else {
            spec_string(cs, i + 1, adv_line(c, line), adv_char(c, ch), acc.push(c))
        }
    }
}

/// A one- or two-character operator: the two-character form when the next
/// character matches, the one-character form otherwise.
pub open spec fn spec_double(
    cs: Seq<char>,
    i: int,
    line: usize,
    ch: usize,
    second: char,
    single: TokenTypeV,
    double: TokenTypeV,
) -> TokRes
    decreases cs.len() - i, 1int
        when 0 <= i
{
    if i < cs.len() && cs[i] == second {
        spec_cons(
            TokenV { t: double, line: adv_line(cs[i], line), char: adv_char(cs[i], ch) },
            spec_tokenize_from(cs, i + 1, adv_line(cs[i], line), adv_char(cs[i], ch)),
        )
    } else {
        spec_cons(TokenV { t: single, line, char: ch }, spec_tokenize_from(cs, i, line, ch))
    }
}

/// The tokens of a whole source text, starting at line 1, column 1.
pub open spec fn spec_tokenize(cs: Seq<char>) -> TokRes {
    spec_tokenize_from(cs, 0, 1, 1)
}

/// The tokenizer: the source characters and the position reached so far.
pub struct Tokenizer {
    pub code: Vec<char>,
    pub pos: usize,
    pub line: usize,
    pub char: usize,
}

impl Tokenizer {
    /// A fresh tokenizer over the given source text.
    pub fn new(code: &str) -> (t: Tokenizer)
        ensures
            t.code@ == code@,
            t.pos == 0,
            t.line == 1,
            t.char == 1,
    {
        Tokenizer { code: chars_of(code), pos: 0, line: 1, char: 1 }
    }

    /// The next character, if any remains.
    fn peek(&self) -> (r: Option<char>)
        ensures
            self.pos < self.code@.len() ==> r == Some(self.code@[self.pos as int]),
            self.pos >= self.code@.len() ==> r is None,
    {
        if self.pos < self.code.len() {
            Some(self.code[self.pos])
        } else {
            None
        }
    }

    /// Consume one character, advancing the position counters.
    fn advance(&mut self) -> (r: Option<char>)
        ensures
            final(self).code == old(self).code,
            old(self).pos < old(self).code@.len() ==> {
                let c = old(self).code@[old(self).pos as int];
                r == Some(c) && final(self).pos == old(self).pos + 1 && final(self).line
                    == adv_line(c, old(self).line) && final(self).char == adv_char(
                    c,
                    old(self).char,
                )
            },
            old(self).pos >= old(self).code@.len() ==> r is None && *final(self) == *old(self),
    {
        if self.pos < self.code.len() {
            let c = self.code[self.pos];
            self.pos = self.pos + 1;
            if c == '\n' {
                self.line = bump_usize(self.line);
                self.char = 1;
            } else {
                self.char = bump_usize(self.char);
            }
            Some(c)
        } else {
            None
        }
    }

    /// Consume one character for its effect on the position alone.
    fn void(&mut self)
        requires
            old(self).pos < old(self).code@.len(),
        ensures
            final(self).code == old(self).code,
            final(self).pos == old(self).pos + 1,
            final(self).line == adv_line(old(self).code@[old(self).pos as int], old(self).line),
            final(self).char == adv_char(old(self).code@[old(self).pos as int], old(self).char),
    {
        let _ = self.advance();
    }

    /// A token stamped with the current position.
    fn token(&self, _type: TokenType) -> (tok: Token)
        ensures
            tok@ == (TokenV { t: _type@, line: self.line, char: self.char }),
    {
        Token { _type, line: self.line, char: self.char }
    }

    /// An error stamped with the current position.
    fn error(&self, message: String) -> (e: TokenizerError)
        ensures
            e@ == (TokenizerErrorV { line: self.line, char: self.char, message: message@ }),
    {
        TokenizerError { line: self.line, char: self.char, message }
    }

    /// Prepend a token to the result of tokenizing the rest of the input.
    fn cons_token(tok: Token, rest: Result<Vec<Token>, TokenizerError>) -> (r: Result<
        Vec<Token>,
        TokenizerError,
    >)
        ensures
            tokens_res_view(r) == spec_cons(tok@, tokens_res_view(rest)),
    {
        match rest {
            Ok(mut v) => {
                let ghost v0 = v.deep_view();
                v.insert(0, tok);
                proof {
                    assert(v.deep_view() =~= seq![tok@] + v0);
                }
                Ok(v)
            },
            Err(e) => Err(e),
        }
    }

    /// Tokenize everything from the current position onward.
    fn tokenize_from(&mut self) -> (r: Result<Vec<Token>, TokenizerError>)
        ensures
            tokens_res_view(r) == spec_tokenize_from(
                old(self).code@,
                old(self).pos as int,
                old(self).line,
                old(self).char,
            ),
        decreases self.code@.len() - self.pos, 0int,
    {
        let p = self.peek();
        match p {
            None => {
                let tok = self.token(TokenType::Eof);
                let mut v: Vec<Token> = Vec::new();
                v.push(tok);
                proof {
                    assert(v.deep_view() =~= seq![tok@]);
                }
                Ok(v)
            },
            Some(c) => {
                self.void();
                if c == '#' {
                    self.consume_comment()
                } else if c == '"' {
                    self.consume_string(Vec::new())
                } else if is_digit(c) {
                    self.consume_number((c as u32 - 48) as i32)
                } else if is_alpha(c) {
                    let mut acc: Vec<char> = Vec::new();
                    acc.push(c);
                    proof {
                        assert(acc@ =~= seq![c]);
                    }
                    self.consume_identifier(acc)
                } else if is_space(c) {
                    self.consume_whitespace()
                } else if c == '=' {
                    self.consume_double_symbol('=', TokenType::Assign, TokenType::EqEq)
                } else if c == '!' {
                    self.consume_double_symbol('=', TokenType::Bang, TokenType::BangEq)
                } else if c == '<' {
                    self.consume_double_symbol('=', TokenType::Lt, TokenType::LtEq)
                } else if c == '>' {
                    self.consume_double_symbol('=', TokenType::Gt, TokenType::GtEq)
                } else if c == '&' {
                    self.consume_double_symbol('&', TokenType::And, TokenType::AndAnd)
                } else if c == '|' {
                    self.consume_double_symbol('|', TokenType::Or, TokenType::OrOr)
                } else {
                    let single = single_token(c);
                    match single {
                        Some(t) => {
                            let tok = self.token(t);
                            let rest = self.tokenize_from();
                            Self::cons_token(tok, rest)
                        },
                        None => {
                            let mut msg = chars_of("Unexpected character: ");
                            msg.push(c);
                            proof {
                                assert(msg@ =~= "Unexpected character: "@ + seq![c]);
                            }
                            Err(self.error(string_from_chars(&msg)))
                        },
                    }
                }
            },
        }
    }

    /// Skip a line comment.
    fn consume_comment(&mut self) -> (r: Result<Vec<Token>, TokenizerError>)
        ensures
            tokens_res_view(r) == spec_comment(
                old(self).code@,
                old(self).pos as int,
                old(self).line,
                old(self).char,
            ),
        decreases self.code@.len() - self.pos, 1int,
    {
        let p = self.peek();
        match p {
            None => self.tokenize_from(),
            Some(c) => {
                self.void();
                if c == '\n' {
                    self.tokenize_from()
                } else {
                    self.consume_comment()
                }
            },
        }
    }

    /// Skip whitespace.
    fn consume_whitespace(&mut self) -> (r: Result<Vec<Token>, TokenizerError>)
        ensures
            tokens_res_view(r) == spec_space(
                old(self).code@,
                old(self).pos as int,
                old(self).line,
                old(self).char,
            ),
        decreases self.code@.len() - self.pos, 1int,
    {
        let p = self.peek();
        let is_more = match p {
            Some(c) => is_space(c),
            None => false,
        };
        if is_more {
            self.void();
            self.consume_whitespace()
        } else {
            self.tokenize_from()
        }
    }

    /// Accumulate the remaining digits of an integer literal.
    fn consume_number(&mut self, acc: i32) -> (r: Result<Vec<Token>, TokenizerError>)
        requires
            acc >= 0,
        ensures
            tokens_res_view(r) == spec_number(
                old(self).code@,
                old(self).pos as int,
                old(self).line,
                old(self).char,
                acc,
            ),
        decreases self.code@.len() - self.pos, 1int,
    {
        let p = self.peek();
        let is_more = match p {
            Some(c) => is_digit(c),
            None => false,
        };
        if is_more {
            let c = p.unwrap();
            let d: i32 = (c as u32 - 48) as i32;
            if acc > (i32::MAX - d) / 10 {
                Err(self.error(String::from_str("Integer literal is too large")))
            } else {
                proof {
                    lemma_decimal_step(acc as int, d as int);
                }
                self.void();
                self.consume_number(acc * 10 + d)
            }
        } else {
            let tok = self.token(TokenType::Integer(acc));
            let rest = self.tokenize_from();
            Self::cons_token(tok, rest)
        }
    }

    /// Accumulate the rest of a word, then classify it.
    fn consume_identifier(&mut self, acc: Vec<char>) -> (r: Result<Vec<Token>, TokenizerError>)
        ensures
            tokens_res_view(r) == spec_identifier(
                old(self).code@,
                old(self).pos as int,
                old(self).line,
                old(self).char,
                acc@,
            ),
        decreases self.code@.len() - self.pos, 1int,
    {
        let p = self.peek();
        let is_more = match p {
            Some(c) => is_alnum(c),
            None => false,
        };
        if is_more {
            let c = p.unwrap();
            self.void();
            let mut acc2 = acc;
            acc2.push(c);
            self.consume_identifier(acc2)
        } else {
            let _type: TokenType = if chars_eq(&acc, &chars_of("print")) {
                TokenType::Print
            } else if chars_eq(&acc, &chars_of("true")) {
                TokenType::True
            } else if chars_eq(&acc, &chars_of("false")) {
                TokenType::False
            } else if chars_eq(&acc, &chars_of("assert")) {
                TokenType::Assert
            } else if chars_eq(&acc, &chars_of("let")) {
                TokenType::Let
            } else if chars_eq(&acc, &chars_of("set")) {
                TokenType::SetKw
            } else {
                TokenType::Identifier(string_from_chars(&acc))
            };
            proof {
                assert(_type@ == spec_keyword(acc@));
            }
            let tok = self.token(_type);
            let rest = self.tokenize_from();
            Self::cons_token(tok, rest)
        }
    }

    /// Accumulate the rest of a string literal.
    fn consume_string(&mut self, acc: Vec<char>) -> (r: Result<Vec<Token>, TokenizerError>)
        ensures
            tokens_res_view(r) == spec_string(
                old(self).code@,
                old(self).pos as int,
                old(self).line,
                old(self).char,
                acc@,
            ),
        decreases self.code@.len() - self.pos, 1int,
    {
        let p = self.peek();
        match p {
            None => Err(self.error(String::from_str("Unexpected end of file"))),
            Some(c) => {
                if c == '"' {
                    self.void();
                    let tok = self.token(TokenType::Text(string_from_chars(&acc)));
                    let rest = self.tokenize_from();
                    Self::cons_token(tok, rest)
                } else if c == '\n' {
                    Err(self.error(String::from_str("Unexpected newline in string")))
                } else {
                    self.void();
                    let mut acc2 = acc;
                    acc2.push(c);
                    self.consume_string(acc2)
                }
            },
        }
    }

    /// A one- or two-character operator.
    fn consume_double_symbol(
        &mut self,
        next_char: char,
        single_token: TokenType,
        double_token: TokenType,
    ) -> (r: Result<Vec<Token>, TokenizerError>)
        ensures
            tokens_res_view(r) == spec_double(
                old(self).code@,
                old(self).pos as int,
                old(self).line,
                old(self).char,
                next_char,
                single_token@,
                double_token@,
            ),
        decreases self.code@.len() - self.pos, 1int,
    {
        let p = self.peek();
        let is_double = match p {
            Some(c) => c == next_char,
            None => false,
        };
        if is_double {
            self.void();
            let tok = self.token(double_token);
            let rest = self.tokenize_from();
            Self::cons_token(tok, rest)
        } else {
            let tok = self.token(single_token);
            let rest = self.tokenize_from();
            Self::cons_token(tok, rest)
        }
    }

    /// Tokenize the whole input.  On a fresh tokenizer this yields exactly
    /// `spec_tokenize` of the source text.
    pub fn tokenize(self) -> (r: Result<Vec<Token>, TokenizerError>)
        ensures
            tokens_res_view(r) == spec_tokenize_from(
                self.code@,
                self.pos as int,
                self.line,
                self.char,
            ),
    {
        let mut t = self;
        t.tokenize_from()
    }
}

/// Executable twin of `spec_is_digit`.
fn is_digit(c: char) -> (b: bool)
    ensures
        b == spec_is_digit(c),
{
    let u = c as u32;
    48 <= u && u <= 57
}

/// Executable twin of `spec_is_alpha`.
fn is_alpha(c: char) -> (b: bool)
    ensures
        b == spec_is_alpha(c),
{
    let u = c as u32;
    (65 <= u && u <= 90) || (97 <= u && u <= 122)
}

/// Executable twin of `spec_is_alnum`.
fn is_alnum(c: char) -> (b: bool)
    ensures
        b == spec_is_alnum(c),
{
    is_digit(c) || is_alpha(c)
}

/// Executable twin of `spec_is_space`.
fn is_space(c: char) -> (b: bool)
    ensures
        b == spec_is_space(c),
{
    c == ' ' || c == '\t' || c == '\n' || c == '\r' || c == '\x0c'
}

/// Executable twin of `spec_single_token`.
fn single_token(c: char) -> (r: Option<TokenType>)
    ensures
        match r {
            Some(t) => spec_single_token(c) == Some(t@),
            None => spec_single_token(c) is None,
        },
{
    if c == ';' {
        Some(TokenType::SemiColon)
    } else if c == '$' {
        Some(TokenType::Dollar)
    } else if c == ',' {
        Some(TokenType::Comma)
    } else if c == '{' {
        Some(TokenType::CurlyOpen)
    } else if c == '}' {
        Some(TokenType::CurlyClose)
    } else if c == '(' {
        Some(TokenType::ParenOpen)
    } else if c == ')' {
        Some(TokenType::ParenClose)
    } else if c == '-' {
        Some(TokenType::Minus)
    } else if c == '+' {
        Some(TokenType::Plus)
    } else if c == '*' {
        Some(TokenType::Star)
    } else if c == '/' {
        Some(TokenType::Slash)
    } else {
        None
    }
}

/// A value at most `(i32::MAX - d) / 10` can take one more decimal digit
/// without leaving the 32-bit signed range.
proof fn lemma_decimal_step(acc: int, d: int)
    requires
        0 <= d <= 9,
        0 <= acc,
        acc <= (i32::MAX - d) / 10,
    ensures
        acc * 10 + d <= i32::MAX,
{
    let m = i32::MAX as int;
    assert(acc * 10 <= ((m - d) / 10) * 10) by (nonlinear_arith)
        requires
            0 <= acc,
            acc <= (m - d) / 10,
    ;
    vstd::arithmetic::div_mod::lemma_fundamental_div_mod(m - d, 10);
    vstd::arithmetic::div_mod::lemma_mod_bound(m - d, 10);
}

} // verus!
