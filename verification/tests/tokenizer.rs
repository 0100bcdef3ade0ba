use viv_script::tokens::{TokenType, Tokenizer};

fn kinds(code: &str) -> Vec<TokenType> {
    Tokenizer::new(code)
        .tokenize()
        .expect("tokenize should succeed")
        .into_iter()
        .map(|t| t._type)
        .collect()
}

#[test]
fn print_five_tokenizes_exactly() {
    let ts = kinds("print 5;");
    assert_eq!(
        ts,
        vec![
            TokenType::Print,
            TokenType::Integer(5),
            TokenType::SemiColon,
            TokenType::Eof,
        ]
    );
}

#[test]
fn keywords_are_recognized_by_exact_spelling() {
    let ts = kinds("print true false assert let set");
    assert_eq!(
        ts,
        vec![
            TokenType::Print,
            TokenType::True,
            TokenType::False,
            TokenType::Assert,
            TokenType::Let,
            TokenType::SetKw,
            TokenType::Eof,
        ]
    );
}

#[test]
fn identifiers_keep_their_spelling() {
    let ts = kinds("let foo2 = bar;");
    assert_eq!(
        ts,
        vec![
            TokenType::Let,
            TokenType::Identifier("foo2".to_string()),
            TokenType::Assign,
            TokenType::Identifier("bar".to_string()),
            TokenType::SemiColon,
            TokenType::Eof,
        ]
    );
}

#[test]
fn printish_prefix_is_an_identifier() {
    let ts = kinds("printer");
    assert_eq!(
        ts,
        vec![TokenType::Identifier("printer".to_string()), TokenType::Eof]
    );
}

#[test]
fn two_character_operators_win_over_single() {
    let ts = kinds("== != <= >= && || = ! < > & |");
    assert_eq!(
        ts,
        vec![
            TokenType::EqEq,
            TokenType::BangEq,
            TokenType::LtEq,
            TokenType::GtEq,
            TokenType::AndAnd,
            TokenType::OrOr,
            TokenType::Assign,
            TokenType::Bang,
            TokenType::Lt,
            TokenType::Gt,
            TokenType::And,
            TokenType::Or,
            TokenType::Eof,
        ]
    );
}

#[test]
fn punctuation_tokenizes() {
    let ts = kinds("; $ , { } ( ) - + * /");
    assert_eq!(
        ts,
        vec![
            TokenType::SemiColon,
            TokenType::Dollar,
            TokenType::Comma,
            TokenType::CurlyOpen,
            TokenType::CurlyClose,
            TokenType::ParenOpen,
            TokenType::ParenClose,
            TokenType::Minus,
            TokenType::Plus,
            TokenType::Star,
            TokenType::Slash,
            TokenType::Eof,
        ]
    );
}

#[test]
fn string_literal_has_no_escapes() {
    let ts = kinds("\"hello world\"");
    assert_eq!(
        ts,
        vec![TokenType::Text("hello world".to_string()), TokenType::Eof]
    );
}

#[test]
fn comments_run_to_end_of_line() {
    let ts = kinds("print # all of this is skipped ;;;\n5;");
    assert_eq!(
        ts,
        vec![
            TokenType::Print,
            TokenType::Integer(5),
            TokenType::SemiColon,
            TokenType::Eof,
        ]
    );
}

#[test]
fn positions_track_lines_and_columns() {
    let ts = Tokenizer::new("print\n  5;").tokenize().unwrap();
    // Positions are recorded after the token's characters are consumed.
    assert_eq!(ts[0].line, 1);
    assert_eq!(ts[1].line, 2);
    assert_eq!(ts[1]._type, TokenType::Integer(5));
}

#[test]
fn unexpected_character_is_an_error() {
    let e = Tokenizer::new("print @;").tokenize().unwrap_err();
    assert_eq!(e.message, "Unexpected character: @");
    assert_eq!(e.line, 1);
}

#[test]
fn unterminated_string_is_an_error() {
    let e = Tokenizer::new("\"abc").tokenize().unwrap_err();
    assert_eq!(e.message, "Unexpected end of file");
}

#[test]
fn newline_inside_string_is_an_error() {
    let e = Tokenizer::new("\"ab\ncd\"").tokenize().unwrap_err();
    assert_eq!(e.message, "Unexpected newline in string");
}

#[test]
fn oversized_integer_literal_is_an_error() {
    let e = Tokenizer::new("print 99999999999;").tokenize().unwrap_err();
    assert_eq!(e.message, "Integer literal is too large");
}

#[test]
fn largest_integer_literal_fits() {
    let ts = kinds("2147483647");
    assert_eq!(ts, vec![TokenType::Integer(2147483647), TokenType::Eof]);
}

#[test]
fn empty_source_yields_end_of_stream_only() {
    let ts = kinds("");
    assert_eq!(ts, vec![TokenType::Eof]);
}
