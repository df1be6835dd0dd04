use c_webassembly::token::Comment;
use c_webassembly::token::Identifier;
use c_webassembly::token::Keyword;
use c_webassembly::token::Literal;
use c_webassembly::token::RawToken;
use c_webassembly::token::Symbol;
use c_webassembly::token::Token;
use c_webassembly::token::Type;
use c_webassembly::token_stream::RawTokenStream;
use c_webassembly::tokenizer::tokenize;
use c_webassembly::tokenizer::LexError;

#[test]
fn lexes_a_simple_declaration() {
    let tokens = tokenize("let x = i32 ;\n").unwrap();
    assert_eq!(
        tokens,
        vec![
            Token::Keyword(Keyword::Let),
            Token::Identifier(Identifier("x".to_string())),
            Token::Symbol(Symbol::Assignment),
            Token::Type(Type::I32),
            Token::Symbol(Symbol::SemiColon),
        ]
    );
}

#[test]
fn lexes_multi_character_symbols() {
    let tokens = tokenize("a <- b >= c >>> d ;\n").unwrap();
    assert_eq!(
        tokens,
        vec![
            Token::Identifier(Identifier("a".to_string())),
            Token::Symbol(Symbol::LeftArrow),
            Token::Identifier(Identifier("b".to_string())),
            Token::Symbol(Symbol::GreaterThanOrEqual),
            Token::Identifier(Identifier("c".to_string())),
            Token::Symbol(Symbol::ShiftRightArithmatic),
            Token::Identifier(Identifier("d".to_string())),
            Token::Symbol(Symbol::SemiColon),
        ]
    );
}

#[test]
fn lexes_numeric_literal_forms() {
    let tokens = tokenize("42 1.5 0b101 077 0o17 0x1F\n").unwrap();
    let expected = ["42", "1.5", "0b101", "077", "0o17", "0x1F"];
    assert_eq!(tokens.len(), expected.len());
    for (t, e) in tokens.iter().zip(expected.iter()) {
        assert_eq!(t, &Token::Literal(Literal::Numeric(e.to_string())));
    }
    // alphabetic lexemes classify as identifiers before literals are tried
    let special = tokenize("NaN Inf\n").unwrap();
    assert_eq!(
        special,
        vec![
            Token::Identifier(Identifier("NaN".to_string())),
            Token::Identifier(Identifier("Inf".to_string())),
        ]
    );
}

#[test]
fn lexes_string_literals_with_quotes_kept() {
    let tokens = tokenize("\"abc\" \"\"\n").unwrap();
    assert_eq!(
        tokens,
        vec![
            Token::Literal(Literal::Str("\"abc\"".to_string())),
            Token::Literal(Literal::Str("\"\"".to_string())),
        ]
    );
}

#[test]
fn lexes_comments() {
    let tokens = tokenize("// note\n/* boxed */ x\n").unwrap();
    assert_eq!(
        tokens,
        vec![
            Token::Comment(Comment("// note".to_string())),
            Token::Comment(Comment("/* boxed */".to_string())),
            Token::Identifier(Identifier("x".to_string())),
        ]
    );
}

#[test]
fn lexes_extended_identifiers() {
    let tokens = tokenize("_tmp $ptr a1_b\n").unwrap();
    assert_eq!(
        tokens,
        vec![
            Token::Identifier(Identifier("_tmp".to_string())),
            Token::Identifier(Identifier("$ptr".to_string())),
            Token::Identifier(Identifier("a1_b".to_string())),
        ]
    );
}

#[test]
fn keywords_win_over_identifiers() {
    let tokens = tokenize("typeof typeofx\n").unwrap();
    assert_eq!(
        tokens,
        vec![
            Token::Keyword(Keyword::TypeOf),
            Token::Identifier(Identifier("typeofx".to_string())),
        ]
    );
}

#[test]
fn unterminated_string_fails_lexing() {
    // an unclosed string literal never reaches the parser
    assert_eq!(tokenize("\"abc"), Err(LexError::UnclosedString));
}

#[test]
fn unknown_start_character_fails_lexing() {
    match tokenize("let @ ;\n") {
        Err(LexError::UnknownChar { line, col }) => {
            assert_eq!(line, 0);
            assert_eq!(col, 5);
        }
        other => panic!("expected an unknown-character failure, got {:?}", other),
    }
}

#[test]
fn input_ending_mid_lexeme_fails_lexing() {
    // the scanner requires the last lexeme to be terminated
    assert_eq!(tokenize("abc"), Err(LexError::UnfinishedToken));
}

#[test]
fn malformed_numeric_lexeme_fails_classification() {
    match tokenize("1abc ;\n") {
        Err(LexError::UnknownToken { start, end }) => {
            assert_eq!((start, end), (0, 4));
        }
        other => panic!("expected an unknown-token failure, got {:?}", other),
    }
}

#[test]
fn classify_follows_the_precedence_order() {
    assert_eq!(
        Token::classify("fn"),
        Some(Token::Keyword(Keyword::Function))
    );
    assert_eq!(Token::classify("page"), Some(Token::Type(Type::Page)));
    assert_eq!(Token::classify("|>"), Some(Token::Symbol(Symbol::PipeForward)));
    assert_eq!(
        Token::classify("frefx"),
        Some(Token::Identifier(Identifier("frefx".to_string())))
    );
    assert_eq!(
        Token::classify("//x"),
        Some(Token::Comment(Comment("//x".to_string())))
    );
    assert_eq!(
        Token::classify("0b01"),
        Some(Token::Literal(Literal::Numeric("0b01".to_string())))
    );
    assert_eq!(Token::classify("0b2"), None);
    assert_eq!(Token::classify(""), None);
}

#[test]
fn symbol_prefix_matching() {
    assert!(Symbol::match_str(">"));
    assert!(Symbol::match_str(">>"));
    assert!(Symbol::match_str(">>>"));
    assert!(!Symbol::match_str(">>>>"));
    assert!(!Symbol::match_str("<>"));
    assert!(Symbol::match_char('.'));
    assert!(Symbol::match_char('|'));
    assert!(!Symbol::match_char('"'));
    assert!(!Symbol::match_char('a'));
}

#[test]
fn identifier_character_predicates() {
    assert!(Identifier::is_alphabetic_valid_char('a'));
    assert!(Identifier::is_alphabetic_valid_char('_'));
    assert!(Identifier::is_alphabetic_valid_char('$'));
    assert!(!Identifier::is_alphabetic_valid_char('1'));
    assert!(Identifier::is_alphanumeric_valid_char('1'));
    assert!(!Identifier::is_alphanumeric_valid_char('-'));
}

#[test]
fn raw_token_carries_value_and_range() {
    let t = RawToken::new("let".to_string(), 4, 7);
    assert_eq!(t.value(), "let");
    assert_eq!(t.range(), (4, 7));
}

#[test]
fn raw_token_stream_cuts_lexemes() {
    let mut s = RawTokenStream::new("ab cd");
    assert_eq!(s.temp(), "");
    s.set_start(0, 1);
    assert_eq!(s.temp(), "a");
    assert_eq!(s.temp_prejoined(1), "ab");
    s.add(1);
    assert_eq!(s.temp(), "ab");
    s.cut();
    assert_eq!(s.temp(), "");
    s.set_start(3, 1);
    s.add(1);
    s.cut();
    s.cut(); // cutting an empty range adds nothing
    let raws = s.collect();
    assert_eq!(raws.len(), 2);
    assert_eq!(raws[0].value(), "ab");
    assert_eq!(raws[0].range(), (0, 2));
    assert_eq!(raws[1].value(), "cd");
    assert_eq!(raws[1].range(), (3, 5));
}
