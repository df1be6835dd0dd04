use c_webassembly::cli::Opt;
use c_webassembly::cli::OptLevel;
use c_webassembly::grammar::Grammar;
use c_webassembly::grammar::GrammarError;
use c_webassembly::grammar::Outcome;
use c_webassembly::grammar::Production;
use c_webassembly::grammar::RuleId;
use c_webassembly::grammar::FunctionDeclaration;
use c_webassembly::token::Identifier;
use c_webassembly::token::Keyword;
use c_webassembly::token::Literal;
use c_webassembly::token::Symbol;
use c_webassembly::token::Token;
use c_webassembly::token::Type;
use c_webassembly::token_grammar::TokenGrammar;

fn ident(name: &str) -> Token {
    Token::Identifier(Identifier(name.to_string()))
}

#[test]
fn name() {
    // the generic production wrapper supplies the capability set that every
    // grammar rule shares: consume, report completion, report a label
    let mut p = Production::new(RuleId::Program);
    assert!(!p.is_done());
    assert_eq!(p.info(), "Program");
    assert!(matches!(
        p.process(&Token::Symbol(Symbol::SemiColon)),
        Outcome::Consumed(_)
    ));
}

#[test]
fn terminal_matchers_accept_their_kinds() {
    assert!(TokenGrammar::from_keyword(Keyword::If).is_match(&Token::Keyword(Keyword::If)));
    assert!(!TokenGrammar::from_keyword(Keyword::If).is_match(&Token::Keyword(Keyword::Else)));
    assert!(TokenGrammar::any_keyword().is_match(&Token::Keyword(Keyword::Else)));
    assert!(TokenGrammar::from_type(Type::F64).is_match(&Token::Type(Type::F64)));
    assert!(TokenGrammar::any_type().is_match(&Token::Type(Type::Xref)));
    assert!(TokenGrammar::any_identifier().is_match(&ident("x")));
    assert!(!TokenGrammar::any_identifier().is_match(&Token::Keyword(Keyword::If)));
    assert!(TokenGrammar::any_comment().is_match(&Token::Comment(
        c_webassembly::token::Comment("// c".to_string())
    )));
    assert!(TokenGrammar::from_symbol(Symbol::Comma).is_match(&Token::Symbol(Symbol::Comma)));
    assert!(TokenGrammar::any_symbol().is_match(&Token::Symbol(Symbol::Dot)));
}

#[test]
fn literal_matchers_distinguish_numeric_and_string() {
    let num = Token::Literal(Literal::Numeric("1".to_string()));
    let text = Token::Literal(Literal::Str("\"s\"".to_string()));
    assert!(TokenGrammar::any_numeric_literal().is_match(&num));
    assert!(!TokenGrammar::any_numeric_literal().is_match(&text));
    assert!(TokenGrammar::any_string_literal().is_match(&text));
    assert!(!TokenGrammar::any_string_literal().is_match(&num));
    assert!(TokenGrammar::any_literal().is_match(&num));
    assert!(TokenGrammar::any_literal().is_match(&text));
}

#[test]
fn operator_matchers_follow_the_tables() {
    let unary = TokenGrammar::any_unary_symbol();
    let binary = TokenGrammar::any_binary_symbol();
    assert!(unary.is_match(&Token::Symbol(Symbol::LogicalNegation)));
    assert!(!unary.is_match(&Token::Symbol(Symbol::Asterisk)));
    assert!(binary.is_match(&Token::Symbol(Symbol::PipeForward)));
    assert!(binary.is_match(&Token::Symbol(Symbol::BitwiseNot)));
    assert!(!binary.is_match(&Token::Symbol(Symbol::LeftArrow)));
    assert!(!binary.is_match(&Token::Symbol(Symbol::Query)));
}

#[test]
fn token_grammar_processes_like_a_complete_node() {
    let mut g = TokenGrammar::from_keyword(Keyword::Return);
    assert!(g.is_done());
    match g.process(&Token::Keyword(Keyword::Return)) {
        Outcome::Consumed(list) => assert_eq!(list.len(), 0),
        _ => panic!("a matching terminal must consume"),
    }
    match g.process(&Token::Keyword(Keyword::If)) {
        Outcome::Unexpected(e) => assert_eq!(e, GrammarError::MismatchedToken),
        _ => panic!("a mismatched terminal must reject"),
    }
    assert_eq!(g.info(), "Token");
}

#[test]
fn fresh_production_walks_a_function_header() {
    let mut p = Production::new(RuleId::FunctionDeclaration);
    assert!(!p.is_done());
    assert_eq!(p.info(), "FunctionDeclaration");

    match p.process(&Token::Keyword(Keyword::Function)) {
        Outcome::Consumed(list) => assert_eq!(list.len(), 0),
        _ => panic!("`fn` must be consumed"),
    }
    match p.process(&ident("f")) {
        Outcome::Consumed(list) => assert_eq!(list.len(), 0),
        _ => panic!("the name must be consumed"),
    }
    // the signature opens nested productions: the signature itself and its
    // parameter list
    match p.process(&Token::Symbol(Symbol::LeftParenthese)) {
        Outcome::Consumed(list) => {
            assert_eq!(list.len(), 2);
            assert_eq!(list[0].info(), "Signature");
            assert_eq!(list[1].info(), "Parameter");
        }
        _ => panic!("the parameter list must open"),
    }
}

#[test]
fn production_rejects_a_wrong_first_token() {
    let mut p = Production::new(RuleId::ReturnStatement);
    match p.process(&Token::Keyword(Keyword::Break)) {
        Outcome::Unexpected(e) => assert_eq!(e, GrammarError::NoAlternativeMatched),
        _ => panic!("`brk` cannot start a return statement"),
    }
}

#[test]
fn completed_production_passes_tokens_on() {
    let mut p = Production::new(RuleId::BreakStatement);
    assert!(matches!(p.process(&Token::Keyword(Keyword::Break)), Outcome::Consumed(_)));
    assert!(matches!(p.process(&Token::Symbol(Symbol::SemiColon)), Outcome::Consumed(_)));
    assert!(p.is_done());
    assert!(matches!(p.process(&Token::Keyword(Keyword::Break)), Outcome::Passed));
}

#[test]
fn rule_struct_exposes_its_pattern() {
    let mut f = FunctionDeclaration::new();
    match f.pattern.execute(&Token::Keyword(Keyword::Function)) {
        Outcome::Consumed(list) => assert_eq!(list.len(), 0),
        _ => panic!("`fn` must be consumed"),
    }
    match f.pattern.execute(&Token::Keyword(Keyword::Function)) {
        Outcome::Unexpected(e) => assert_eq!(e, GrammarError::NoAlternativeMatched),
        _ => panic!("a second `fn` is not an identifier"),
    }
}

#[test]
fn opt_levels_parse_from_their_spellings() {
    assert_eq!(OptLevel::from_arg("0"), Some(OptLevel::O0));
    assert_eq!(OptLevel::from_arg("1"), Some(OptLevel::O1));
    assert_eq!(OptLevel::from_arg("2"), Some(OptLevel::O2));
    assert_eq!(OptLevel::from_arg("3"), Some(OptLevel::O3));
    assert_eq!(OptLevel::from_arg("s"), Some(OptLevel::OS));
    assert_eq!(OptLevel::from_arg("z"), Some(OptLevel::OZ));
    assert_eq!(OptLevel::from_arg("4"), None);
    assert_eq!("s".parse::<OptLevel>(), Ok(OptLevel::OS));
    assert!("x".parse::<OptLevel>().is_err());
}

#[test]
fn opt_defaults_to_the_highest_level() {
    let opt = Opt::new("in.cwal".to_string(), None, None);
    assert_eq!(opt.file(), "in.cwal");
    assert_eq!(opt.opt_level(), OptLevel::O3);

    let opt = Opt::new("in.cwal".to_string(), Some("out.wasm".to_string()), Some(OptLevel::O0));
    assert_eq!(opt.opt_level(), OptLevel::O0);
}
