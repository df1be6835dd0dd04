use c_webassembly::grammar::GrammarError;
use c_webassembly::parser::parse_syntax;
use c_webassembly::parser::Parser;
use c_webassembly::token::Token;
use c_webassembly::tokenizer::tokenize;

fn parse_text(src: &str) -> Result<(), c_webassembly::parser::ParseError> {
    let tokens = tokenize(src).expect("the sample must lex");
    parse_syntax(&tokens)
}

fn drive(tokens: &Vec<Token>) -> (Parser, Result<(), GrammarError>) {
    let mut parser = Parser::new();
    for token in tokens.iter() {
        if let Err(e) = parser.process(token) {
            return (parser, Err(e));
        }
    }
    (parser, Ok(()))
}

#[test]
fn basic_syntax() {
    let src = "\
// a small module\n\
let answer <- 42 ;\n\
fn main ( ) -> i32 {\n\
    let mut x <- 1 ;\n\
    while ( x < 10 ) {\n\
        x <- x + 1 ;\n\
    }\n\
    ret x ;\n\
}\n\
exp fn run ( a : i32 , b : i32 ) {\n\
    run ( a , b ) ;\n\
}\n";
    assert!(parse_text(src).is_ok());
}

#[test]
fn function_declaration_completes() {
    // `fn f ( ) { }` must drive the function-declaration production to the
    // complete state with no error
    let tokens = tokenize("fn f ( ) { }\n").unwrap();
    let (parser, outcome) = drive(&tokens);
    assert!(outcome.is_ok());
    assert!(parser.is_complete());
}

#[test]
fn incomplete_function_is_not_complete() {
    let tokens = tokenize("fn f (\n").unwrap();
    let (parser, outcome) = drive(&tokens);
    assert!(outcome.is_ok());
    assert!(!parser.is_complete());
}

#[test]
fn if_else_accepts() {
    assert!(parse_text("fn f ( ) { if ( 1 ) { } else { } }\n").is_ok());
}

#[test]
fn if_elif_accepts() {
    assert!(parse_text("fn f ( ) { if ( 1 ) { } elif ( 2 ) { } }\n").is_ok());
}

#[test]
fn if_elif_else_chain_accepts() {
    assert!(parse_text("fn f ( ) { if ( 1 ) { } elif ( 2 ) { } elif ( 3 ) { } else { } }\n")
        .is_ok());
}

#[test]
fn lone_else_rejects_at_the_else_keyword() {
    let tokens = tokenize("else { }\n").unwrap();
    let err = parse_syntax(&tokens).unwrap_err();
    assert_eq!(err.index, 0);
    assert_eq!(err.error, GrammarError::NoAlternativeMatched);
}

#[test]
fn numeric_where_keyword_required_rejects() {
    // a numeric literal where a top-level declaration must start
    let tokens = tokenize("123 f ( ) { }\n").unwrap();
    let err = parse_syntax(&tokens).unwrap_err();
    assert_eq!(err.index, 0);
    assert_eq!(err.error, GrammarError::NoAlternativeMatched);
}

#[test]
fn deeply_nested_parentheses_accept() {
    // fifty levels of grouping must not exhaust any recursion budget
    let mut body = String::new();
    for _ in 0..50 {
        body.push_str("( ");
    }
    body.push_str("1 ");
    for _ in 0..50 {
        body.push_str(") ");
    }
    let src = format!("fn f ( ) {{ ret {}; }}\n", body);
    assert!(parse_text(&src).is_ok());
}

#[test]
fn rejects_at_the_first_violating_token() {
    // token 9 (the second closing brace) is the first violation
    let tokens = tokenize("fn f ( ) { ret 1 ; } }\n").unwrap();
    let err = parse_syntax(&tokens).unwrap_err();
    assert_eq!(err.index, 9);
}

#[test]
fn parse_is_deterministic() {
    let src = "fn f ( ) { ret 1 ; } }\n";
    let tokens = tokenize(src).unwrap();
    let first = parse_syntax(&tokens);
    let second = parse_syntax(&tokens);
    assert_eq!(first, second);
}

#[test]
fn comments_do_not_affect_acceptance() {
    let plain = "fn f ( ) { ret 1 ; }\n";
    let commented = "fn /* why not here */ f ( ) { // body\n ret 1 ; }\n";
    assert!(parse_text(plain).is_ok());
    assert!(parse_text(commented).is_ok());

    let bad_plain = "fn f ( ) { ret ; ; }\n";
    let bad_commented = "fn f ( ) { // body\n ret ; ; }\n";
    assert_eq!(parse_text(bad_plain).is_ok(), parse_text(bad_commented).is_ok());
}

#[test]
fn comment_tokens_are_skipped_by_the_driver() {
    let with_comment = tokenize("// intro\nfn f ( ) { }\n").unwrap();
    let (parser, outcome) = drive(&with_comment);
    assert!(outcome.is_ok());
    assert!(parser.is_complete());
}

#[test]
fn optional_many_matching_zero_times_accepts() {
    // an empty block: the statement step of the block fires zero times
    assert!(parse_text("fn f ( ) { }\n").is_ok());
    // and so does an empty program
    assert!(parse_text(" \n").is_ok());
}

#[test]
fn token_after_program_end_is_an_error() {
    let tokens = tokenize("123 456\n").unwrap();
    let mut parser = Parser::new();
    assert_eq!(
        parser.process(&tokens[0]),
        Err(GrammarError::NoAlternativeMatched)
    );
    // the stack is now empty: any further token is after the program end
    assert_eq!(parser.process(&tokens[1]), Err(GrammarError::UnexpectedEnd));
}

#[test]
fn declarations_of_every_top_level_kind_accept() {
    let src = "\
type pair = ( i32 , i32 ) ;\n\
tab dispatch = ( 0 ; fref ; 4 ) ;\n\
mem store = page ;\n\
let flag <- 0 ;\n\
imp fn log ( msg : i32 ) from \"env\" ;\n\
exp \"run\" fn run ( ) { }\n\
exp handle as \"handle\" ;\n\
;\n";
    assert!(parse_text(src).is_ok());
}

#[test]
fn type_expressions_accept() {
    // a function type, a vector shorthand and a multi-identifier binding
    let src = "\
type t = fn ( i32 ) -> i32 ;\n\
type v = ( i32 ; 4 ) ;\n\
fn f ( ) { let ( a , mut b ) <- 1 ; }\n";
    assert!(parse_text(src).is_ok());
}

#[test]
fn comment_shifts_a_rejection_index_by_one() {
    let plain = tokenize("123\n").unwrap();
    let commented = tokenize("// c\n123\n").unwrap();
    let plain_err = parse_syntax(&plain).unwrap_err();
    let commented_err = parse_syntax(&commented).unwrap_err();
    assert_eq!(plain_err.index, 0);
    assert_eq!(commented_err.index, 1);
    assert_eq!(plain_err.error, commented_err.error);
}

#[test]
fn expression_statements_accept() {
    let src = "\
fn f ( x : i32 ) -> i32 {\n\
    f ( 1 , 2 ) ;\n\
    x . y ;\n\
    g :: < i32 > ( x ) ;\n\
    - 1 ;\n\
    1 + 2 * 3 ;\n\
    x ? 1 : 2 ;\n\
    * 4 < i32 > ( p ) ;\n\
    typeof x ;\n\
    brk ;\n\
    cont ;\n\
}\n";
    assert!(parse_text(src).is_ok());
}
