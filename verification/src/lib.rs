//! Front end of a compiler for a small textual language: a lexical scanner
//! that turns source text into typed tokens, and a stack-driven grammar
//! engine that feeds those tokens one at a time through declarative
//! production rules, accepting the program or reporting where it is
//! malformed.

pub mod cli;
pub mod token;
pub mod token_grammar;
pub mod token_stream;
pub mod tokenizer;

pub mod grammar;
pub mod parser;
