//! Terminal matchers: values that match a single token against a required
//! kind or variant (an exact keyword, an exact symbol, "any identifier",
//! "any binary-operator symbol", and so on).

use vstd::prelude::*;

use crate::grammar;
use crate::grammar::Grammar;
use crate::token;

verus! {

#[derive(Debug, Clone, Copy, PartialEq, Eq, Structural)]
pub enum TokenGrammar {
    Comment(Comment),
    Keyword(Keyword),
    Type(Type),
    Identifier(Identifier),
    Literal(Literal),
    Symbol(Symbol),
}

#[derive(Debug, Clone, Copy, PartialEq, Eq, Structural)]
pub enum Comment {
    Any,
}

#[derive(Debug, Clone, Copy, PartialEq, Eq, Structural)]
pub enum Keyword {
    ByOriginal(token::Keyword),
    Any,
}

#[derive(Debug, Clone, Copy, PartialEq, Eq, Structural)]
pub enum Type {
    ByOriginal(token::Type),
    Any,
}

#[derive(Debug, Clone, Copy, PartialEq, Eq, Structural)]
pub enum Identifier {
    Any,
}

#[derive(Debug, Clone, Copy, PartialEq, Eq, Structural)]
pub enum Literal {
    AnyString,
    AnyNumeric,
    Any,
}

#[derive(Debug, Clone, Copy, PartialEq, Eq, Structural)]
pub enum Symbol {
    ByOriginal(token::Symbol),
    AnyUnary,
    AnyBinary,
    Any,
}

/// Is a symbol one of the unary-operator symbols?
pub open spec fn spec_unary_symbol(y: token::Symbol) -> bool {
    ||| y == token::Symbol::Plus
    ||| y == token::Symbol::Minus
    ||| y == token::Symbol::BitwiseNot
    ||| y == token::Symbol::LogicalNegation
}

/// Is a symbol one of the binary-operator symbols?
pub open spec fn spec_binary_symbol(y: token::Symbol) -> bool {
    ||| y == token::Symbol::Plus
    ||| y == token::Symbol::Minus
    ||| y == token::Symbol::Asterisk
    ||| y == token::Symbol::Solidus
    ||| y == token::Symbol::Modulo
    ||| y == token::Symbol::Equal
    ||| y == token::Symbol::NotEqual
    ||| y == token::Symbol::LessThan
    ||| y == token::Symbol::GreaterThan
    ||| y == token::Symbol::LessThanOrEqual
    ||| y == token::Symbol::GreaterThanOrEqual
    ||| y == token::Symbol::BitwiseAnd
    ||| y == token::Symbol::BitwiseOr
    ||| y == token::Symbol::BitwiseXor
    ||| y == token::Symbol::BitwiseNot
    ||| y == token::Symbol::ShiftLeftLogical
    ||| y == token::Symbol::ShiftRightArithmatic
    ||| y == token::Symbol::ShiftRightLogical
    ||| y == token::Symbol::LogicalAnd
    ||| y == token::Symbol::LogicalOr
    ||| y == token::Symbol::PipeForward
}

/// The matching relation between one terminal matcher and one token.
pub open spec fn spec_is_match(g: TokenGrammar, t: token::Token) -> bool {
    match (g, t) {
        (TokenGrammar::Comment(Comment::Any), token::Token::Comment(_)) => true,
        (TokenGrammar::Keyword(Keyword::Any), token::Token::Keyword(_)) => true,
        (TokenGrammar::Keyword(Keyword::ByOriginal(x)), token::Token::Keyword(y)) => x == y,
        (TokenGrammar::Type(Type::Any), token::Token::Type(_)) => true,
        (TokenGrammar::Type(Type::ByOriginal(x)), token::Token::Type(y)) => x == y,
        (TokenGrammar::Identifier(Identifier::Any), token::Token::Identifier(_)) => true,
        (TokenGrammar::Literal(Literal::Any), token::Token::Literal(_)) => true,
        (
            TokenGrammar::Literal(Literal::AnyNumeric),
            token::Token::Literal(token::Literal::Numeric(_)),
        ) => true,
        (
            TokenGrammar::Literal(Literal::AnyString),
            token::Token::Literal(token::Literal::Str(_)),
        ) => true,
        (TokenGrammar::Symbol(Symbol::Any), token::Token::Symbol(_)) => true,
        (TokenGrammar::Symbol(Symbol::ByOriginal(x)), token::Token::Symbol(y)) => x == y,
        (TokenGrammar::Symbol(Symbol::AnyUnary), token::Token::Symbol(y)) => spec_unary_symbol(y),
        (TokenGrammar::Symbol(Symbol::AnyBinary), token::Token::Symbol(y)) => spec_binary_symbol(y),
        _ => false,
    }
}

impl TokenGrammar {
    /// Does this matcher accept the token?
    pub fn is_match(&self, token: &token::Token) -> (r: bool)
        ensures
            r == spec_is_match(*self, *token),
    {
        match (self, token) {
            // comments
            (TokenGrammar::Comment(Comment::Any), token::Token::Comment(_)) => true,
            // keywords
            (TokenGrammar::Keyword(Keyword::Any), token::Token::Keyword(_)) => true,
            (TokenGrammar::Keyword(Keyword::ByOriginal(x)), token::Token::Keyword(y)) => x == y,
            // types
            (TokenGrammar::Type(Type::Any), token::Token::Type(_)) => true,
            (TokenGrammar::Type(Type::ByOriginal(x)), token::Token::Type(y)) => x == y,
            // identifiers
            (TokenGrammar::Identifier(Identifier::Any), token::Token::Identifier(_)) => true,
            // literals
            (TokenGrammar::Literal(Literal::Any), token::Token::Literal(_)) => true,
            (
                TokenGrammar::Literal(Literal::AnyNumeric),
                token::Token::Literal(token::Literal::Numeric(_)),
            ) => true,
            (
                TokenGrammar::Literal(Literal::AnyString),
                token::Token::Literal(token::Literal::Str(_)),
            ) => true,
            // symbols
            (TokenGrammar::Symbol(Symbol::Any), token::Token::Symbol(_)) => true,
            (TokenGrammar::Symbol(Symbol::ByOriginal(x)), token::Token::Symbol(y)) => x == y,
            (TokenGrammar::Symbol(Symbol::AnyUnary), token::Token::Symbol(y)) => {
                *y == token::Symbol::Plus || *y == token::Symbol::Minus || *y
                    == token::Symbol::BitwiseNot || *y == token::Symbol::LogicalNegation
            },
            (TokenGrammar::Symbol(Symbol::AnyBinary), token::Token::Symbol(y)) => {
                *y == token::Symbol::Plus || *y == token::Symbol::Minus || *y
                    == token::Symbol::Asterisk || *y == token::Symbol::Solidus || *y
                    == token::Symbol::Modulo || *y == token::Symbol::Equal || *y
                    == token::Symbol::NotEqual || *y == token::Symbol::LessThan || *y
                    == token::Symbol::GreaterThan || *y == token::Symbol::LessThanOrEqual || *y
                    == token::Symbol::GreaterThanOrEqual || *y == token::Symbol::BitwiseAnd || *y
                    == token::Symbol::BitwiseOr || *y == token::Symbol::BitwiseXor || *y
                    == token::Symbol::BitwiseNot || *y == token::Symbol::ShiftLeftLogical || *y
                    == token::Symbol::ShiftRightArithmatic || *y == token::Symbol::ShiftRightLogical
                    || *y == token::Symbol::LogicalAnd || *y == token::Symbol::LogicalOr || *y
                    == token::Symbol::PipeForward
            },
            _ => false,
        }
    }

    #[verifier::allow_in_spec]
    pub fn any_comment() -> Self
        returns
            TokenGrammar::Comment(Comment::Any),
    {
        TokenGrammar::Comment(Comment::Any)
    }

    #[verifier::allow_in_spec]
    pub fn from_keyword(o: token::Keyword) -> Self
        returns
            TokenGrammar::Keyword(Keyword::ByOriginal(o)),
    {
        TokenGrammar::Keyword(Keyword::ByOriginal(o))
    }

    #[verifier::allow_in_spec]
    pub fn any_keyword() -> Self
        returns
            TokenGrammar::Keyword(Keyword::Any),
    {
        TokenGrammar::Keyword(Keyword::Any)
    }

    #[verifier::allow_in_spec]
    pub fn from_type(o: token::Type) -> Self
        returns
            TokenGrammar::Type(Type::ByOriginal(o)),
    {
        TokenGrammar::Type(Type::ByOriginal(o))
    }

    #[verifier::allow_in_spec]
    pub fn any_type() -> Self
        returns
            TokenGrammar::Type(Type::Any),
    {
        TokenGrammar::Type(Type::Any)
    }

    #[verifier::allow_in_spec]
    pub fn any_identifier() -> Self
        returns
            TokenGrammar::Identifier(Identifier::Any),
    {
        TokenGrammar::Identifier(Identifier::Any)
    }

    #[verifier::allow_in_spec]
    pub fn any_numeric_literal() -> Self
        returns
            TokenGrammar::Literal(Literal::AnyNumeric),
    {
        TokenGrammar::Literal(Literal::AnyNumeric)
    }

    #[verifier::allow_in_spec]
    pub fn any_string_literal() -> Self
        returns
            TokenGrammar::Literal(Literal::AnyString),
    {
        TokenGrammar::Literal(Literal::AnyString)
    }

    #[verifier::allow_in_spec]
    pub fn any_literal() -> Self
        returns
            TokenGrammar::Literal(Literal::Any),
    {
        TokenGrammar::Literal(Literal::Any)
    }

    #[verifier::allow_in_spec]
    pub fn from_symbol(o: token::Symbol) -> Self
        returns
            TokenGrammar::Symbol(Symbol::ByOriginal(o)),
    {
        TokenGrammar::Symbol(Symbol::ByOriginal(o))
    }

    #[verifier::allow_in_spec]
    pub fn any_unary_symbol() -> Self
        returns
            TokenGrammar::Symbol(Symbol::AnyUnary),
    {
        TokenGrammar::Symbol(Symbol::AnyUnary)
    }

    #[verifier::allow_in_spec]
    pub fn any_binary_symbol() -> Self
        returns
            TokenGrammar::Symbol(Symbol::AnyBinary),
    {
        TokenGrammar::Symbol(Symbol::AnyBinary)
    }

    #[verifier::allow_in_spec]
    pub fn any_symbol() -> Self
        returns
            TokenGrammar::Symbol(Symbol::Any),
    {
        TokenGrammar::Symbol(Symbol::Any)
    }
}

impl Grammar for TokenGrammar {
    open spec fn valid(&self) -> bool {
        true
    }

    fn process(&mut self, token: &token::Token) -> (r: grammar::Outcome) {
        if self.is_match(token) {
            grammar::Outcome::Consumed(Vec::new())
        } else {
            grammar::Outcome::Unexpected(grammar::GrammarError::MismatchedToken)
        }
    }

    fn is_done(&self) -> (r: bool) {
        true
    }

    fn info(&self) -> (r: String) {
        "Token".to_owned()
    }
}

} // verus!
