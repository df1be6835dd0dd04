//! Token model: tagged token kinds carrying the matched lexeme, plus the
//! classification of a raw lexeme into exactly one token kind.

use vstd::prelude::*;
use vstd::string::StrSliceExecFns;

verus! {

/// A classified lexeme.
#[derive(Debug, Clone, PartialEq)]
pub enum Token {
    Comment(Comment),
    Keyword(Keyword),
    Type(Type),
    Identifier(Identifier),
    Literal(Literal),
    Symbol(Symbol),
}

#[derive(Debug, Clone, PartialEq)]
pub struct Comment(pub String);

#[derive(Debug, Clone, Copy, PartialEq, Eq, Structural)]
pub enum Keyword {
    Function,
    Let,
    Mutable,
    Memory,
    Table,
    Type,
    Return,
    If,
    Else,
    ElseIf,
    While,
    Break,
    Cont,
    TypeOf,
    Export,
    Import,
    As,
    From,
    Include,
}

#[derive(Debug, Clone, PartialEq)]
pub struct Identifier(pub String);

#[derive(Debug, Clone, Copy, PartialEq, Eq, Structural)]
pub enum Symbol {
    // general
    Dot,                    // .
    Comma,                  // ,
    Colon,                  // :
    SemiColon,              // ;
    // operation
    Plus,                   // +
    Minus,                  // -
    Asterisk,               // *
    Solidus,                // /
    Modulo,                 // %
    Assignment,             // =
    Equal,                  // ==
    NotEqual,               // !=
    LessThan,               // <
    GreaterThan,            // >
    LessThanOrEqual,        // <=
    GreaterThanOrEqual,     // >=
    LeftArrow,              // <-
    RightArrow,             // ->
    BitwiseAnd,             // &
    BitwiseOr,              // |
    BitwiseXor,             // ^
    BitwiseNot,             // ~
    ShiftLeftLogical,       // <<
    ShiftRightArithmatic,   // >>>
    ShiftRightLogical,      // >>
    LogicalNegation,        // !
    LogicalAnd,             // &&
    LogicalOr,              // ||
    Query,                  // ?
    PipeForward,            // |>
    DoubleColon,            // ::
    // brackets
    LeftBrace,              // {
    RightBrace,             // }
    LeftParenthese,         // (
    RightParenthese,        // )
}

#[derive(Debug, Clone, Copy, PartialEq, Eq, Structural)]
pub enum Type {
    // number types
    I32,
    I64,
    F32,
    F64,
    // reference types
    Fref,
    Xref,
    // memory types
    Page,
}

#[derive(Debug, Clone, PartialEq)]
pub enum Literal {
    Numeric(String),
    Str(String),
}

/// An unclassified lexeme together with its character range in the source.
#[derive(Debug, Clone, PartialEq)]
pub struct RawToken {
    value: String,
    start: usize,
    end: usize,
}

/// Ghost image of a raw token.
#[verifier::ext_equal]
pub struct RawTokenModel {
    pub value: Seq<char>,
    pub start: int,
    pub end: int,
}

impl View for RawToken {
    type V = RawTokenModel;

    closed spec fn view(&self) -> RawTokenModel {
        RawTokenModel { value: self.value@, start: self.start as int, end: self.end as int }
    }
}

/// Ghost image of a token: the lexeme text is seen as a character sequence.
pub enum TokenModel {
    Comment(Seq<char>),
    Keyword(Keyword),
    Type(Type),
    Identifier(Seq<char>),
    Numeric(Seq<char>),
    Str(Seq<char>),
    Symbol(Symbol),
}

impl View for Token {
    type V = TokenModel;

    open spec fn view(&self) -> TokenModel {
        match self {
            Token::Comment(c) => TokenModel::Comment(c.0@),
            Token::Keyword(k) => TokenModel::Keyword(*k),
            Token::Type(t) => TokenModel::Type(*t),
            Token::Identifier(i) => TokenModel::Identifier(i.0@),
            Token::Literal(Literal::Numeric(s)) => TokenModel::Numeric(s@),
            Token::Literal(Literal::Str(s)) => TokenModel::Str(s@),
            Token::Symbol(s) => TokenModel::Symbol(*s),
        }
    }
}

// ---------------------------------------------------------------------------
// character predicates
// ---------------------------------------------------------------------------

/// What `char::is_alphabetic` returns; it depends on the character alone.
pub uninterp spec fn spec_alphabetic(c: char) -> bool;

/// What `char::is_alphanumeric` returns; it depends on the character alone.
pub uninterp spec fn spec_alphanumeric(c: char) -> bool;

/// What `char::is_whitespace` returns; it depends on the character alone.
pub uninterp spec fn spec_whitespace(c: char) -> bool;

/// Relies on char::is_alphabetic: the Unicode alphabetic property of the
/// character.
#[verifier::external_body]
pub(crate) fn char_is_alphabetic(c: char) -> (r: bool)
    ensures
        r == spec_alphabetic(c),
{
    c.is_alphabetic()
}

/// Relies on char::is_alphanumeric: the Unicode alphanumeric property of the
/// character.
#[verifier::external_body]
pub(crate) fn char_is_alphanumeric(c: char) -> (r: bool)
    ensures
        r == spec_alphanumeric(c),
{
    c.is_alphanumeric()
}

/// Relies on char::is_whitespace: the Unicode whitespace property of the
/// character.
#[verifier::external_body]
pub(crate) fn char_is_whitespace(c: char) -> (r: bool)
    ensures
        r == spec_whitespace(c),
{
    c.is_whitespace()
}

pub open spec fn is_digit(c: char) -> bool {
    '0' as u32 <= c as u32 && c as u32 <= '9' as u32
}

pub open spec fn is_ascii_alnum(c: char) -> bool {
    ||| is_digit(c)
    ||| 'a' as u32 <= c as u32 && c as u32 <= 'z' as u32
    ||| 'A' as u32 <= c as u32 && c as u32 <= 'Z' as u32
}

pub(crate) fn digit_char(c: char) -> (r: bool)
    ensures
        r == is_digit(c),
{
    let u = c as u32;
    '0' as u32 <= u && u <= '9' as u32
}

pub(crate) fn ascii_alnum_char(c: char) -> (r: bool)
    ensures
        r == is_ascii_alnum(c),
{
    let u = c as u32;
    ('0' as u32 <= u && u <= '9' as u32) || ('a' as u32 <= u && u <= 'z' as u32) || ('A' as u32
        <= u && u <= 'Z' as u32)
}

// ---------------------------------------------------------------------------
// string helpers (verified, character by character)
// ---------------------------------------------------------------------------

/// `p` is a prefix of `s`.
pub open spec fn is_prefix(p: Seq<char>, s: Seq<char>) -> bool {
    p.len() <= s.len() && s.subrange(0, p.len() as int) == p
}

/// Character-by-character prefix test.
pub(crate) fn str_is_prefix(p: &str, s: &str) -> (r: bool)
    ensures
        r == is_prefix(p@, s@),
{
    let pl = p.unicode_len();
    let sl = s.unicode_len();
    if pl > sl {
        assert(!is_prefix(p@, s@));
        return false;
    }
    let mut i: usize = 0;
    while i < pl
        invariant
            i <= pl,
            pl == p@.len(),
            sl == s@.len(),
            pl <= sl,
            forall|j: int| 0 <= j < i ==> p@[j] == s@[j],
        decreases pl - i,
    {
        if p.get_char(i) != s.get_char(i) {
            assert(s@.subrange(0, p@.len() as int)[i as int] != p@[i as int]);
            return false;
        }
        i += 1;
    }
    assert(s@.subrange(0, p@.len() as int) =~= p@);
    true
}

/// `p` is a suffix of `s`.
pub open spec fn is_suffix(p: Seq<char>, s: Seq<char>) -> bool {
    p.len() <= s.len() && s.subrange(s.len() - p.len(), s.len() as int) == p
}

/// Character-by-character suffix test.
pub(crate) fn str_is_suffix(p: &str, s: &str) -> (r: bool)
    ensures
        r == is_suffix(p@, s@),
{
    let pl = p.unicode_len();
    let sl = s.unicode_len();
    if pl > sl {
        assert(!is_suffix(p@, s@));
        return false;
    }
    let off = sl - pl;
    let mut i: usize = 0;
    while i < pl
        invariant
            i <= pl,
            pl == p@.len(),
            sl == s@.len(),
            pl <= sl,
            off == sl - pl,
            forall|j: int| 0 <= j < i ==> p@[j] == s@[off + j],
        decreases pl - i,
    {
        if p.get_char(i) != s.get_char(off + i) {
            assert(s@.subrange(s@.len() - p@.len(), s@.len() as int)[i as int] != p@[i as int]);
            return false;
        }
        i += 1;
    }
    assert(s@.subrange(s@.len() - p@.len(), s@.len() as int) =~= p@);
    true
}

/// Character-by-character equality test.
pub(crate) fn str_eq(a: &str, b: &str) -> (r: bool)
    ensures
        r == (a@ == b@),
{
    let al = a.unicode_len();
    let bl = b.unicode_len();
    if al != bl {
        return false;
    }
    let r = str_is_prefix(a, b);
    proof {
        if r {
            assert(b@.subrange(0, a@.len() as int) =~= b@);
        } else {
            if a@ == b@ {
                assert(b@.subrange(0, a@.len() as int) =~= a@);
            }
        }
    }
    r
}

// ---------------------------------------------------------------------------
// identifiers
// ---------------------------------------------------------------------------

pub open spec fn spec_extended_symbol(c: char) -> bool {
    c == '_' || c == '$'
}

pub open spec fn spec_alphabetic_valid(c: char) -> bool {
    spec_alphabetic(c) || spec_extended_symbol(c)
}

pub open spec fn spec_alphanumeric_valid(c: char) -> bool {
    spec_alphanumeric(c) || spec_extended_symbol(c)
}

/// A lexeme that forms a valid identifier: a valid starting character
/// followed by valid continuation characters only.
pub open spec fn spec_identifier(s: Seq<char>) -> bool {
    &&& s.len() > 0
    &&& spec_alphabetic_valid(s[0])
    &&& forall|i: int| 0 <= i < s.len() ==> spec_alphanumeric_valid(#[trigger] s[i])
}

impl Identifier {
    /// May a character start an identifier?
    pub fn is_alphabetic_valid_char(c: char) -> (r: bool)
        ensures
            r == spec_alphabetic_valid(c),
    {
        char_is_alphabetic(c) || Identifier::is_extended_symbol(c)
    }

    /// May a character continue an identifier?
    pub fn is_alphanumeric_valid_char(c: char) -> (r: bool)
        ensures
            r == spec_alphanumeric_valid(c),
    {
        char_is_alphanumeric(c) || Identifier::is_extended_symbol(c)
    }

    fn is_extended_symbol(c: char) -> (r: bool)
        ensures
            r == spec_extended_symbol(c),
    {
        c == '_' || c == '$'
    }

    /// Classifies a lexeme as an identifier.
    pub(crate) fn from_lexeme(s: &str) -> (r: Option<Identifier>)
        ensures
            match r {
                Some(id) => spec_identifier(s@) && id.0@ == s@,
                None => !spec_identifier(s@),
            },
    {
        let n = s.unicode_len();
        if n == 0 {
            return None;
        }
        if !Identifier::is_alphabetic_valid_char(s.get_char(0)) {
            return None;
        }
        let mut i: usize = 0;
        while i < n
            invariant
                i <= n,
                n == s@.len(),
                forall|j: int| 0 <= j < i ==> spec_alphanumeric_valid(#[trigger] s@[j]),
            decreases n - i,
        {
            if !Identifier::is_alphanumeric_valid_char(s.get_char(i)) {
                return None;
            }
            i += 1;
        }
        Some(Identifier(s.to_owned()))
    }
}

// ---------------------------------------------------------------------------
// keyword, type and symbol tables
// ---------------------------------------------------------------------------

/// The fixed keyword table, as a lookup from lexeme to keyword id.
pub open spec fn spec_keyword_of(s: Seq<char>) -> Option<Keyword> {
    if s == "fn"@ {
        Some(Keyword::Function)
    } else if s == "mut"@ {
        Some(Keyword::Mutable)
    } else if s == "let"@ {
        Some(Keyword::Let)
    } else if s == "mem"@ {
        Some(Keyword::Memory)
    } else if s == "tab"@ {
        Some(Keyword::Table)
    } else if s == "type"@ {
        Some(Keyword::Type)
    } else if s == "ret"@ {
        Some(Keyword::Return)
    } else if s == "if"@ {
        Some(Keyword::If)
    } else if s == "else"@ {
        Some(Keyword::Else)
    } else if s == "elif"@ {
        Some(Keyword::ElseIf)
    } else if s == "while"@ {
        Some(Keyword::While)
    } else if s == "brk"@ {
        Some(Keyword::Break)
    } else if s == "cont"@ {
        Some(Keyword::Cont)
    } else if s == "typeof"@ {
        Some(Keyword::TypeOf)
    } else if s == "exp"@ {
        Some(Keyword::Export)
    } else if s == "imp"@ {
        Some(Keyword::Import)
    } else if s == "as"@ {
        Some(Keyword::As)
    } else if s == "from"@ {
        Some(Keyword::From)
    } else if s == "incl"@ {
        Some(Keyword::Include)
    } else {
        None
    }
}

impl Keyword {
    /// Classifies a lexeme against the fixed keyword table.
    pub(crate) fn from_lexeme(s: &str) -> (r: Option<Keyword>)
        ensures
            r == spec_keyword_of(s@),
    {
        if str_eq(s, "fn") {
            Some(Keyword::Function)
        } else if str_eq(s, "mut") {
            Some(Keyword::Mutable)
        } else if str_eq(s, "let") {
            Some(Keyword::Let)
        } else if str_eq(s, "mem") {
            Some(Keyword::Memory)
        } else if str_eq(s, "tab") {
            Some(Keyword::Table)
        } else if str_eq(s, "type") {
            Some(Keyword::Type)
        } else if str_eq(s, "ret") {
            Some(Keyword::Return)
        } else if str_eq(s, "if") {
            Some(Keyword::If)
        } else if str_eq(s, "else") {
            Some(Keyword::Else)
        } else if str_eq(s, "elif") {
            Some(Keyword::ElseIf)
        } else if str_eq(s, "while") {
            Some(Keyword::While)
        } else if str_eq(s, "brk") {
            Some(Keyword::Break)
        } else if str_eq(s, "cont") {
            Some(Keyword::Cont)
        } else if str_eq(s, "typeof") {
            Some(Keyword::TypeOf)
        } else if str_eq(s, "exp") {
            Some(Keyword::Export)
        } else if str_eq(s, "imp") {
            Some(Keyword::Import)
        } else if str_eq(s, "as") {
            Some(Keyword::As)
        } else if str_eq(s, "from") {
            Some(Keyword::From)
        } else if str_eq(s, "incl") {
            Some(Keyword::Include)
        } else {
            None
        }
    }
}

/// The fixed primitive-type table, as a lookup from lexeme to type id.
pub open spec fn spec_type_of(s: Seq<char>) -> Option<Type> {
    if s == "i32"@ {
        Some(Type::I32)
    } else if s == "i64"@ {
        Some(Type::I64)
    } else if s == "f32"@ {
        Some(Type::F32)
    } else if s == "f64"@ {
        Some(Type::F64)
    } else if s == "fref"@ {
        Some(Type::Fref)
    } else if s == "xref"@ {
        Some(Type::Xref)
    } else if s == "page"@ {
        Some(Type::Page)
    } else {
        None
    }
}

impl Type {
    /// Classifies a lexeme against the fixed primitive-type table.
    pub(crate) fn from_lexeme(s: &str) -> (r: Option<Type>)
        ensures
            r == spec_type_of(s@),
    {
        if str_eq(s, "i32") {
            Some(Type::I32)
        } else if str_eq(s, "i64") {
            Some(Type::I64)
        } else if str_eq(s, "f32") {
            Some(Type::F32)
        } else if str_eq(s, "f64") {
            Some(Type::F64)
        } else if str_eq(s, "fref") {
            Some(Type::Fref)
        } else if str_eq(s, "xref") {
            Some(Type::Xref)
        } else if str_eq(s, "page") {
            Some(Type::Page)
        } else {
            None
        }
    }
}

/// The fixed symbol table, as a lookup from lexeme to symbol id.
pub open spec fn spec_symbol_of(s: Seq<char>) -> Option<Symbol> {
    if s == "."@ {
        Some(Symbol::Dot)
    } else if s == ","@ {
        Some(Symbol::Comma)
    } else if s == ":"@ {
        Some(Symbol::Colon)
    } else if s == ";"@ {
        Some(Symbol::SemiColon)
    } else if s == "+"@ {
        Some(Symbol::Plus)
    } else if s == "-"@ {
        Some(Symbol::Minus)
    } else if s == "*"@ {
        Some(Symbol::Asterisk)
    } else if s == "/"@ {
        Some(Symbol::Solidus)
    } else if s == "%"@ {
        Some(Symbol::Modulo)
    } else if s == "="@ {
        Some(Symbol::Assignment)
    } else if s == "=="@ {
        Some(Symbol::Equal)
    } else if s == "!="@ {
        Some(Symbol::NotEqual)
    } else if s == "<"@ {
        Some(Symbol::LessThan)
    } else if s == ">"@ {
        Some(Symbol::GreaterThan)
    } else if s == "<="@ {
        Some(Symbol::LessThanOrEqual)
    } else if s == ">="@ {
        Some(Symbol::GreaterThanOrEqual)
    } else if s == "<-"@ {
        Some(Symbol::LeftArrow)
    } else if s == "->"@ {
        Some(Symbol::RightArrow)
    } else if s == "&"@ {
        Some(Symbol::BitwiseAnd)
    } else if s == "|"@ {
        Some(Symbol::BitwiseOr)
    } else if s == "^"@ {
        Some(Symbol::BitwiseXor)
    } else if s == "~"@ {
        Some(Symbol::BitwiseNot)
    } else if s == "<<"@ {
        Some(Symbol::ShiftLeftLogical)
    } else if s == ">>"@ {
        Some(Symbol::ShiftRightLogical)
    } else if s == ">>>"@ {
        Some(Symbol::ShiftRightArithmatic)
    } else if s == "!"@ {
        Some(Symbol::LogicalNegation)
    } else if s == "&&"@ {
        Some(Symbol::LogicalAnd)
    } else if s == "||"@ {
        Some(Symbol::LogicalOr)
    } else if s == "|>"@ {
        Some(Symbol::PipeForward)
    } else if s == "?"@ {
        Some(Symbol::Query)
    } else if s == "::"@ {
        Some(Symbol::DoubleColon)
    } else if s == "{"@ {
        Some(Symbol::LeftBrace)
    } else if s == "}"@ {
        Some(Symbol::RightBrace)
    } else if s == "("@ {
        Some(Symbol::LeftParenthese)
    } else if s == ")"@ {
        Some(Symbol::RightParenthese)
    } else {
        None
    }
}

/// Does some symbol-table lexeme begin with `s`?
pub open spec fn spec_symbol_prefix(s: Seq<char>) -> bool {
    ||| is_prefix(s, "."@)
    ||| is_prefix(s, ","@)
    ||| is_prefix(s, ":"@)
    ||| is_prefix(s, ";"@)
    ||| is_prefix(s, "+"@)
    ||| is_prefix(s, "-"@)
    ||| is_prefix(s, "*"@)
    ||| is_prefix(s, "/"@)
    ||| is_prefix(s, "%"@)
    ||| is_prefix(s, "=="@)
    ||| is_prefix(s, "!="@)
    ||| is_prefix(s, "<="@)
    ||| is_prefix(s, ">="@)
    ||| is_prefix(s, "<-"@)
    ||| is_prefix(s, "->"@)
    ||| is_prefix(s, "&&"@)
    ||| is_prefix(s, "||"@)
    ||| is_prefix(s, "^"@)
    ||| is_prefix(s, "~"@)
    ||| is_prefix(s, "<<"@)
    ||| is_prefix(s, ">>>"@)
    ||| is_prefix(s, "|>"@)
    ||| is_prefix(s, "?"@)
    ||| is_prefix(s, "::"@)
    ||| is_prefix(s, "{"@)
    ||| is_prefix(s, "}"@)
    ||| is_prefix(s, "("@)
    ||| is_prefix(s, ")"@)
}

/// Does some symbol-table lexeme begin with the character `c`?
pub open spec fn spec_symbol_start(c: char) -> bool {
    ||| c == '.'
    ||| c == ','
    ||| c == ':'
    ||| c == ';'
    ||| c == '+'
    ||| c == '-'
    ||| c == '*'
    ||| c == '/'
    ||| c == '%'
    ||| c == '='
    ||| c == '!'
    ||| c == '<'
    ||| c == '>'
    ||| c == '&'
    ||| c == '|'
    ||| c == '^'
    ||| c == '~'
    ||| c == '?'
    ||| c == '{'
    ||| c == '}'
    ||| c == '('
    ||| c == ')'
}

impl Symbol {
    /// Is `s` a prefix of some symbol-table lexeme?
    pub fn match_str(s: &str) -> (r: bool)
        ensures
            r == spec_symbol_prefix(s@),
    {
        str_is_prefix(s, ".") || str_is_prefix(s, ",") || str_is_prefix(s, ":") || str_is_prefix(
            s,
            ";",
        ) || str_is_prefix(s, "+") || str_is_prefix(s, "-") || str_is_prefix(s, "*")
            || str_is_prefix(s, "/") || str_is_prefix(s, "%") || str_is_prefix(s, "==")
            || str_is_prefix(s, "!=") || str_is_prefix(s, "<=") || str_is_prefix(s, ">=")
            || str_is_prefix(s, "<-") || str_is_prefix(s, "->") || str_is_prefix(s, "&&")
            || str_is_prefix(s, "||") || str_is_prefix(s, "^") || str_is_prefix(s, "~")
            || str_is_prefix(s, "<<") || str_is_prefix(s, ">>>") || str_is_prefix(s, "|>")
            || str_is_prefix(s, "?") || str_is_prefix(s, "::") || str_is_prefix(s, "{")
            || str_is_prefix(s, "}") || str_is_prefix(s, "(") || str_is_prefix(s, ")")
    }

    /// Does `c` begin some symbol-table lexeme?
    pub fn match_char(c: char) -> (r: bool)
        ensures
            r == spec_symbol_start(c),
    {
        c == '.' || c == ',' || c == ':' || c == ';' || c == '+' || c == '-' || c == '*' || c == '/'
            || c == '%' || c == '=' || c == '!' || c == '<' || c == '>' || c == '&' || c == '|'
            || c == '^' || c == '~' || c == '?' || c == '{' || c == '}' || c == '(' || c == ')'
    }

    /// Classifies a lexeme against the fixed symbol table.
    pub(crate) fn from_lexeme(s: &str) -> (r: Option<Symbol>)
        ensures
            r == spec_symbol_of(s@),
    {
        if str_eq(s, ".") {
            Some(Symbol::Dot)
        } else if str_eq(s, ",") {
            Some(Symbol::Comma)
        } else if str_eq(s, ":") {
            Some(Symbol::Colon)
        } else if str_eq(s, ";") {
            Some(Symbol::SemiColon)
        } else if str_eq(s, "+") {
            Some(Symbol::Plus)
        } else if str_eq(s, "-") {
            Some(Symbol::Minus)
        } else if str_eq(s, "*") {
            Some(Symbol::Asterisk)
        } else if str_eq(s, "/") {
            Some(Symbol::Solidus)
        } else if str_eq(s, "%") {
            Some(Symbol::Modulo)
        } else if str_eq(s, "=") {
            Some(Symbol::Assignment)
        } else if str_eq(s, "==") {
            Some(Symbol::Equal)
        } else if str_eq(s, "!=") {
            Some(Symbol::NotEqual)
        } else if str_eq(s, "<") {
            Some(Symbol::LessThan)
        } else if str_eq(s, ">") {
            Some(Symbol::GreaterThan)
        } else if str_eq(s, "<=") {
            Some(Symbol::LessThanOrEqual)
        } else if str_eq(s, ">=") {
            Some(Symbol::GreaterThanOrEqual)
        } else if str_eq(s, "<-") {
            Some(Symbol::LeftArrow)
        } else if str_eq(s, "->") {
            Some(Symbol::RightArrow)
        } else if str_eq(s, "&") {
            Some(Symbol::BitwiseAnd)
        } else if str_eq(s, "|") {
            Some(Symbol::BitwiseOr)
        } else if str_eq(s, "^") {
            Some(Symbol::BitwiseXor)
        } else if str_eq(s, "~") {
            Some(Symbol::BitwiseNot)
        } else if str_eq(s, "<<") {
            Some(Symbol::ShiftLeftLogical)
        } else if str_eq(s, ">>") {
            Some(Symbol::ShiftRightLogical)
        } else if str_eq(s, ">>>") {
            Some(Symbol::ShiftRightArithmatic)
        } else if str_eq(s, "!") {
            Some(Symbol::LogicalNegation)
        } else if str_eq(s, "&&") {
            Some(Symbol::LogicalAnd)
        } else if str_eq(s, "||") {
            Some(Symbol::LogicalOr)
        } else if str_eq(s, "|>") {
            Some(Symbol::PipeForward)
        } else if str_eq(s, "?") {
            Some(Symbol::Query)
        } else if str_eq(s, "::") {
            Some(Symbol::DoubleColon)
        } else if str_eq(s, "{") {
            Some(Symbol::LeftBrace)
        } else if str_eq(s, "}") {
            Some(Symbol::RightBrace)
        } else if str_eq(s, "(") {
            Some(Symbol::LeftParenthese)
        } else if str_eq(s, ")") {
            Some(Symbol::RightParenthese)
        } else {
            None
        }
    }
}

// ---------------------------------------------------------------------------
// comments and literals
// ---------------------------------------------------------------------------

/// A lexeme that forms a comment: a single-line comment opener, or a
/// delimited multi-line comment.
pub open spec fn spec_comment(s: Seq<char>) -> bool {
    is_prefix("//"@, s) || (is_prefix("/*"@, s) && is_suffix("*/"@, s))
}

impl Comment {
    /// Classifies a lexeme as a comment.
    pub(crate) fn from_lexeme(s: &str) -> (r: Option<Comment>)
        ensures
            match r {
                Some(c) => spec_comment(s@) && c.0@ == s@,
                None => !spec_comment(s@),
            },
    {
        if str_is_prefix("//", s) || (str_is_prefix("/*", s) && str_is_suffix("*/", s)) {
            Some(Comment(s.to_owned()))
        } else {
            None
        }
    }
}

pub open spec fn all_digits(s: Seq<char>, from: int, to: int) -> bool {
    forall|i: int| from <= i < to ==> is_digit(#[trigger] s[i])
}

/// A decimal integer literal.
pub open spec fn spec_integer_lit(s: Seq<char>) -> bool {
    s.len() > 0 && all_digits(s, 0, s.len() as int)
}

/// A decimal fraction literal: digits, one dot, digits.
pub open spec fn spec_float_lit(s: Seq<char>) -> bool {
    exists|i: int|
        1 <= i < s.len() - 1 && #[trigger] s[i] == '.' && all_digits(s, 0, i) && all_digits(
            s,
            i + 1,
            s.len() as int,
        )
}

pub open spec fn is_binary_digit(c: char) -> bool {
    c == '0' || c == '1'
}

pub open spec fn spec_binary_lit(s: Seq<char>) -> bool {
    s.len() >= 3 && s[0] == '0' && s[1] == 'b' && forall|i: int|
        2 <= i < s.len() ==> is_binary_digit(#[trigger] s[i])
}

pub open spec fn is_octal_digit(c: char) -> bool {
    '0' as u32 <= c as u32 && c as u32 <= '7' as u32
}

pub open spec fn spec_octal_lit(s: Seq<char>) -> bool {
    ||| (s.len() >= 2 && s[0] == '0' && forall|i: int|
        1 <= i < s.len() ==> is_octal_digit(#[trigger] s[i]))
    ||| (s.len() >= 3 && s[0] == '0' && s[1] == 'o' && forall|i: int|
        2 <= i < s.len() ==> is_octal_digit(#[trigger] s[i]))
}

pub open spec fn is_hex_digit(c: char) -> bool {
    ||| is_digit(c)
    ||| 'a' as u32 <= c as u32 && c as u32 <= 'f' as u32
    ||| 'A' as u32 <= c as u32 && c as u32 <= 'F' as u32
}

pub open spec fn spec_hex_lit(s: Seq<char>) -> bool {
    s.len() >= 3 && s[0] == '0' && s[1] == 'x' && forall|i: int|
        2 <= i < s.len() ==> is_hex_digit(#[trigger] s[i])
}

/// A quoted string literal, quotes included.
pub open spec fn spec_string_lit(s: Seq<char>) -> bool {
    s.len() >= 1 && s[0] == '"' && s[s.len() - 1] == '"'
}

/// A numeric literal: a plain integer or fraction, a binary, octal or
/// hexadecimal form, or one of the special values `NaN` and `Inf`.
pub open spec fn spec_numeric_lit(s: Seq<char>) -> bool {
    ||| s == "NaN"@
    ||| s == "Inf"@
    ||| spec_integer_lit(s)
    ||| spec_float_lit(s)
    ||| spec_binary_lit(s)
    ||| spec_octal_lit(s)
    ||| spec_hex_lit(s)
}

fn all_digits_in(s: &str, from: usize, to: usize) -> (r: bool)
    requires
        from <= to <= s@.len(),
    ensures
        r == all_digits(s@, from as int, to as int),
{
    let mut i = from;
    while i < to
        invariant
            from <= i <= to <= s@.len(),
            forall|j: int| from <= j < i ==> is_digit(#[trigger] s@[j]),
        decreases to - i,
    {
        if !digit_char(s.get_char(i)) {
            return false;
        }
        i += 1;
    }
    true
}

fn all_binary_in(s: &str, from: usize, to: usize) -> (r: bool)
    requires
        from <= to <= s@.len(),
    ensures
        r == forall|j: int| from <= j < to ==> is_binary_digit(#[trigger] s@[j]),
{
    let mut i = from;
    while i < to
        invariant
            from <= i <= to <= s@.len(),
            forall|j: int| from <= j < i ==> is_binary_digit(#[trigger] s@[j]),
        decreases to - i,
    {
        let c = s.get_char(i);
        if !(c == '0' || c == '1') {
            return false;
        }
        i += 1;
    }
    true
}

fn all_octal_in(s: &str, from: usize, to: usize) -> (r: bool)
    requires
        from <= to <= s@.len(),
    ensures
        r == forall|j: int| from <= j < to ==> is_octal_digit(#[trigger] s@[j]),
{
    let mut i = from;
    while i < to
        invariant
            from <= i <= to <= s@.len(),
            forall|j: int| from <= j < i ==> is_octal_digit(#[trigger] s@[j]),
        decreases to - i,
    {
        let u = s.get_char(i) as u32;
        if !('0' as u32 <= u && u <= '7' as u32) {
            return false;
        }
        i += 1;
    }
    true
}

fn all_hex_in(s: &str, from: usize, to: usize) -> (r: bool)
    requires
        from <= to <= s@.len(),
    ensures
        r == forall|j: int| from <= j < to ==> is_hex_digit(#[trigger] s@[j]),
{
    let mut i = from;
    while i < to
        invariant
            from <= i <= to <= s@.len(),
            forall|j: int| from <= j < i ==> is_hex_digit(#[trigger] s@[j]),
        decreases to - i,
    {
        let u = s.get_char(i) as u32;
        if !(('0' as u32 <= u && u <= '9' as u32) || ('a' as u32 <= u && u <= 'f' as u32) || ('A'
            as u32 <= u && u <= 'F' as u32)) {
            return false;
        }
        i += 1;
    }
    true
}

fn float_lit(s: &str) -> (r: bool)
    ensures
        r == spec_float_lit(s@),
{
    let n = s.unicode_len();
    let mut i: usize = 0;
    while i < n && digit_char(s.get_char(i))
        invariant
            i <= n,
            n == s@.len(),
            all_digits(s@, 0, i as int),
        decreases n - i,
    {
        i += 1;
    }
    // `i` is the first position that does not hold a digit
    if 1 <= i && i < n && i + 1 < n && s.get_char(i) == '.' && all_digits_in(s, i + 1, n) {
        proof {
            assert(1 <= i < s@.len() - 1 && s@[i as int] == '.' && all_digits(s@, 0, i as int)
                && all_digits(s@, i as int + 1, s@.len() as int));
        }
        true
    } else {
        proof {
            if spec_float_lit(s@) {
                let w = choose|w: int|
                    1 <= w < s@.len() - 1 && #[trigger] s@[w] == '.' && all_digits(s@, 0, w)
                        && all_digits(s@, w + 1, s@.len() as int);
                if i < n {
                    assert(!is_digit(s@[i as int]));
                }
                if w < i {
                    assert(is_digit(s@[w]));
                } else if w > i {
                    assert(is_digit(s@[i as int]));
                }
                assert(false);
            }
        }
        false
    }
}

impl Literal {
    /// Classifies a lexeme as a string or numeric literal.
    pub(crate) fn from_lexeme(s: &str) -> (r: Option<Literal>)
        ensures
            match r {
                Some(Literal::Str(v)) => spec_string_lit(s@) && v@ == s@,
                Some(Literal::Numeric(v)) => !spec_string_lit(s@) && spec_numeric_lit(s@) && v@
                    == s@,
                None => !spec_string_lit(s@) && !spec_numeric_lit(s@),
            },
    {
        let n = s.unicode_len();
        if n >= 1 && s.get_char(0) == '"' && s.get_char(n - 1) == '"' {
            return Some(Literal::Str(s.to_owned()));
        }
        if str_eq(s, "NaN") || str_eq(s, "Inf") {
            return Some(Literal::Numeric(s.to_owned()));
        }
        if n > 0 && all_digits_in(s, 0, n) {
            return Some(Literal::Numeric(s.to_owned()));
        }
        if float_lit(s) {
            return Some(Literal::Numeric(s.to_owned()));
        }
        if n >= 3 && s.get_char(0) == '0' && s.get_char(1) == 'b' && all_binary_in(s, 2, n) {
            return Some(Literal::Numeric(s.to_owned()));
        }
        if n >= 2 && s.get_char(0) == '0' && all_octal_in(s, 1, n) {
            return Some(Literal::Numeric(s.to_owned()));
        }
        if n >= 3 && s.get_char(0) == '0' && s.get_char(1) == 'o' && all_octal_in(s, 2, n) {
            return Some(Literal::Numeric(s.to_owned()));
        }
        if n >= 3 && s.get_char(0) == '0' && s.get_char(1) == 'x' && all_hex_in(s, 2, n) {
            return Some(Literal::Numeric(s.to_owned()));
        }
        None
    }
}

// ---------------------------------------------------------------------------
// classification of a raw lexeme into one token
// ---------------------------------------------------------------------------

/// Classification precedence: keyword, then primitive type, then symbol,
/// then identifier, then comment, then literal.
pub open spec fn spec_classify(s: Seq<char>) -> Option<TokenModel> {
    match spec_keyword_of(s) {
        Some(k) => Some(TokenModel::Keyword(k)),
        None => match spec_type_of(s) {
            Some(t) => Some(TokenModel::Type(t)),
            None => match spec_symbol_of(s) {
                Some(y) => Some(TokenModel::Symbol(y)),
                None => if spec_identifier(s) {
                    Some(TokenModel::Identifier(s))
                } else if spec_comment(s) {
                    Some(TokenModel::Comment(s))
                } else if spec_string_lit(s) {
                    Some(TokenModel::Str(s))
                } else if spec_numeric_lit(s) {
                    Some(TokenModel::Numeric(s))
                } else {
                    None
                },
            },
        },
    }
}

impl Token {
    /// Classifies one raw lexeme into its token, or reports that it fits no
    /// token kind.
    pub fn classify(s: &str) -> (r: Option<Token>)
        ensures
            match r {
                Some(t) => spec_classify(s@) == Some(t@),
                None => spec_classify(s@) is None,
            },
    {
        if let Some(k) = Keyword::from_lexeme(s) {
            return Some(Token::Keyword(k));
        }
        if let Some(t) = Type::from_lexeme(s) {
            return Some(Token::Type(t));
        }
        if let Some(y) = Symbol::from_lexeme(s) {
            return Some(Token::Symbol(y));
        }
        if let Some(id) = Identifier::from_lexeme(s) {
            return Some(Token::Identifier(id));
        }
        if let Some(c) = Comment::from_lexeme(s) {
            return Some(Token::Comment(c));
        }
        if let Some(l) = Literal::from_lexeme(s) {
            return Some(Token::Literal(l));
        }
        None
    }
}

// ---------------------------------------------------------------------------
// raw tokens
// ---------------------------------------------------------------------------

impl RawToken {
    pub open spec fn spec_value(&self) -> Seq<char> {
        self@.value
    }

    pub open spec fn spec_start(&self) -> int {
        self@.start
    }

    pub open spec fn spec_end(&self) -> int {
        self@.end
    }

    pub fn new(value: String, start: usize, end: usize) -> (r: Self)
        ensures
            r.spec_value() == value@,
            r.spec_start() == start,
            r.spec_end() == end,
    {
        Self { value, start, end }
    }

    pub fn value(&self) -> (r: &str)
        ensures
            r@ == self.spec_value(),
    {
        self.value.as_str()
    }

    /// The character range of the lexeme in the source text.
    pub fn range(&self) -> (r: (usize, usize))
        ensures
            r.0 == self.spec_start(),
            r.1 == self.spec_end(),
    {
        (self.start, self.end)
    }
}

} // verus!
