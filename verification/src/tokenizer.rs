//! The lexical scanner: a single pass over the source characters, driven by
//! a mode per lexeme kind, that cuts the text into raw lexemes and then
//! classifies each one into a token.

use vstd::prelude::*;
use vstd::string::StrSliceExecFns;

use crate::token;
use crate::token::RawTokenModel;
use crate::token::TokenModel;
use crate::token_stream::RawTokenStream;
use crate::token_stream::StreamModel;

verus! {

/// The scanning mode: which kind of lexeme is currently being collected.
#[derive(Debug, Clone, Copy, PartialEq, Eq, Structural)]
pub enum TokenSequence {
    Neutral,
    Word,
    Symbol,
    SingleLineComment,
    MultiLineComment,
    StringLiteral,
    NumericLiteral,
}

/// A failure of the scanner or of token classification.
#[derive(Debug, Clone, Copy, PartialEq, Eq, Structural)]
pub enum LexError {
    /// No lexeme can start with this character; reported with its line and
    /// column.
    UnknownChar { line: usize, col: usize },
    /// The input ended inside a string literal.
    UnclosedString,
    /// The input ended in the middle of some other lexeme.
    UnfinishedToken,
    /// A raw lexeme (at the given character range) fits no token kind.
    UnknownToken { start: usize, end: usize },
}

/// Ghost image of the whole scanner state.
#[verifier::ext_equal]
pub struct LexState {
    pub mode: TokenSequence,
    pub start: int,
    pub end: int,
    pub tokens: Seq<RawTokenModel>,
    pub ln: int,
    pub col: int,
}

pub open spec fn init_lex() -> LexState {
    LexState {
        mode: TokenSequence::Neutral,
        start: usize::MAX as int,
        end: 0,
        tokens: Seq::<RawTokenModel>::empty(),
        ln: 0,
        col: 0,
    }
}

/// Cutting the lexeme in progress: a non-empty range becomes one raw token,
/// and the range resets to the sentinel.
pub open spec fn cut_state(ctx: Seq<char>, st: LexState) -> LexState {
    LexState {
        mode: TokenSequence::Neutral,
        start: usize::MAX as int,
        end: 0,
        tokens: if st.start < st.end {
            st.tokens.push(
                RawTokenModel {
                    value: ctx.subrange(st.start, st.end),
                    start: st.start,
                    end: st.end,
                },
            )
        } else {
            st.tokens
        },
        ..st
    }
}

/// Dispatching a character that starts no lexeme yet: skip whitespace,
/// open the right mode, or fail on an unclassifiable start character.
pub open spec fn neutral_dispatch(ctx: Seq<char>, st: LexState, i: int) -> Result<
    LexState,
    LexError,
> {
    let c = ctx[i];
    if token::spec_whitespace(c) || c == '\n' || c == '\t' || c == '\r' || c == '\0' {
        if c == '\n' {
            Ok(LexState { ln: st.ln + 1, col: 0, ..st })
        } else {
            Ok(st)
        }
    } else if c == '"' {
        Ok(LexState { mode: TokenSequence::StringLiteral, start: i, end: i + 1, ..st })
    } else if token::spec_symbol_start(c) {
        Ok(LexState { mode: TokenSequence::Symbol, start: i, end: i + 1, ..st })
    } else if token::is_digit(c) {
        Ok(LexState { mode: TokenSequence::NumericLiteral, start: i, end: i + 1, ..st })
    } else if token::spec_alphabetic_valid(c) {
        Ok(LexState { mode: TokenSequence::Word, start: i, end: i + 1, ..st })
    } else {
        Err(LexError::UnknownChar { line: st.ln as usize, col: st.col as usize })
    }
}

/// One scanner transition on the character at position `i`.
pub open spec fn lex_step(ctx: Seq<char>, st0: LexState, i: int) -> Result<LexState, LexError> {
    let st = LexState { col: st0.col + 1, ..st0 };
    let c = ctx[i];
    match st.mode {
        TokenSequence::Word => {
            if token::spec_alphanumeric_valid(c) {
                Ok(LexState { end: st.end + 1, ..st })
            } else {
                neutral_dispatch(ctx, cut_state(ctx, st), i)
            }
        },
        TokenSequence::Symbol => {
            let prejoined = ctx.subrange(st.start, st.end + 1);
            if prejoined == "//"@ {
                Ok(LexState { mode: TokenSequence::SingleLineComment, end: st.end + 1, ..st })
            } else if prejoined == "/*"@ {
                Ok(LexState { mode: TokenSequence::MultiLineComment, end: st.end + 1, ..st })
            } else if token::spec_symbol_prefix(prejoined) {
                Ok(LexState { end: st.end + 1, ..st })
            } else {
                neutral_dispatch(ctx, cut_state(ctx, st), i)
            }
        },
        TokenSequence::SingleLineComment => {
            if c == '\n' {
                Ok(cut_state(ctx, st))
            } else {
                Ok(LexState { end: st.end + 1, ..st })
            }
        },
        TokenSequence::MultiLineComment => {
            if c == '/' && ctx[st.end - 1] == '*' {
                Ok(cut_state(ctx, LexState { end: st.end + 1, ..st }))
            } else {
                Ok(LexState { end: st.end + 1, ..st })
            }
        },
        TokenSequence::StringLiteral => {
            if c == '"' && !(ctx[st.end - 1] == '\\') {
                Ok(cut_state(ctx, LexState { end: st.end + 1, ..st }))
            } else {
                Ok(LexState { end: st.end + 1, ..st })
            }
        },
        TokenSequence::NumericLiteral => {
            if token::is_ascii_alnum(c) || c == '.' {
                Ok(LexState { end: st.end + 1, ..st })
            } else {
                neutral_dispatch(ctx, cut_state(ctx, st), i)
            }
        },
        TokenSequence::Neutral => neutral_dispatch(ctx, st, i),
    }
}

/// Folding the scanner over the source from position `i` on.
pub open spec fn lex_scan(ctx: Seq<char>, st: LexState, i: int) -> Result<LexState, LexError>
    decreases ctx.len() - i,
{
    if i < 0 || i >= ctx.len() {
        Ok(st)
    } else {
        match lex_step(ctx, st, i) {
            Ok(st2) => lex_scan(ctx, st2, i + 1),
            Err(e) => Err(e),
        }
    }
}

/// Classifying every raw lexeme, in order; the first unclassifiable lexeme
/// fails the whole run.
pub open spec fn classify_all(raws: Seq<RawTokenModel>) -> Result<Seq<TokenModel>, LexError>
    decreases raws.len(),
{
    if raws.len() == 0 {
        Ok(Seq::<TokenModel>::empty())
    } else {
        match token::spec_classify(raws[0].value) {
            Some(t) => match classify_all(raws.drop_first()) {
                Ok(s) => Ok(seq![t] + s),
                Err(e) => Err(e),
            },
            None => Err(
                LexError::UnknownToken { start: raws[0].start as usize, end: raws[0].end as usize },
            ),
        }
    }
}

/// The whole scan: run the mode machine over every character, reject input
/// that ends in the middle of a lexeme, then classify the lexemes.
pub open spec fn spec_tokenize(ctx: Seq<char>) -> Result<Seq<TokenModel>, LexError> {
    match lex_scan(ctx, init_lex(), 0) {
        Err(e) => Err(e),
        Ok(st) => {
            if st.start < st.end {
                if st.mode == TokenSequence::StringLiteral {
                    Err(LexError::UnclosedString)
                } else {
                    Err(LexError::UnfinishedToken)
                }
            } else {
                classify_all(st.tokens)
            }
        },
    }
}

proof fn lemma_scan_step(ctx: Seq<char>, st: LexState, st2: LexState, i: int)
    requires
        0 <= i < ctx.len(),
        lex_step(ctx, st, i) == Ok::<LexState, LexError>(st2),
    ensures
        lex_scan(ctx, st, i) == lex_scan(ctx, st2, i + 1),
{
}

// ---------------------------------------------------------------------------
// the scanner itself
// ---------------------------------------------------------------------------

/// Line and column of the character being scanned.
struct CharPositionCounter {
    ln: usize,
    col: usize,
}

impl CharPositionCounter {
    fn new() -> (r: Self)
        ensures
            r.ln == 0,
            r.col == 0,
    {
        Self { ln: 0, col: 0 }
    }

    fn next_char(&mut self)
        requires
            old(self).col < usize::MAX,
        ensures
            final(self).ln == old(self).ln,
            final(self).col == old(self).col + 1,
    {
        self.col += 1;
    }

    fn next_line(&mut self)
        requires
            old(self).ln < usize::MAX,
        ensures
            final(self).ln == old(self).ln + 1,
            final(self).col == 0,
    {
        self.ln += 1;
        self.col = 0;
    }

    fn ln(&self) -> (r: usize)
        ensures
            r == self.ln,
    {
        self.ln
    }

    fn col(&self) -> (r: usize)
        ensures
            r == self.col,
    {
        self.col
    }
}

/// The ghost scanner state assembled from the executable pieces.
pub open spec fn st_of(mode: TokenSequence, m: StreamModel, ln: int, col: int) -> LexState {
    LexState { mode, start: m.start, end: m.end, tokens: m.tokens, ln, col }
}

/// Turns source text into its token sequence, or reports the first lexical
/// failure.
pub fn tokenize(text: &str) -> (r: Result<Vec<token::Token>, LexError>)
    ensures
        match r {
            Ok(v) => spec_tokenize(text@) == Ok::<Seq<TokenModel>, LexError>(
                v@.map_values(|t: token::Token| t@),
            ),
            Err(e) => spec_tokenize(text@) == Err::<Seq<TokenModel>, LexError>(e),
        },
{
    let n = text.unicode_len();
    let mut token_collector = RawTokenStream::new(text);
    let mut char_pos_counter = CharPositionCounter::new();
    let mut mode = TokenSequence::Neutral;

    let mut i: usize = 0;
    proof {
        assert(st_of(mode, token_collector@, 0, 0) =~= init_lex());
    }
    while i < n
        invariant
            n == text@.len(),
            0 <= i <= n,
            token_collector.wf(),
            token_collector@.ctx == text@,
            char_pos_counter.ln <= i,
            char_pos_counter.col <= i,
            mode == TokenSequence::Neutral ==> (token_collector@.start == usize::MAX as int
                && token_collector@.end == 0),
            mode != TokenSequence::Neutral ==> (0 <= token_collector@.start
                && token_collector@.start < token_collector@.end && token_collector@.end == i),
            lex_scan(text@, init_lex(), 0) == lex_scan(
                text@,
                st_of(
                    mode,
                    token_collector@,
                    char_pos_counter.ln as int,
                    char_pos_counter.col as int,
                ),
                i as int,
            ),
        decreases n - i,
    {
        let ghost st_old = st_of(
            mode,
            token_collector@,
            char_pos_counter.ln as int,
            char_pos_counter.col as int,
        );
        char_pos_counter.next_char();
        let c = text.get_char(i);

        // continue collecting the lexeme in progress, or cut it off
        match mode {
            TokenSequence::Word => {
                if token::Identifier::is_alphanumeric_valid_char(c) {
                    token_collector.add(1);
                    proof {
                        let st2 = st_of(
                            mode,
                            token_collector@,
                            char_pos_counter.ln as int,
                            char_pos_counter.col as int,
                        );
                        assert(lex_step(text@, st_old, i as int) == Ok::<LexState, LexError>(st2))
                            by {
                            assert(lex_step(text@, st_old, i as int)->Ok_0 =~= st2);
                        }
                        lemma_scan_step(text@, st_old, st2, i as int);
                    }
                    i += 1;
                    continue ;
                }
                token_collector.cut();
                mode = TokenSequence::Neutral;
            },
            TokenSequence::Symbol => {
                let prejoined = token_collector.temp_prejoined(1);

                // single line comment
                if token::str_eq(prejoined, "//") {
                    token_collector.add(1);
                    mode = TokenSequence::SingleLineComment;
                    proof {
                        let st2 = st_of(
                            mode,
                            token_collector@,
                            char_pos_counter.ln as int,
                            char_pos_counter.col as int,
                        );
                        assert(lex_step(text@, st_old, i as int) == Ok::<LexState, LexError>(st2))
                            by {
                            assert(lex_step(text@, st_old, i as int)->Ok_0 =~= st2);
                        }
                        lemma_scan_step(text@, st_old, st2, i as int);
                    }
                    i += 1;
                    continue ;
                }
                // multi line comment
                if token::str_eq(prejoined, "/*") {
                    token_collector.add(1);
                    mode = TokenSequence::MultiLineComment;
                    proof {
                        let st2 = st_of(
                            mode,
                            token_collector@,
                            char_pos_counter.ln as int,
                            char_pos_counter.col as int,
                        );
                        assert(lex_step(text@, st_old, i as int) == Ok::<LexState, LexError>(st2))
                            by {
                            assert(lex_step(text@, st_old, i as int)->Ok_0 =~= st2);
                        }
                        lemma_scan_step(text@, st_old, st2, i as int);
                    }
                    i += 1;
                    continue ;
                }
                if token::Symbol::match_str(prejoined) {
                    token_collector.add(1);
                    proof {
                        let st2 = st_of(
                            mode,
                            token_collector@,
                            char_pos_counter.ln as int,
                            char_pos_counter.col as int,
                        );
                        assert(lex_step(text@, st_old, i as int) == Ok::<LexState, LexError>(st2))
                            by {
                            assert(lex_step(text@, st_old, i as int)->Ok_0 =~= st2);
                        }
                        lemma_scan_step(text@, st_old, st2, i as int);
                    }
                    i += 1;
                    continue ;
                }
                token_collector.cut();
                mode = TokenSequence::Neutral;
            },
            TokenSequence::SingleLineComment => {
                if c == '\n' {
                    token_collector.cut();
                    mode = TokenSequence::Neutral;
                } else {
                    token_collector.add(1);
                }
                proof {
                    let st2 = st_of(
                        mode,
                        token_collector@,
                        char_pos_counter.ln as int,
                        char_pos_counter.col as int,
                    );
                    assert(lex_step(text@, st_old, i as int) == Ok::<LexState, LexError>(st2)) by {
                        assert(lex_step(text@, st_old, i as int)->Ok_0 =~= st2);
                    }
                    lemma_scan_step(text@, st_old, st2, i as int);
                }
                i += 1;
                continue ;
            },
            TokenSequence::MultiLineComment => {
                if c == '/' && text.get_char(i - 1) == '*' {
                    token_collector.add(1);
                    token_collector.cut();
                    mode = TokenSequence::Neutral;
                } else {
                    token_collector.add(1);
                }
                proof {
                    let st2 = st_of(
                        mode,
                        token_collector@,
                        char_pos_counter.ln as int,
                        char_pos_counter.col as int,
                    );
                    assert(lex_step(text@, st_old, i as int) == Ok::<LexState, LexError>(st2)) by {
                        assert(lex_step(text@, st_old, i as int)->Ok_0 =~= st2);
                    }
                    lemma_scan_step(text@, st_old, st2, i as int);
                }
                i += 1;
                continue ;
            },
            TokenSequence::StringLiteral => {
                if c == '"' && !(text.get_char(i - 1) == '\\') {
                    token_collector.add(1);
                    token_collector.cut();
                    mode = TokenSequence::Neutral;
                } else {
                    token_collector.add(1);
                }
                proof {
                    let st2 = st_of(
                        mode,
                        token_collector@,
                        char_pos_counter.ln as int,
                        char_pos_counter.col as int,
                    );
                    assert(lex_step(text@, st_old, i as int) == Ok::<LexState, LexError>(st2)) by {
                        assert(lex_step(text@, st_old, i as int)->Ok_0 =~= st2);
                    }
                    lemma_scan_step(text@, st_old, st2, i as int);
                }
                i += 1;
                continue ;
            },
            TokenSequence::NumericLiteral => {
                if token::ascii_alnum_char(c) || c == '.' {
                    token_collector.add(1);
                    proof {
                        let st2 = st_of(
                            mode,
                            token_collector@,
                            char_pos_counter.ln as int,
                            char_pos_counter.col as int,
                        );
                        assert(lex_step(text@, st_old, i as int) == Ok::<LexState, LexError>(st2))
                            by {
                            assert(lex_step(text@, st_old, i as int)->Ok_0 =~= st2);
                        }
                        lemma_scan_step(text@, st_old, st2, i as int);
                    }
                    i += 1;
                    continue ;
                }
                token_collector.cut();
                mode = TokenSequence::Neutral;
            },
            TokenSequence::Neutral => {},
        }

        // dispatch a fresh start character
        let ghost st_mid = st_of(
            mode,
            token_collector@,
            char_pos_counter.ln as int,
            char_pos_counter.col as int,
        );
        proof {
            assert(lex_step(text@, st_old, i as int) == neutral_dispatch(text@, st_mid, i as int))
                by {
                if st_old.mode != TokenSequence::Neutral {
                    assert(st_mid =~= cut_state(
                        text@,
                        LexState { col: st_old.col + 1, ..st_old },
                    ));
                } else {
                    assert(st_mid =~= LexState { col: st_old.col + 1, ..st_old });
                }
            }
        }

        // skip whitespace and escape characters
        if token::char_is_whitespace(c) || c == '\n' || c == '\t' || c == '\r' || c == '\0' {
            token_collector.cut();

            if c == '\n' {
                char_pos_counter.next_line();
            }
            proof {
                let st2 = st_of(
                    mode,
                    token_collector@,
                    char_pos_counter.ln as int,
                    char_pos_counter.col as int,
                );
                assert(lex_step(text@, st_old, i as int) == Ok::<LexState, LexError>(st2)) by {
                    assert(lex_step(text@, st_old, i as int)->Ok_0 =~= st2);
                }
                lemma_scan_step(text@, st_old, st2, i as int);
            }
            i += 1;
            continue ;
        } else if c == '"' {
            mode = TokenSequence::StringLiteral;
        } else if token::Symbol::match_char(c) {
            mode = TokenSequence::Symbol;
        } else if token::digit_char(c) {
            mode = TokenSequence::NumericLiteral;
        } else if token::Identifier::is_alphabetic_valid_char(c) {
            mode = TokenSequence::Word;
        } else {
            // nothing can start with this character
            let err = LexError::UnknownChar { line: char_pos_counter.ln(), col: char_pos_counter.col() };
            proof {
                assert(lex_step(text@, st_old, i as int) == Err::<LexState, LexError>(err));
                assert(lex_scan(text@, st_old, i as int) == Err::<LexState, LexError>(err));
            }
            return Err(err);
        }

        token_collector.set_start(i, 1);
        proof {
            let st2 = st_of(
                mode,
                token_collector@,
                char_pos_counter.ln as int,
                char_pos_counter.col as int,
            );
            assert(lex_step(text@, st_old, i as int) == Ok::<LexState, LexError>(st2)) by {
                assert(lex_step(text@, st_old, i as int)->Ok_0 =~= st2);
            }
            lemma_scan_step(text@, st_old, st2, i as int);
        }
        i += 1;
    }

    let ghost st_end = st_of(
        mode,
        token_collector@,
        char_pos_counter.ln as int,
        char_pos_counter.col as int,
    );
    proof {
        assert(lex_scan(text@, st_end, n as int) == Ok::<LexState, LexError>(st_end));
    }

    // termination validation
    if !token_collector.temp().is_empty() {
        return match mode {
            TokenSequence::StringLiteral => Err(LexError::UnclosedString),
            _ => Err(LexError::UnfinishedToken),
        };
    }

    // validate tokens
    let raws = token_collector.collect();
    let ghost raw_models = raws@.map_values(|t: token::RawToken| t@);
    proof {
        assert(spec_tokenize(text@) == classify_all(raw_models));
    }
    let mut res: Vec<token::Token> = Vec::new();

    let mut k: usize = 0;
    proof {
        assert(raw_models.skip(0) =~= raw_models);
        assert(res@.map_values(|t: token::Token| t@) =~= Seq::<TokenModel>::empty());
        if classify_all(raw_models) is Ok {
            assert(Seq::<TokenModel>::empty() + classify_all(raw_models)->Ok_0 =~= classify_all(
                raw_models,
            )->Ok_0);
        }
    }
    while k < raws.len()
        invariant
            0 <= k <= raws@.len(),
            raw_models == raws@.map_values(|t: token::RawToken| t@),
            spec_tokenize(text@) == classify_all(raw_models),
            classify_all(raw_models) == (match classify_all(raw_models.skip(k as int)) {
                Ok(s) => Ok::<Seq<TokenModel>, LexError>(
                    res@.map_values(|t: token::Token| t@) + s,
                ),
                Err(e) => Err::<Seq<TokenModel>, LexError>(e),
            }),
        decreases raws@.len() - k,
    {
        let ghost pre_res = res@.map_values(|t: token::Token| t@);
        proof {
            assert(raw_models.skip(k as int)[0] == raw_models[k as int]);
            assert(raw_models.skip(k as int).drop_first() =~= raw_models.skip(k as int + 1));
        }
        let rt = &raws[k];
        match token::Token::classify(rt.value()) {
            Some(t) => {
                res.push(t);
                proof {
                    assert(res@.map_values(|t2: token::Token| t2@) =~= pre_res + seq![t@]);
                    if classify_all(raw_models.skip(k as int + 1)) is Ok {
                        let s = classify_all(raw_models.skip(k as int + 1))->Ok_0;
                        assert((pre_res + seq![t@]) + s =~= pre_res + (seq![t@] + s));
                    }
                }
            },
            None => {
                let range = rt.range();
                proof {
                    assert(raw_models[k as int] == raws@[k as int]@);
                    assert(raw_models[k as int].start == range.0 as int);
                    assert(raw_models[k as int].end == range.1 as int);
                    assert(raw_models[k as int].start as usize == range.0);
                    assert(raw_models[k as int].end as usize == range.1);
                    assert(classify_all(raw_models.skip(k as int)) == Err::<
                        Seq<TokenModel>,
                        LexError,
                    >(LexError::UnknownToken { start: range.0, end: range.1 }));
                    assert(classify_all(raw_models) == Err::<Seq<TokenModel>, LexError>(
                        LexError::UnknownToken { start: range.0, end: range.1 },
                    ));
                    assert(spec_tokenize(text@) == Err::<Seq<TokenModel>, LexError>(
                        LexError::UnknownToken { start: range.0, end: range.1 },
                    ));
                }
                return Err(LexError::UnknownToken { start: range.0, end: range.1 });
            },
        }
        k += 1;
    }
    proof {
        assert(raw_models.skip(raw_models.len() as int) =~= Seq::<RawTokenModel>::empty());
        assert(res@.map_values(|t: token::Token| t@) + Seq::<TokenModel>::empty() =~= res@
            .map_values(|t: token::Token| t@));
    }
    Ok(res)
}

} // verus!
