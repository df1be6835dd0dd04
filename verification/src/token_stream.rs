//! Accumulation of raw lexemes during scanning: a borrowed view of the
//! source text, the list of raw tokens cut so far, and the character range
//! of the lexeme currently being collected.

use vstd::prelude::*;
use vstd::string::StrSliceExecFns;

use crate::token;
use crate::token::RawToken;
use crate::token::RawTokenModel;

verus! {

/// Collects raw tokens out of one source text.  The current range uses
/// `usize::MAX..0` as the sentinel for "no lexeme in progress".
pub struct RawTokenStream<'a> {
    ctx: &'a str,
    tokens: Vec<RawToken>,
    start: usize,
    end: usize,
}

/// Ghost image of the stream.
#[verifier::ext_equal]
pub struct StreamModel {
    pub ctx: Seq<char>,
    pub tokens: Seq<RawTokenModel>,
    pub start: int,
    pub end: int,
}

impl<'a> View for RawTokenStream<'a> {
    type V = StreamModel;

    closed spec fn view(&self) -> StreamModel {
        StreamModel {
            ctx: self.ctx@,
            tokens: self.tokens@.map_values(|t: RawToken| t@),
            start: self.start as int,
            end: self.end as int,
        }
    }
}

/// Every collected token is a slice of the source at its recorded range.
pub open spec fn tokens_wf(m: StreamModel) -> bool {
    forall|i: int|
        0 <= i < m.tokens.len() ==> {
            &&& 0 <= (#[trigger] m.tokens[i]).start <= m.tokens[i].end <= m.ctx.len()
            &&& m.tokens[i].value == m.ctx.subrange(m.tokens[i].start, m.tokens[i].end)
        }
}

impl<'a> RawTokenStream<'a> {
    /// The current range is the sentinel or lies within the source.
    pub open spec fn wf(&self) -> bool {
        &&& tokens_wf(self@)
        &&& self@.ctx.len() <= usize::MAX
        &&& (self@.start == usize::MAX as int && self@.end == 0) || (0 <= self@.start <= self@.end
            <= self@.ctx.len())
    }

    pub fn new(ctx: &'a str) -> (r: Self)
        requires
            ctx@.len() <= usize::MAX,
        ensures
            r.wf(),
            r@.ctx == ctx@,
            r@.tokens == Seq::<RawTokenModel>::empty(),
            r@.start == usize::MAX as int,
            r@.end == 0,
    {
        let r = Self { ctx, tokens: Vec::new(), start: usize::MAX, end: 0 };
        proof {
            assert(r@.tokens =~= Seq::<RawTokenModel>::empty());
        }
        r
    }

    /// Hands the collected tokens out.
    pub fn collect(self) -> (r: Vec<RawToken>)
        ensures
            r@.map_values(|t: RawToken| t@) == self@.tokens,
    {
        self.tokens
    }

    /// The lexeme currently being collected, or the empty string when the
    /// current range is empty.
    pub fn temp(&self) -> (r: &'a str)
        requires
            self.wf(),
        ensures
            r@ == if self@.start < self@.end {
                self@.ctx.subrange(self@.start, self@.end)
            } else {
                Seq::<char>::empty()
            },
    {
        if self.start >= self.end {
            let empty = "";
            proof {
                reveal_strlit("");
            }
            return empty;
        }
        self.ctx.substring_char(self.start, self.end)
    }

    /// The current lexeme extended by the next `dif` characters of the
    /// source.
    pub fn temp_prejoined(&self, dif: usize) -> (r: &'a str)
        requires
            self.wf(),
            self@.start != usize::MAX as int ==> self@.end + dif <= self@.ctx.len(),
        ensures
            r@ == if self@.start != usize::MAX as int {
                self@.ctx.subrange(self@.start, self@.end + dif)
            } else {
                Seq::<char>::empty()
            },
    {
        if self.start != usize::MAX {
            let pre_len = self.end + dif;
            return self.ctx.substring_char(self.start, pre_len);
        }
        self.temp()
    }

    /// Begins collecting a lexeme of `dif` characters at `offset`.
    pub fn set_start(&mut self, offset: usize, dif: usize)
        requires
            old(self).wf(),
            offset + dif <= old(self)@.ctx.len(),
        ensures
            final(self).wf(),
            final(self)@ == (StreamModel {
                start: offset as int,
                end: offset + dif,
                ..old(self)@
            }),
    {
        self.start = offset;
        self.end = offset + dif;
    }

    /// Extends the current lexeme by `dif` characters.
    pub fn add(&mut self, dif: usize)
        requires
            old(self).wf(),
            old(self)@.start != usize::MAX as int,
            old(self)@.end + dif <= old(self)@.ctx.len(),
        ensures
            final(self).wf(),
            final(self)@ == (StreamModel { end: old(self)@.end + dif, ..old(self)@ }),
    {
        self.end = self.end + dif;
    }

    /// Cuts the current lexeme off as one raw token (if it is non-empty) and
    /// resets the range.
    pub fn cut(&mut self)
        requires
            old(self).wf(),
        ensures
            final(self).wf(),
            final(self)@.ctx == old(self)@.ctx,
            final(self)@.start == usize::MAX as int,
            final(self)@.end == 0,
            final(self)@.tokens == if old(self)@.start < old(self)@.end {
                old(self)@.tokens.push(
                    RawTokenModel {
                        value: old(self)@.ctx.subrange(old(self)@.start, old(self)@.end),
                        start: old(self)@.start,
                        end: old(self)@.end,
                    },
                )
            } else {
                old(self)@.tokens
            },
    {
        if self.start < self.end {
            let x_str = self.ctx.substring_char(self.start, self.end);
            let new_token = RawToken::new(x_str.to_owned(), self.start, self.end);

            self.tokens.push(new_token);
        }

        self.reset_range();
        proof {
            if old(self)@.start < old(self)@.end {
                assert(self@.tokens =~= old(self)@.tokens.push(
                    RawTokenModel {
                        value: old(self)@.ctx.subrange(old(self)@.start, old(self)@.end),
                        start: old(self)@.start,
                        end: old(self)@.end,
                    },
                ));
            }
        }
    }

    fn reset_range(&mut self)
        ensures
            final(self)@ == (StreamModel {
                start: usize::MAX as int,
                end: 0,
                ..old(self)@
            }),
    {
        self.start = usize::MAX;
        self.end = 0;
    }
}

} // verus!
