//! The parser driver: an explicit stack of in-progress productions standing
//! in for call-stack recursion.  Tokens are fed one at a time to the
//! innermost production; completed productions are pruned from the top, and
//! the first grammatically illegal token aborts the whole parse.

use vstd::prelude::*;

use crate::grammar;
use crate::grammar::GrammarError;
use crate::grammar::Outcome;
use crate::grammar::Production;
use crate::grammar::ProductionModel;
use crate::grammar::RuleId;
use crate::grammar::SpecStep;
use crate::grammar::pm_done;
use crate::grammar::rule_pattern;
use crate::grammar::spec_prod_step;
use crate::token;

verus! {

/// Comments are never part of the grammar.
pub open spec fn is_comment(t: token::Token) -> bool {
    match t {
        token::Token::Comment(_) => true,
        _ => false,
    }
}

/// Removes completed productions from the innermost end of the stack.
pub open spec fn prune(stack: Seq<ProductionModel>) -> Seq<ProductionModel>
    decreases stack.len(),
{
    if stack.len() > 0 && pm_done(stack.last()) {
        prune(stack.drop_last())
    } else {
        stack
    }
}

pub proof fn lemma_prune_len(stack: Seq<ProductionModel>)
    ensures
        prune(stack).len() <= stack.len(),
    decreases stack.len(),
{
    if stack.len() > 0 && pm_done(stack.last()) {
        lemma_prune_len(stack.drop_last());
    }
}

/// Pushing an already-completed production changes nothing after pruning.
pub proof fn lemma_prune_push_done(stack: Seq<ProductionModel>, p: ProductionModel)
    requires
        pm_done(p),
    ensures
        prune(stack.push(p)) == prune(stack),
{
    assert(stack.push(p).drop_last() =~= stack);
}

/// Offering one non-comment token to the innermost production, retrying
/// further down whenever an already-complete production passes it on.
pub open spec fn spec_feed_loop(stack: Seq<ProductionModel>, t: token::Token) -> Result<
    Seq<ProductionModel>,
    GrammarError,
>
    decreases stack.len(),
{
    if stack.len() == 0 {
        Err(GrammarError::NoAlternativeMatched)
    } else {
        let top = stack.last();
        match spec_prod_step(top, t) {
            SpecStep::Passed { .. } => {
                proof {
                    lemma_prune_len(stack.drop_last());
                }
                spec_feed_loop(prune(stack.drop_last()), t)
            },
            SpecStep::Consumed { opened, cursor } => Ok(
                prune(stack.drop_last().push(ProductionModel { rule: top.rule, state: cursor })
                    + opened),
            ),
            SpecStep::Rejected { .. } => Err(GrammarError::NoAlternativeMatched),
        }
    }
}

/// One whole per-token transition of the driver.  A token that arrives
/// while the stack is already empty comes after the program's end; a stack
/// that empties while the token is being retried means no alternative
/// matched it at the top level.
pub open spec fn spec_feed(stack: Seq<ProductionModel>, t: token::Token) -> Result<
    Seq<ProductionModel>,
    GrammarError,
> {
    if is_comment(t) {
        Ok(stack)
    } else if stack.len() == 0 {
        Err(GrammarError::UnexpectedEnd)
    } else {
        spec_feed_loop(stack, t)
    }
}

/// The initial stack: one production for the whole program.
pub open spec fn init_stack() -> Seq<ProductionModel> {
    seq![ProductionModel { rule: RuleId::Program, state: 0 }]
}

/// Folding the driver over a token sequence from a given stack; an error
/// carries the index of the offending token.
pub open spec fn spec_run_from(stack: Seq<ProductionModel>, toks: Seq<token::Token>) -> Result<
    Seq<ProductionModel>,
    (int, GrammarError),
>
    decreases toks.len(),
{
    if toks.len() == 0 {
        Ok(stack)
    } else {
        match spec_feed(stack, toks[0]) {
            Ok(st) => match spec_run_from(st, toks.drop_first()) {
                Ok(f) => Ok(f),
                Err(ie) => Err((ie.0 + 1, ie.1)),
            },
            Err(e) => Err((0, e)),
        }
    }
}

/// The whole parse of a token sequence.
pub open spec fn spec_run(toks: Seq<token::Token>) -> Result<
    Seq<ProductionModel>,
    (int, GrammarError),
> {
    spec_run_from(init_stack(), toks)
}

/// A production that can still complete without consuming more tokens: every
/// remaining step is optional.
pub open spec fn pm_completable(p: ProductionModel) -> bool {
    forall|i: int|
        p.state <= i < rule_pattern(p.rule).len() ==> (#[trigger] rule_pattern(p.rule)[i]).kind
            != grammar::QuantKind::One
}

/// The accepting driver state: every production on the stack can complete.
pub open spec fn accepting(stack: Seq<ProductionModel>) -> bool {
    forall|i: int| 0 <= i < stack.len() ==> pm_completable(#[trigger] stack[i])
}

/// A token sequence the grammar accepts: the driver survives every token and
/// ends in an accepting state.
pub open spec fn spec_accepts(toks: Seq<token::Token>) -> bool {
    &&& spec_run(toks) is Ok
    &&& accepting(spec_run(toks)->Ok_0)
}

// ---------------------------------------------------------------------------
// the driver
// ---------------------------------------------------------------------------

/// Grammar or driver error, together with the index of the token that
/// raised it.
#[derive(Debug, Clone, Copy, PartialEq, Eq, Structural)]
pub struct ParseError {
    pub index: usize,
    pub error: GrammarError,
}

pub struct Parser {
    process_stack: Vec<Production>,
    counter: usize,
}

impl View for Parser {
    type V = Seq<ProductionModel>;

    closed spec fn view(&self) -> Seq<ProductionModel> {
        self.process_stack@.map_values(|p: Production| p@)
    }
}

impl Parser {
    pub closed spec fn wf(&self) -> bool {
        forall|i: int|
            0 <= i < self.process_stack@.len() ==> (#[trigger] self.process_stack@[i]).wf()
    }

    pub fn new() -> (r: Self)
        ensures
            r.wf(),
            r@ == init_stack(),
    {
        let mut process_stack: Vec<Production> = Vec::new();
        process_stack.push(Production::new(RuleId::Program));
        let r = Self { process_stack, counter: 0 };
        proof {
            assert(r@ =~= init_stack());
        }
        r
    }

    /// Feeds one token to the parse state.  The first error is fatal: it
    /// aborts the whole parse, and the stack it leaves behind carries no
    /// meaning.
    pub fn process(&mut self, token: &token::Token) -> (r: Result<(), GrammarError>)
        requires
            old(self).wf(),
        ensures
            final(self).wf(),
            match spec_feed(old(self)@, *token) {
                Ok(st) => r is Ok && final(self)@ == st,
                Err(e) => match r {
                    Err(e2) => e2 == e,
                    _ => false,
                },
            },
    {
        if self.counter < usize::MAX {
            self.counter = self.counter + 1;
        }

        // skip comments
        if let token::Token::Comment(_) = token {
            return Ok(());
        }
        if self.process_stack.len() == 0 {
            return Err(GrammarError::UnexpectedEnd);
        }
        let ghost orig = self@;

        // while the token is not consumed
        loop
            invariant
                self.wf(),
                spec_feed_loop(self@, *token) == spec_feed_loop(orig, *token),
                spec_feed(old(self)@, *token) == spec_feed_loop(orig, *token),
            decreases self@.len(),
        {
            let ghost cur = self@;
            if self.process_stack.len() == 0 {
                return Err(GrammarError::NoAlternativeMatched);
            }
            let mut top = self.process_stack.pop().unwrap();
            proof {
                assert(top@ == cur.last());
                assert(self@ =~= cur.drop_last());
                grammar::lemma_wf_state_bounds(&top);
            }

            match top.process(token) {
                Outcome::Consumed(list) => {
                    let ghost opened = spec_prod_step(cur.last(), *token)->Consumed_opened;
                    self.process_stack.push(top);
                    let mut rest = list;
                    proof {
                        assert(rest@.map_values(|p: Production| p@) =~= opened);
                    }
                    self.process_stack.append(&mut rest);
                    proof {
                        assert(self@ =~= cur.drop_last().push(
                            ProductionModel {
                                rule: cur.last().rule,
                                state: grammar::step_cursor(spec_prod_step(cur.last(), *token)),
                            },
                        ) + opened);
                    }
                    self.update_process_stack();

                    return Ok(());
                },
                Outcome::Passed => {
                    proof {
                        grammar::lemma_passed_done(
                            rule_pattern(cur.last().rule),
                            cur.last().state,
                            *token,
                        );
                        assert(pm_done(top@));
                    }
                    self.process_stack.push(top);
                    proof {
                        assert(self@ =~= cur.drop_last().push(top@));
                        lemma_prune_push_done(cur.drop_last(), top@);
                        lemma_prune_len(cur.drop_last());
                    }
                    self.update_process_stack();
                    proof {
                        assert(spec_feed_loop(cur, *token) == spec_feed_loop(
                            prune(cur.drop_last()),
                            *token,
                        ));
                    }

                    continue;
                },
                Outcome::Unexpected(err) => {
                    self.process_stack.push(top);
                    return Err(err);
                },
            }
        }
    }

    /// Prunes completed productions from the innermost end of the stack.
    fn update_process_stack(&mut self)
        requires
            old(self).wf(),
        ensures
            final(self).wf(),
            final(self)@ == prune(old(self)@),
    {
        let ghost orig = self@;
        loop
            invariant
                self.wf(),
                prune(self@) == prune(orig),
            ensures
                self.wf(),
                prune(self@) == prune(orig),
                self@.len() == 0 || !pm_done(self@.last()),
            decreases self@.len(),
        {
            let n = self.process_stack.len();
            if n == 0 {
                break ;
            }
            if !self.process_stack[n - 1].is_done() {
                break ;
            }
            let ghost pre = self@;
            self.process_stack.pop();
            proof {
                assert(self@ =~= pre.drop_last());
            }
        }
        proof {
            assert(prune(self@) == self@);
        }
    }

    /// Are all productions still on the stack completable without further
    /// tokens?  This is the accepting state after the last token.
    pub fn is_complete(&self) -> (r: bool)
        requires
            self.wf(),
        ensures
            r == accepting(self@),
    {
        let n = self.process_stack.len();
        let mut i: usize = 0;
        while i < n
            invariant
                self.wf(),
                n == self@.len(),
                0 <= i <= n,
                forall|k: int| 0 <= k < i ==> pm_completable(#[trigger] self@[k]),
            decreases n - i,
        {
            if !self.process_stack[i].is_completable() {
                proof {
                    assert(self@[i as int] == self.process_stack@[i as int]@);
                    assert(!pm_completable(self@[i as int]));
                }
                return false;
            }
            i += 1;
        }
        true
    }
}

/// Parses a whole token sequence, reporting the first grammar violation
/// with the index of the offending token.
pub fn parse_syntax(tokens: &Vec<token::Token>) -> (r: Result<(), ParseError>)
    ensures
        match spec_run(tokens@) {
            Ok(_) => r is Ok,
            Err(ie) => match r {
                Err(pe) => pe.index == ie.0 && pe.error == ie.1,
                _ => false,
            },
        },
{
    let mut process_state_machine = Parser::new();

    let mut i: usize = 0;
    proof {
        assert(tokens@.skip(0) =~= tokens@);
    }
    while i < tokens.len()
        invariant
            process_state_machine.wf(),
            0 <= i <= tokens@.len(),
            shift_err(spec_run_from(process_state_machine@, tokens@.skip(i as int)), i as int)
                == spec_run(tokens@),
        decreases tokens@.len() - i,
    {
        let ghost stack = process_state_machine@;
        let ghost rest = tokens@.skip(i as int);
        proof {
            assert(rest[0] == tokens@[i as int]);
            assert(rest.drop_first() =~= tokens@.skip(i as int + 1));
        }
        match process_state_machine.process(&tokens[i]) {
            Ok(_) => {},
            Err(e) => {
                proof {
                    assert(spec_run_from(stack, rest) == Err::<Seq<ProductionModel>, (
                        int,
                        GrammarError,
                    )>((0, e)));
                }
                return Err(ParseError { index: i, error: e });
            },
        }
        i += 1;
    }
    proof {
        assert(tokens@.skip(tokens@.len() as int) =~= Seq::<token::Token>::empty());
    }
    Ok(())
}

/// Shifts the error index of a driver result by `k`.
pub open spec fn shift_err(
    r: Result<Seq<ProductionModel>, (int, GrammarError)>,
    k: int,
) -> Result<Seq<ProductionModel>, (int, GrammarError)> {
    match r {
        Ok(s) => Ok(s),
        Err(ie) => Err((ie.0 + k, ie.1)),
    }
}

// ---------------------------------------------------------------------------
// laws of the driver
// ---------------------------------------------------------------------------

/// A run that survives a token sequence survives every prefix of it.
pub proof fn lemma_run_prefix(stack: Seq<ProductionModel>, toks: Seq<token::Token>, i: int)
    requires
        0 <= i <= toks.len(),
        spec_run_from(stack, toks) is Ok,
    ensures
        spec_run_from(stack, toks.take(i)) is Ok,
    decreases toks.len(),
{
    if i > 0 {
        let st = spec_feed(stack, toks[0])->Ok_0;
        assert(toks.take(i)[0] == toks[0]);
        assert(toks.take(i).drop_first() =~= toks.drop_first().take(i - 1));
        lemma_run_prefix(st, toks.drop_first(), i - 1);
    } else {
        assert(toks.take(0) =~= Seq::<token::Token>::empty());
    }
}

/// A token sequence the grammar accepts drives the parser through every
/// prefix without error and leaves a final stack in which every open
/// production can complete where it stands — the state that prunes away
/// entirely once the input ends.
pub proof fn lemma_accepted_runs_clean(toks: Seq<token::Token>, i: int)
    requires
        spec_accepts(toks),
        0 <= i <= toks.len(),
    ensures
        spec_run(toks) is Ok,
        spec_run(toks.take(i)) is Ok,
        accepting(spec_run(toks)->Ok_0),
{
    lemma_run_prefix(init_stack(), toks, i);
}

/// A rejected sequence is rejected at exactly the first violating token:
/// every token before the reported index is fed without error, and the
/// reported token itself raises the reported error — never an earlier
/// token, never a later one.
pub proof fn lemma_reject_at_first_violation(stack: Seq<ProductionModel>, toks: Seq<token::Token>)
    requires
        spec_run_from(stack, toks) is Err,
    ensures
        ({
            let ie = spec_run_from(stack, toks)->Err_0;
            &&& 0 <= ie.0 < toks.len()
            &&& spec_run_from(stack, toks.take(ie.0)) is Ok
            &&& spec_feed(spec_run_from(stack, toks.take(ie.0))->Ok_0, toks[ie.0]) == Err::<
                Seq<ProductionModel>,
                GrammarError,
            >(ie.1)
        }),
    decreases toks.len(),
{
    let ie = spec_run_from(stack, toks)->Err_0;
    match spec_feed(stack, toks[0]) {
        Ok(st) => {
            lemma_reject_at_first_violation(st, toks.drop_first());
            let je = spec_run_from(st, toks.drop_first())->Err_0;
            assert(ie.0 == je.0 + 1 && ie.1 == je.1);
            assert(toks.take(ie.0)[0] == toks[0]);
            assert(toks.take(ie.0).drop_first() =~= toks.drop_first().take(je.0));
            assert(toks.drop_first()[je.0] == toks[ie.0]);
        },
        Err(_) => {
            assert(toks.take(0) =~= Seq::<token::Token>::empty());
        },
    }
}

/// Determinism: the parse of a token sequence is a function of the tokens
/// alone — re-running it always yields the same accept/reject outcome and,
/// on rejection, the same position and error.
pub proof fn lemma_parse_deterministic(t1: Seq<token::Token>, t2: Seq<token::Token>)
    requires
        t1 == t2,
    ensures
        spec_run(t1) == spec_run(t2),
{
}

proof fn lemma_comment_skip_from(
    stack: Seq<ProductionModel>,
    toks: Seq<token::Token>,
    i: int,
    c: token::Token,
)
    requires
        0 <= i <= toks.len(),
        is_comment(c),
    ensures
        spec_run_from(stack, toks.insert(i, c)) == (match spec_run_from(stack, toks) {
            Ok(st) => Ok::<Seq<ProductionModel>, (int, GrammarError)>(st),
            Err(je) => if i <= je.0 {
                Err((je.0 + 1, je.1))
            } else {
                Err(je)
            },
        }),
    decreases toks.len(),
{
    let ins = toks.insert(i, c);
    if i == 0 {
        assert(ins[0] == c);
        assert(ins.drop_first() =~= toks);
        if spec_run_from(stack, toks) is Err {
            lemma_reject_at_first_violation(stack, toks);
        }
    } else {
        assert(ins[0] == toks[0]);
        assert(ins.drop_first() =~= toks.drop_first().insert(i - 1, c));
        match spec_feed(stack, toks[0]) {
            Ok(st) => {
                lemma_comment_skip_from(st, toks.drop_first(), i - 1, c);
            },
            Err(_) => {},
        }
    }
}

/// Comments never affect acceptance: inserting a comment token anywhere in
/// a token sequence (or, read backwards, removing one) leaves the
/// accept/reject outcome, the final stack and the reported error unchanged;
/// only error indices past the insertion point shift by one.
pub proof fn lemma_comment_never_affects(toks: Seq<token::Token>, i: int, c: token::Token)
    requires
        0 <= i <= toks.len(),
        is_comment(c),
    ensures
        spec_run(toks.insert(i, c)) == (match spec_run(toks) {
            Ok(st) => Ok::<Seq<ProductionModel>, (int, GrammarError)>(st),
            Err(je) => if i <= je.0 {
                Err((je.0 + 1, je.1))
            } else {
                Err(je)
            },
        }),
        spec_run(toks.insert(i, c)) is Ok <==> spec_run(toks) is Ok,
        spec_accepts(toks.insert(i, c)) <==> spec_accepts(toks),
{
    lemma_comment_skip_from(init_stack(), toks, i, c);
}


} // verus!
