//! The grammar pattern engine: a declarative way to express a grammar as
//! compositions of quantified alternatives, and the per-step state machine
//! that consumes one token at a time.
//!
//! A grammar rule is a [`GrammarPattern`]: an ordered, fixed sequence of
//! quantifiers, each offering a list of alternatives (terminal matchers or
//! references to other rules).  A [`Production`] is one live, in-progress
//! instance of a rule.  Feeding a token to a production either consumes it
//! (possibly opening nested productions that must finish first), passes it on
//! because the production was already complete, or rejects it.
//!
//! Construction rules for the grammar tables:
//! 1. the first step of a rule must not be satisfiable only by the rule
//!    itself, which would recurse without consuming;
//! 2. among sibling alternatives of one step, the accepted first tokens must
//!    not collide.

use vstd::prelude::*;

use crate::token;
use crate::token::Keyword;
use crate::token::Symbol;
use crate::token_grammar;
use crate::token_grammar::TokenGrammar;

verus! {

// ---------------------------------------------------------------------------
// result vocabulary
// ---------------------------------------------------------------------------

/// Three-way result of feeding one token to a production.
pub enum Outcome {
    /// The token was accepted; the carried productions are newly-entered
    /// nested rules that must be pushed onto the stack, outermost first.
    Consumed(Vec<Production>),
    /// The production was already complete; the token must be offered to the
    /// production below it.
    Passed,
    /// The token is grammatically illegal at this position.
    Unexpected(GrammarError),
}

#[derive(Debug, Clone, Copy, PartialEq, Eq, Structural)]
pub enum GrammarError {
    TypeExpected,
    SymbolExpected,
    IdentifierExpected,
    KeywordExpected,
    ExpressionExpected,
    /// No alternative of a required step accepted the token.
    NoAlternativeMatched,
    /// A terminal matcher rejected the token.
    MismatchedToken,
    /// A token arrived although the whole program was already complete.
    UnexpectedEnd,
}

/// The shared capability set of every node that can be fed a token.
pub trait Grammar {
    spec fn valid(&self) -> bool;

    fn process(&mut self, token: &token::Token) -> (r: Outcome)
        requires
            old(self).valid(),
        ensures
            final(self).valid(),
    ;

    fn is_done(&self) -> bool
        requires
            self.valid(),
    ;

    fn info(&self) -> String;
}

// ---------------------------------------------------------------------------
// rule identifiers and alternatives
// ---------------------------------------------------------------------------

/// One name per grammar rule; the factory [`Production::new`] turns a name
/// into a fresh, unstarted production of that rule.
#[derive(Debug, Clone, Copy, PartialEq, Eq, Structural)]
pub enum RuleId {
    Program,
    ConTypeAssignment,
    VecShorthandType,
    ParentheseTypeVariant,
    ConRangeType,
    ConTupleType,
    TupleTypeRecursiveSequence,
    TupleTypeSequence,
    ImportedVariableDeclaration,
    TypeDeclaration,
    TableDeclaration,
    ImportedTableDeclaration,
    MemoryDeclaration,
    ImportedMemoryDeclaration,
    ImportDeclaration,
    ExportDeclaration,
    AliasedExportDeclaration,
    FunctionDeclaration,
    ImportedFunctionDeclaration,
    TypeSignature,
    TypeParameter,
    TypeParamSequence,
    ConTypeParamSequence,
    Signature,
    Parameter,
    ParamSequence,
    ParamType,
    ConParamType,
    ResultType,
    FunctionBlock,
    VariableDeclaration,
    MutableIdDeclaration,
    MultiIdDeclaration,
    ConMultiIdDeclaration,
    IfStatement,
    ElseIfStatement,
    ElseStatement,
    WhileStatement,
    BreakStatement,
    ContinueStatement,
    ReturnStatement,
    ExpressionStatement,
    ConAssignmentExpression,
    Expression,
    WithIdExpression,
    ConExprSequence,
    ConCallIndirectExpression,
    FuncCallArg,
    FuncCallArgSequence,
    ConFuncCallArgSequence,
    UnaryExpression,
    ConBinaryExpression,
    ConConditionalExpression,
    ConMemberExpression,
    GroupedOrTupleExpression,
    TypeFunctionExpression,
    TypeOfExpression,
    OffsetExpression,
    GenericArgument,
    TypeExpression,
}

/// One alternative of a step: a terminal matcher, or a fresh instance of a
/// named rule.
#[derive(Debug, Clone, Copy, PartialEq, Eq, Structural)]
pub enum Alt {
    Terminal(TokenGrammar),
    Rule(RuleId),
}

/// How many times a step may or must match before the pattern advances.
#[derive(Debug, Clone)]
pub enum GrammarQuantifier {
    One(Vec<Alt>),
    OptionalOne(Vec<Alt>),
    OptionalMany(Vec<Alt>),
}

#[derive(Debug, Clone, Copy, PartialEq, Eq, Structural)]
pub enum QuantKind {
    One,
    OptionalOne,
    OptionalMany,
}

/// Ghost image of one quantifier step.
#[verifier::ext_equal]
pub struct QuantModel {
    pub kind: QuantKind,
    pub alts: Seq<Alt>,
}

impl View for GrammarQuantifier {
    type V = QuantModel;

    open spec fn view(&self) -> QuantModel {
        match self {
            GrammarQuantifier::One(v) => QuantModel { kind: QuantKind::One, alts: v@ },
            GrammarQuantifier::OptionalOne(v) => QuantModel {
                kind: QuantKind::OptionalOne,
                alts: v@,
            },
            GrammarQuantifier::OptionalMany(v) => QuantModel {
                kind: QuantKind::OptionalMany,
                alts: v@,
            },
        }
    }
}

// alternative shorthands, usable both in executable tables and in
// specifications

#[verifier::allow_in_spec]
pub fn kw(k: Keyword) -> Alt
    returns
        Alt::Terminal(TokenGrammar::from_keyword(k)),
{
    Alt::Terminal(TokenGrammar::from_keyword(k))
}

#[verifier::allow_in_spec]
pub fn sym(s: Symbol) -> Alt
    returns
        Alt::Terminal(TokenGrammar::from_symbol(s)),
{
    Alt::Terminal(TokenGrammar::from_symbol(s))
}

#[verifier::allow_in_spec]
pub fn ident() -> Alt
    returns
        Alt::Terminal(TokenGrammar::any_identifier()),
{
    Alt::Terminal(TokenGrammar::any_identifier())
}

#[verifier::allow_in_spec]
pub fn numlit() -> Alt
    returns
        Alt::Terminal(TokenGrammar::any_numeric_literal()),
{
    Alt::Terminal(TokenGrammar::any_numeric_literal())
}

#[verifier::allow_in_spec]
pub fn strlit() -> Alt
    returns
        Alt::Terminal(TokenGrammar::any_string_literal()),
{
    Alt::Terminal(TokenGrammar::any_string_literal())
}

#[verifier::allow_in_spec]
pub fn anytype() -> Alt
    returns
        Alt::Terminal(TokenGrammar::any_type()),
{
    Alt::Terminal(TokenGrammar::any_type())
}

#[verifier::allow_in_spec]
pub fn unary() -> Alt
    returns
        Alt::Terminal(TokenGrammar::any_unary_symbol()),
{
    Alt::Terminal(TokenGrammar::any_unary_symbol())
}

#[verifier::allow_in_spec]
pub fn binary() -> Alt
    returns
        Alt::Terminal(TokenGrammar::any_binary_symbol()),
{
    Alt::Terminal(TokenGrammar::any_binary_symbol())
}

#[verifier::allow_in_spec]
pub fn nt(r: RuleId) -> Alt
    returns
        Alt::Rule(r),
{
    Alt::Rule(r)
}

// quantifier shorthands for the specification tables

pub open spec fn one(alts: Seq<Alt>) -> QuantModel {
    QuantModel { kind: QuantKind::One, alts }
}

pub open spec fn optional_one(alts: Seq<Alt>) -> QuantModel {
    QuantModel { kind: QuantKind::OptionalOne, alts }
}

pub open spec fn optional_many(alts: Seq<Alt>) -> QuantModel {
    QuantModel { kind: QuantKind::OptionalMany, alts }
}

// ---------------------------------------------------------------------------
// the pattern state machine
// ---------------------------------------------------------------------------

/// The body of one grammar rule: its steps, a cursor, and a completion flag.
/// The cursor only ever advances; a pattern that has advanced past its last
/// step is permanently complete.
pub struct GrammarPattern {
    pattern: Vec<GrammarQuantifier>,
    is_done: bool,
    state: u8,
}

/// Ghost image of a pattern: its steps, cursor and completion flag.
#[verifier::ext_equal]
pub struct PatternModel {
    pub steps: Seq<QuantModel>,
    pub state: int,
    pub done: bool,
}

impl View for GrammarPattern {
    type V = PatternModel;

    closed spec fn view(&self) -> PatternModel {
        PatternModel {
            steps: self.pattern@.map_values(|q: GrammarQuantifier| q@),
            state: self.state as int,
            done: self.is_done,
        }
    }
}

/// Ghost image of one live production: which rule it is an instance of, and
/// how far its cursor has advanced.
pub struct ProductionModel {
    pub rule: RuleId,
    pub state: int,
}

/// A production of rule `p.rule` whose cursor stands at `p.state` is
/// complete when the cursor has passed the last step of the rule's pattern.
pub open spec fn pm_done(p: ProductionModel) -> bool {
    p.state >= rule_pattern(p.rule).len()
}

// ---------------------------------------------------------------------------
// termination ranks
//
// Trial-matching instantiates fresh productions of the alternatives at the
// current step, which themselves trial-match their own first alternatives.
// Construction rule 1 keeps those chains finite; the ranks below turn that
// into a decreasing measure.  A rule's rank bounds the rank of every
// alternative reachable from its own cursor position 0 before the first
// required step, which is what `lemma_rule_rank_bound` checks against the
// tables.
// ---------------------------------------------------------------------------

pub open spec fn rule_rank(r: RuleId) -> nat {
    match r {
        RuleId::Program => 2,
        RuleId::TupleTypeRecursiveSequence => 2,
        RuleId::TypeSignature => 2,
        RuleId::Signature => 2,
        RuleId::ParamSequence => 2,
        RuleId::Expression => 2,
        RuleId::TypeExpression => 2,
        RuleId::ExpressionStatement => 3,
        RuleId::FuncCallArgSequence => 3,
        _ => 1,
    }
}

pub open spec fn alt_rank(a: Alt) -> nat {
    match a {
        Alt::Terminal(_) => 0,
        Alt::Rule(r) => rule_rank(r),
    }
}

pub open spec fn alts_rank(alts: Seq<Alt>) -> nat
    decreases alts.len(),
{
    if alts.len() == 0 {
        0
    } else {
        let a = alt_rank(alts[0]);
        let b = alts_rank(alts.drop_first());
        if a >= b {
            a
        } else {
            b
        }
    }
}

/// The rank of a pattern from cursor position `s`: the largest step rank
/// reachable by skipping optional steps, stopping at the first required one.
pub open spec fn pattern_rank(steps: Seq<QuantModel>, s: int) -> nat
    decreases steps.len() - s,
{
    if s < 0 || s >= steps.len() {
        0
    } else if steps[s].kind == QuantKind::One {
        1 + alts_rank(steps[s].alts)
    } else {
        let a = 1 + alts_rank(steps[s].alts);
        let b = pattern_rank(steps, s + 1);
        if a >= b {
            a
        } else {
            b
        }
    }
}

pub proof fn lemma_alts_rank_mem(alts: Seq<Alt>, i: int)
    requires
        0 <= i < alts.len(),
    ensures
        alt_rank(alts[i]) <= alts_rank(alts),
    decreases i,
{
    if i > 0 {
        lemma_alts_rank_mem(alts.drop_first(), i - 1);
        assert(alts.drop_first()[i - 1] == alts[i]);
    }
}

/// Every rule's pattern, seen from its start, has rank at most the rank
/// assigned to the rule itself: the termination measure of trial matching.
pub proof fn lemma_rule_rank_bound(r: RuleId)
    ensures
        pattern_rank(rule_pattern(r), 0) <= rule_rank(r),
{
    match r {
        RuleId::ConRangeType => assert(pattern_rank(rule_pattern(r), 0) <= rule_rank(r)) by {
            reveal_with_fuel(pattern_rank, 9);
            reveal_with_fuel(alts_rank, 11);
        },
        RuleId::ExportDeclaration => assert(pattern_rank(rule_pattern(r), 0) <= rule_rank(r)) by {
            reveal_with_fuel(pattern_rank, 9);
            reveal_with_fuel(alts_rank, 11);
        },
        RuleId::Expression => assert(pattern_rank(rule_pattern(r), 0) <= rule_rank(r)) by {
            reveal_with_fuel(pattern_rank, 9);
            reveal_with_fuel(alts_rank, 11);
        },
        RuleId::FunctionBlock => assert(pattern_rank(rule_pattern(r), 0) <= rule_rank(r)) by {
            reveal_with_fuel(pattern_rank, 9);
            reveal_with_fuel(alts_rank, 11);
        },
        RuleId::IfStatement => assert(pattern_rank(rule_pattern(r), 0) <= rule_rank(r)) by {
            reveal_with_fuel(pattern_rank, 9);
            reveal_with_fuel(alts_rank, 11);
        },
        RuleId::ImportDeclaration => assert(pattern_rank(rule_pattern(r), 0) <= rule_rank(r)) by {
            reveal_with_fuel(pattern_rank, 9);
            reveal_with_fuel(alts_rank, 11);
        },
        RuleId::OffsetExpression => assert(pattern_rank(rule_pattern(r), 0) <= rule_rank(r)) by {
            reveal_with_fuel(pattern_rank, 9);
            reveal_with_fuel(alts_rank, 11);
        },
        RuleId::Program => assert(pattern_rank(rule_pattern(r), 0) <= rule_rank(r)) by {
            reveal_with_fuel(pattern_rank, 9);
            reveal_with_fuel(alts_rank, 11);
        },
        RuleId::TypeExpression => assert(pattern_rank(rule_pattern(r), 0) <= rule_rank(r)) by {
            reveal_with_fuel(pattern_rank, 9);
            reveal_with_fuel(alts_rank, 11);
        },
        RuleId::WithIdExpression => assert(pattern_rank(rule_pattern(r), 0) <= rule_rank(r)) by {
            reveal_with_fuel(pattern_rank, 9);
            reveal_with_fuel(alts_rank, 11);
        },
        RuleId::ConTypeAssignment
        | RuleId::VecShorthandType
        | RuleId::ParentheseTypeVariant
        | RuleId::ConTupleType
        | RuleId::TupleTypeRecursiveSequence
        | RuleId::TupleTypeSequence
        | RuleId::ImportedVariableDeclaration => assert(pattern_rank(rule_pattern(r), 0) <= rule_rank(r)) by {
            reveal_with_fuel(pattern_rank, 9);
            reveal_with_fuel(alts_rank, 11);
        },
        RuleId::TypeDeclaration
        | RuleId::TableDeclaration
        | RuleId::ImportedTableDeclaration
        | RuleId::MemoryDeclaration
        | RuleId::ImportedMemoryDeclaration
        | RuleId::AliasedExportDeclaration
        | RuleId::FunctionDeclaration => assert(pattern_rank(rule_pattern(r), 0) <= rule_rank(r)) by {
            reveal_with_fuel(pattern_rank, 9);
            reveal_with_fuel(alts_rank, 11);
        },
        RuleId::ImportedFunctionDeclaration
        | RuleId::TypeSignature
        | RuleId::TypeParameter
        | RuleId::TypeParamSequence
        | RuleId::ConTypeParamSequence
        | RuleId::Signature
        | RuleId::Parameter => assert(pattern_rank(rule_pattern(r), 0) <= rule_rank(r)) by {
            reveal_with_fuel(pattern_rank, 9);
            reveal_with_fuel(alts_rank, 11);
        },
        RuleId::ParamSequence
        | RuleId::ParamType
        | RuleId::ConParamType
        | RuleId::ResultType
        | RuleId::VariableDeclaration
        | RuleId::MutableIdDeclaration
        | RuleId::MultiIdDeclaration => assert(pattern_rank(rule_pattern(r), 0) <= rule_rank(r)) by {
            reveal_with_fuel(pattern_rank, 9);
            reveal_with_fuel(alts_rank, 11);
        },
        RuleId::ConMultiIdDeclaration
        | RuleId::ElseIfStatement
        | RuleId::ElseStatement
        | RuleId::WhileStatement
        | RuleId::BreakStatement
        | RuleId::ContinueStatement
        | RuleId::ReturnStatement => assert(pattern_rank(rule_pattern(r), 0) <= rule_rank(r)) by {
            reveal_with_fuel(pattern_rank, 9);
            reveal_with_fuel(alts_rank, 11);
        },
        RuleId::ExpressionStatement
        | RuleId::ConAssignmentExpression
        | RuleId::ConExprSequence
        | RuleId::ConCallIndirectExpression
        | RuleId::FuncCallArg
        | RuleId::FuncCallArgSequence
        | RuleId::ConFuncCallArgSequence => assert(pattern_rank(rule_pattern(r), 0) <= rule_rank(r)) by {
            reveal_with_fuel(pattern_rank, 9);
            reveal_with_fuel(alts_rank, 11);
        },
        RuleId::UnaryExpression
        | RuleId::ConBinaryExpression
        | RuleId::ConConditionalExpression
        | RuleId::ConMemberExpression
        | RuleId::GroupedOrTupleExpression
        | RuleId::TypeFunctionExpression
        | RuleId::TypeOfExpression => assert(pattern_rank(rule_pattern(r), 0) <= rule_rank(r)) by {
            reveal_with_fuel(pattern_rank, 9);
            reveal_with_fuel(alts_rank, 11);
        },
        RuleId::GenericArgument => assert(pattern_rank(rule_pattern(r), 0) <= rule_rank(r)) by {
            reveal_with_fuel(pattern_rank, 9);
            reveal_with_fuel(alts_rank, 11);
        },
    }
}

// ---------------------------------------------------------------------------
// the specification of one execution step
// ---------------------------------------------------------------------------

/// Ghost outcome of feeding one token to a pattern: what happened, the
/// productions opened, and where the cursor came to rest.
pub enum SpecStep {
    Passed { cursor: int },
    Consumed { opened: Seq<ProductionModel>, cursor: int },
    Rejected { cursor: int },
}

pub open spec fn step_cursor(r: SpecStep) -> int {
    match r {
        SpecStep::Passed { cursor } => cursor,
        SpecStep::Consumed { cursor, .. } => cursor,
        SpecStep::Rejected { cursor } => cursor,
    }
}

/// Feeding one token to a pattern whose cursor stands at `s`: try the
/// alternatives of the current step in order; on success advance (except
/// under Optional-Many); on failure of an optional step retry the same token
/// against the next step; on failure of a required step reject.
pub open spec fn spec_execute(steps: Seq<QuantModel>, s: int, t: token::Token) -> SpecStep
    decreases pattern_rank(steps, s), 3int, steps.len() - s,
{
    if s < 0 || s >= steps.len() {
        SpecStep::Passed { cursor: s }
    } else {
        let q = steps[s];
        match try_alts(q.alts, t) {
            Some(opened) => {
                let c = if q.kind == QuantKind::OptionalMany {
                    s
                } else {
                    s + 1
                };
                SpecStep::Consumed { opened, cursor: c }
            },
            None => {
                if q.kind == QuantKind::One {
                    SpecStep::Rejected { cursor: s }
                } else {
                    spec_execute(steps, s + 1, t)
                }
            },
        }
    }
}

/// Ordered choice over the alternatives of one step: the first alternative
/// that consumes the token wins and reports what must be opened.
pub open spec fn try_alts(alts: Seq<Alt>, t: token::Token) -> Option<Seq<ProductionModel>>
    decreases alts_rank(alts) + 1, 2int, alts.len(),
{
    if alts.len() == 0 {
        None
    } else {
        let first_try = match alts[0] {
            Alt::Terminal(g) => if token_grammar::spec_is_match(g, t) {
                Some(Seq::<ProductionModel>::empty())
            } else {
                None
            },
            Alt::Rule(r) => spec_process_fresh(r, t),
        };
        if first_try is Some {
            first_try
        } else {
            try_alts(alts.drop_first(), t)
        }
    }
}

/// Feeding one token to a fresh, unstarted production of rule `r`.  If the
/// token is consumed, the production itself comes first in the list of
/// productions to open (unless it completed on this very token), followed by
/// whatever its own first step opened.
pub open spec fn spec_process_fresh(r: RuleId, t: token::Token) -> Option<Seq<ProductionModel>>
    decreases rule_rank(r), 4int, 0int,
        via spec_process_fresh_dec
{
    let steps = rule_pattern(r);
    match spec_execute(steps, 0, t) {
        SpecStep::Consumed { opened, cursor } => {
            if cursor < steps.len() {
                Some(seq![ProductionModel { rule: r, state: cursor }] + opened)
            } else {
                Some(opened)
            }
        },
        _ => None,
    }
}

#[via_fn]
proof fn spec_process_fresh_dec(r: RuleId, t: token::Token) {
    lemma_rule_rank_bound(r);
}

/// Feeding one token to a live production.
pub open spec fn spec_prod_step(p: ProductionModel, t: token::Token) -> SpecStep {
    spec_execute(rule_pattern(p.rule), p.state, t)
}

/// The cursor only ever advances: no execution step moves it backwards.
pub proof fn lemma_cursor_monotone(steps: Seq<QuantModel>, s: int, t: token::Token)
    requires
        0 <= s,
    ensures
        step_cursor(spec_execute(steps, s, t)) >= s,
    decreases steps.len() - s,
{
    if s < steps.len() {
        lemma_cursor_monotone(steps, s + 1, t);
    }
}

/// A pattern only passes a token on when its cursor has run past the end.
pub proof fn lemma_passed_done(steps: Seq<QuantModel>, s: int, t: token::Token)
    requires
        0 <= s,
        spec_execute(steps, s, t) is Passed,
    ensures
        step_cursor(spec_execute(steps, s, t)) >= steps.len(),
        step_cursor(spec_execute(steps, s, t)) >= s,
    decreases steps.len() - s,
{
    if s < steps.len() {
        lemma_passed_done(steps, s + 1, t);
    }
}

/// A well-formed production's cursor lies within its rule's pattern.
pub proof fn lemma_wf_state_bounds(p: &Production)
    requires
        p.wf(),
    ensures
        0 <= p@.state <= rule_pattern(p@.rule).len(),
{
}

/// Two execution steps agree, with cursors differing by a constant offset:
/// the same outcome, the same productions opened.
pub open spec fn step_shifted(a: SpecStep, b: SpecStep, d: int) -> bool {
    match (a, b) {
        (SpecStep::Passed { cursor: x }, SpecStep::Passed { cursor: y }) => x == y + d,
        (
            SpecStep::Consumed { opened: o1, cursor: x },
            SpecStep::Consumed { opened: o2, cursor: y },
        ) => o1 == o2 && x == y + d,
        (SpecStep::Rejected { cursor: x }, SpecStep::Rejected { cursor: y }) => x == y + d,
        _ => false,
    }
}

/// One execution step depends only on the steps from the cursor on: two
/// patterns with equal remainders behave identically.
pub proof fn lemma_execute_suffix(
    s1: Seq<QuantModel>,
    c1: int,
    s2: Seq<QuantModel>,
    c2: int,
    t: token::Token,
)
    requires
        0 <= c1 <= s1.len(),
        0 <= c2 <= s2.len(),
        s1.skip(c1) == s2.skip(c2),
    ensures
        step_shifted(spec_execute(s1, c1, t), spec_execute(s2, c2, t), c1 - c2),
    decreases s1.len() - c1,
{
    assert(s1.skip(c1).len() == s1.len() - c1);
    assert(s2.skip(c2).len() == s2.len() - c2);
    assert(s1.len() - c1 == s2.len() - c2);
    if c1 < s1.len() {
        assert(c2 < s2.len());
        assert(s1.skip(c1)[0] == s1[c1]);
        assert(s2.skip(c2)[0] == s2[c2]);
        assert(s1[c1] == s2[c2]);
        match try_alts(s1[c1].alts, t) {
            Some(_) => {},
            None => {
                if s1[c1].kind != QuantKind::One {
                    assert(s1.skip(c1 + 1) =~= s1.skip(c1).drop_first());
                    assert(s2.skip(c2 + 1) =~= s2.skip(c2).drop_first());
                    lemma_execute_suffix(s1, c1 + 1, s2, c2 + 1, t);
                }
            },
        }
    }
}

/// An Optional-Many step that matches a token zero times behaves exactly as
/// if the step were entirely absent: the outcome and the opened productions
/// are the same, and the remaining steps line up one for one.
pub proof fn lemma_optional_many_zero(steps: Seq<QuantModel>, s: int, t: token::Token)
    requires
        0 <= s < steps.len(),
        steps[s].kind == QuantKind::OptionalMany,
        try_alts(steps[s].alts, t) is None,
    ensures
        step_shifted(spec_execute(steps, s, t), spec_execute(steps.remove(s), s, t), 1),
{
    assert(spec_execute(steps, s, t) == spec_execute(steps, s + 1, t));
    assert(steps.skip(s + 1) =~= steps.remove(s).skip(s));
    lemma_execute_suffix(steps, s + 1, steps.remove(s), s, t);
}

// ---------------------------------------------------------------------------
// correspondence between executable results and their ghost images
// ---------------------------------------------------------------------------

pub open spec fn prods_match(list: Seq<Production>, opened: Seq<ProductionModel>) -> bool {
    &&& list.len() == opened.len()
    &&& forall|i: int|
        0 <= i < list.len() ==> (#[trigger] list[i]).wf() && list[i]@ == opened[i]
}

pub open spec fn outcome_corresponds(sr: SpecStep, r: Outcome) -> bool {
    match sr {
        SpecStep::Passed { .. } => r is Passed,
        SpecStep::Rejected { .. } => match r {
            Outcome::Unexpected(e) => e == GrammarError::NoAlternativeMatched,
            _ => false,
        },
        SpecStep::Consumed { opened, .. } => match r {
            Outcome::Consumed(list) => prods_match(list@, opened),
            _ => false,
        },
    }
}

/// A freshly built pattern for rule `r`: well formed, with the rule's steps,
/// cursor at the start, not complete.
pub open spec fn fresh_pattern(p: GrammarPattern, r: RuleId) -> bool {
    &&& p.wf()
    &&& p@.steps == rule_pattern(r)
    &&& p@.state == 0
    &&& !p@.done
}

// ---------------------------------------------------------------------------
// the executable pattern engine
// ---------------------------------------------------------------------------

impl GrammarPattern {
    /// Structural well-formedness: the cursor never leaves the pattern, and
    /// the completion flag says exactly that the cursor has passed the end.
    pub open spec fn wf(&self) -> bool {
        &&& 1 <= self@.steps.len() < 256
        &&& 0 <= self@.state <= self@.steps.len()
        &&& (self@.done <==> self@.state == self@.steps.len())
    }

    /// A fresh pattern with its cursor at the first step.  A rule body has
    /// at least one step, and the one-byte cursor bounds it to 255.
    pub fn new(pattern: Vec<GrammarQuantifier>) -> (r: Self)
        requires
            1 <= pattern@.len() < 256,
        ensures
            r.wf(),
            r@.steps == pattern@.map_values(|q: GrammarQuantifier| q@),
            r@.state == 0,
            !r@.done,
    {
        Self { pattern, is_done: false, state: 0 }
    }

    /// The quantifier at the cursor.
    pub fn current(&self) -> (r: &GrammarQuantifier)
        requires
            self.wf(),
            !self@.done,
        ensures
            r@ == self@.steps[self@.state],
    {
        &self.pattern[self.state as usize]
    }

    /// Advances the cursor, marking the pattern complete when it passes the
    /// last step.
    fn next(&mut self)
        requires
            old(self).wf(),
            !old(self)@.done,
        ensures
            final(self).wf(),
            final(self)@.steps == old(self)@.steps,
            final(self)@.state == old(self)@.state + 1,
    {
        self.state = self.state + 1;

        if self.state as usize >= self.pattern.len() {
            self.is_done = true;
        }
    }

    /// Feeds one token to this pattern.
    pub fn execute(&mut self, token: &token::Token) -> (r: Outcome)
        requires
            old(self).wf(),
        ensures
            final(self).wf(),
            final(self)@.steps == old(self)@.steps,
            final(self)@.state == step_cursor(
                spec_execute(old(self)@.steps, old(self)@.state, *token),
            ),
            outcome_corresponds(spec_execute(old(self)@.steps, old(self)@.state, *token), r),
        decreases pattern_rank(old(self)@.steps, old(self)@.state), old(self)@.steps.len() - old(self)@.state, 1int,
    {
        if self.is_done {
            return Outcome::Passed;
        }
        let ghost steps = self@.steps;
        let ghost s0 = self@.state;
        let s = self.state as usize;
        let kind = match &self.pattern[s] {
            GrammarQuantifier::One(_) => QuantKind::One,
            GrammarQuantifier::OptionalOne(_) => QuantKind::OptionalOne,
            GrammarQuantifier::OptionalMany(_) => QuantKind::OptionalMany,
        };
        let n = match &self.pattern[s] {
            GrammarQuantifier::One(v) => v.len(),
            GrammarQuantifier::OptionalOne(v) => v.len(),
            GrammarQuantifier::OptionalMany(v) => v.len(),
        };
        proof {
            assert(steps[s0] == self.pattern@[s0 as int]@);
            assert(steps[s0].kind == kind);
            assert(steps[s0].alts.len() == n);
        }
        let ghost alts_seq = steps[s0].alts;
        proof {
            assert(alts_seq.skip(0) =~= alts_seq);
        }

        let mut j: usize = 0;
        while j < n
            invariant
                self == old(self),
                self.wf(),
                !self@.done,
                self@.steps == steps,
                self@.state == s0,
                s == s0,
                s < steps.len(),
                steps[s0].kind == kind,
                steps[s0].alts == alts_seq,
                n == alts_seq.len(),
                0 <= j <= n,
                try_alts(alts_seq, *token) == try_alts(alts_seq.skip(j as int), *token),
            decreases n - j,
        {
            let a: Alt = match &self.pattern[s] {
                GrammarQuantifier::One(v) => v[j],
                GrammarQuantifier::OptionalOne(v) => v[j],
                GrammarQuantifier::OptionalMany(v) => v[j],
            };
            proof {
                assert(a == alts_seq[j as int]);
                assert(alts_seq.skip(j as int)[0] == alts_seq[j as int]);
            }
            match a {
                Alt::Terminal(tg) => {
                    if tg.is_match(token) {
                        proof {
                            assert(try_alts(alts_seq.skip(j as int), *token) == Some(
                                Seq::<ProductionModel>::empty(),
                            ));
                        }
                        let out: Vec<Production> = Vec::new();
                        if !matches!(kind, QuantKind::OptionalMany) {
                            self.next();
                        }
                        return Outcome::Consumed(out);
                    }
                    proof {
                        assert(alts_seq.skip(j as int).drop_first() =~= alts_seq.skip(
                            j as int + 1,
                        ));
                    }
                },
                Alt::Rule(rid) => {
                    proof {
                        lemma_alts_rank_mem(alts_seq, j as int);
                        lemma_rule_rank_bound(rid);
                        assert(pattern_rank(steps, s0) >= 1 + alts_rank(alts_seq));
                    }
                    let mut dupl = Production::new(rid);
                    let res = dupl.process(token);
                    match res {
                        Outcome::Consumed(list) => {
                            let mut out: Vec<Production> = Vec::new();
                            if !dupl.is_done() {
                                out.push(dupl);
                            }
                            let mut rest = list;
                            out.append(&mut rest);
                            proof {
                                assert(try_alts(alts_seq.skip(j as int), *token)
                                    == spec_process_fresh(rid, *token));
                                let fresh_opened = spec_process_fresh(rid, *token)->Some_0;
                                assert(prods_match(out@, fresh_opened));
                            }
                            if !matches!(kind, QuantKind::OptionalMany) {
                                self.next();
                            }
                            return Outcome::Consumed(out);
                        },
                        _ => {
                            proof {
                                assert(spec_process_fresh(rid, *token) is None);
                                assert(alts_seq.skip(j as int).drop_first() =~= alts_seq.skip(
                                    j as int + 1,
                                ));
                            }
                        },
                    }
                },
            }
            j += 1;
        }
        proof {
            assert(alts_seq.skip(n as int) =~= Seq::<Alt>::empty());
            assert(try_alts(alts_seq, *token) is None);
        }
        match kind {
            QuantKind::One => Outcome::Unexpected(GrammarError::NoAlternativeMatched),
            _ => self.execute_next(token),
        }
    }

    /// Are all steps from the cursor on optional, so that the pattern can
    /// complete without consuming more tokens?
    pub fn completable(&self) -> (r: bool)
        requires
            self.wf(),
        ensures
            r == forall|i: int|
                self@.state <= i < self@.steps.len() ==> (#[trigger] self@.steps[i]).kind
                    != QuantKind::One,
    {
        let n = self.pattern.len();
        let mut i = self.state as usize;
        while i < n
            invariant
                self.wf(),
                n == self@.steps.len(),
                self@.state <= i <= n,
                forall|k: int|
                    self@.state <= k < i ==> (#[trigger] self@.steps[k]).kind != QuantKind::One,
            decreases n - i,
        {
            let required = match &self.pattern[i] {
                GrammarQuantifier::One(_) => true,
                _ => false,
            };
            if required {
                proof {
                    assert(self@.steps[i as int].kind == QuantKind::One);
                }
                return false;
            }
            i += 1;
        }
        true
    }

    /// Skips past the current (optional) step and retries the same token
    /// against the next one.
    fn execute_next(&mut self, token: &token::Token) -> (r: Outcome)
        requires
            old(self).wf(),
            !old(self)@.done,
            old(self)@.steps[old(self)@.state].kind != QuantKind::One,
        ensures
            final(self).wf(),
            final(self)@.steps == old(self)@.steps,
            final(self)@.state == step_cursor(
                spec_execute(old(self)@.steps, old(self)@.state + 1, *token),
            ),
            outcome_corresponds(spec_execute(old(self)@.steps, old(self)@.state + 1, *token), r),
        decreases pattern_rank(old(self)@.steps, old(self)@.state), old(self)@.steps.len() - old(self)@.state, 0int,
    {
        self.next();
        self.execute(token)
    }
}

// ---------------------------------------------------------------------------
// the generic production wrapper
// ---------------------------------------------------------------------------

/// One live, in-progress instance of a named grammar rule.
pub struct Production {
    rule: RuleId,
    pattern: GrammarPattern,
}

impl View for Production {
    type V = ProductionModel;

    closed spec fn view(&self) -> ProductionModel {
        ProductionModel { rule: self.rule, state: self.pattern@.state }
    }
}

impl Production {
    /// The pattern really is the one of this production's rule.
    pub closed spec fn wf(&self) -> bool {
        &&& self.pattern.wf()
        &&& self.pattern@.steps == rule_pattern(self.rule)
    }

    /// The factory: a fresh, unstarted production of the named rule.
    pub fn new(rule: RuleId) -> (r: Self)
        ensures
            r.wf(),
            r@.rule == rule,
            r@.state == 0,
    {
        let pattern = match rule {
            RuleId::Program => Program::new().pattern,
            RuleId::ConTypeAssignment => ConTypeAssignment::new().pattern,
            RuleId::VecShorthandType => VecShorthandType::new().pattern,
            RuleId::ParentheseTypeVariant => ParentheseTypeVariant::new().pattern,
            RuleId::ConRangeType => ConRangeType::new().pattern,
            RuleId::ConTupleType => ConTupleType::new().pattern,
            RuleId::TupleTypeRecursiveSequence => TupleTypeRecursiveSequence::new().pattern,
            RuleId::TupleTypeSequence => TupleTypeSequence::new().pattern,
            RuleId::ImportedVariableDeclaration => ImportedVariableDeclaration::new().pattern,
            RuleId::TypeDeclaration => TypeDeclaration::new().pattern,
            RuleId::TableDeclaration => TableDeclaration::new().pattern,
            RuleId::ImportedTableDeclaration => ImportedTableDeclaration::new().pattern,
            RuleId::MemoryDeclaration => MemoryDeclaration::new().pattern,
            RuleId::ImportedMemoryDeclaration => ImportedMemoryDeclaration::new().pattern,
            RuleId::ImportDeclaration => ImportDeclaration::new().pattern,
            RuleId::ExportDeclaration => ExportDeclaration::new().pattern,
            RuleId::AliasedExportDeclaration => AliasedExportDeclaration::new().pattern,
            RuleId::FunctionDeclaration => FunctionDeclaration::new().pattern,
            RuleId::ImportedFunctionDeclaration => ImportedFunctionDeclaration::new().pattern,
            RuleId::TypeSignature => TypeSignature::new().pattern,
            RuleId::TypeParameter => TypeParameter::new().pattern,
            RuleId::TypeParamSequence => TypeParamSequence::new().pattern,
            RuleId::ConTypeParamSequence => ConTypeParamSequence::new().pattern,
            RuleId::Signature => Signature::new().pattern,
            RuleId::Parameter => Parameter::new().pattern,
            RuleId::ParamSequence => ParamSequence::new().pattern,
            RuleId::ParamType => ParamType::new().pattern,
            RuleId::ConParamType => ConParamType::new().pattern,
            RuleId::ResultType => ResultType::new().pattern,
            RuleId::FunctionBlock => FunctionBlock::new().pattern,
            RuleId::VariableDeclaration => VariableDeclaration::new().pattern,
            RuleId::MutableIdDeclaration => MutableIdDeclaration::new().pattern,
            RuleId::MultiIdDeclaration => MultiIdDeclaration::new().pattern,
            RuleId::ConMultiIdDeclaration => ConMultiIdDeclaration::new().pattern,
            RuleId::IfStatement => IfStatement::new().pattern,
            RuleId::ElseIfStatement => ElseIfStatement::new().pattern,
            RuleId::ElseStatement => ElseStatement::new().pattern,
            RuleId::WhileStatement => WhileStatement::new().pattern,
            RuleId::BreakStatement => BreakStatement::new().pattern,
            RuleId::ContinueStatement => ContinueStatement::new().pattern,
            RuleId::ReturnStatement => ReturnStatement::new().pattern,
            RuleId::ExpressionStatement => ExpressionStatement::new().pattern,
            RuleId::ConAssignmentExpression => ConAssignmentExpression::new().pattern,
            RuleId::Expression => Expression::new().pattern,
            RuleId::WithIdExpression => WithIdExpression::new().pattern,
            RuleId::ConExprSequence => ConExprSequence::new().pattern,
            RuleId::ConCallIndirectExpression => ConCallIndirectExpression::new().pattern,
            RuleId::FuncCallArg => FuncCallArg::new().pattern,
            RuleId::FuncCallArgSequence => FuncCallArgSequence::new().pattern,
            RuleId::ConFuncCallArgSequence => ConFuncCallArgSequence::new().pattern,
            RuleId::UnaryExpression => UnaryExpression::new().pattern,
            RuleId::ConBinaryExpression => ConBinaryExpression::new().pattern,
            RuleId::ConConditionalExpression => ConConditionalExpression::new().pattern,
            RuleId::ConMemberExpression => ConMemberExpression::new().pattern,
            RuleId::GroupedOrTupleExpression => GroupedOrTupleExpression::new().pattern,
            RuleId::TypeFunctionExpression => TypeFunctionExpression::new().pattern,
            RuleId::TypeOfExpression => TypeOfExpression::new().pattern,
            RuleId::OffsetExpression => OffsetExpression::new().pattern,
            RuleId::GenericArgument => GenericArgument::new().pattern,
            RuleId::TypeExpression => TypeExpression::new().pattern,
        };
        Production { rule, pattern }
    }

    /// Feeds one token to this production.
    pub fn process(&mut self, token: &token::Token) -> (r: Outcome)
        requires
            old(self).wf(),
        ensures
            final(self).wf(),
            final(self)@.rule == old(self)@.rule,
            final(self)@.state == step_cursor(spec_prod_step(old(self)@, *token)),
            outcome_corresponds(spec_prod_step(old(self)@, *token), r),
        decreases pattern_rank(rule_pattern(old(self)@.rule), old(self)@.state), rule_pattern(old(self)@.rule).len() - old(self)@.state, 2int,
    {
        self.pattern.execute(token)
    }

    /// Has this production advanced past its final step?
    pub fn is_done(&self) -> (r: bool)
        requires
            self.wf(),
        ensures
            r == pm_done(self@),
    {
        self.pattern.is_done
    }

    /// Can this production still complete without consuming more tokens,
    /// every remaining step being optional?
    pub fn is_completable(&self) -> (r: bool)
        requires
            self.wf(),
        ensures
            r == forall|i: int|
                self@.state <= i < rule_pattern(self@.rule).len() ==> (#[trigger] rule_pattern(
                    self@.rule,
                )[i]).kind != QuantKind::One,
    {
        self.pattern.completable()
    }
}

/// The diagnostic label of each grammar rule.
pub open spec fn rule_label(r: RuleId) -> Seq<char> {
    match r {
        RuleId::Program => "Program"@,
        RuleId::ConTypeAssignment => "ConTypeAssignment"@,
        RuleId::VecShorthandType => "VecShorthandType"@,
        RuleId::ParentheseTypeVariant => "ParentheseTypeVariant"@,
        RuleId::ConRangeType => "ConRangeType"@,
        RuleId::ConTupleType => "ConTupleType"@,
        RuleId::TupleTypeRecursiveSequence => "TupleTypeRecursiveSequence"@,
        RuleId::TupleTypeSequence => "TupleTypeSequence"@,
        RuleId::ImportedVariableDeclaration => "ImportedVariableDeclaration"@,
        RuleId::TypeDeclaration => "TypeDeclaration"@,
        RuleId::TableDeclaration => "TableDeclaration"@,
        RuleId::ImportedTableDeclaration => "ImportedTableDeclaration"@,
        RuleId::MemoryDeclaration => "MemoryDeclaration"@,
        RuleId::ImportedMemoryDeclaration => "ImportedMemoryDeclaration"@,
        RuleId::ImportDeclaration => "ImportDeclaration"@,
        RuleId::ExportDeclaration => "ExportDeclaration"@,
        RuleId::AliasedExportDeclaration => "AliasedExportDeclaration"@,
        RuleId::FunctionDeclaration => "FunctionDeclaration"@,
        RuleId::ImportedFunctionDeclaration => "ImportedFunctionDeclaration"@,
        RuleId::TypeSignature => "TypeSignature"@,
        RuleId::TypeParameter => "TypeParameter"@,
        RuleId::TypeParamSequence => "TypeParamSequence"@,
        RuleId::ConTypeParamSequence => "ConTypeParamSequence"@,
        RuleId::Signature => "Signature"@,
        RuleId::Parameter => "Parameter"@,
        RuleId::ParamSequence => "ParamSequence"@,
        RuleId::ParamType => "ParamType"@,
        RuleId::ConParamType => "ConParamType"@,
        RuleId::ResultType => "ResultType"@,
        RuleId::FunctionBlock => "FunctionBlock"@,
        RuleId::VariableDeclaration => "VariableDeclaration"@,
        RuleId::MutableIdDeclaration => "MutableIdDeclaration"@,
        RuleId::MultiIdDeclaration => "MultiIdDeclaration"@,
        RuleId::ConMultiIdDeclaration => "ConMultiIdDeclaration"@,
        RuleId::IfStatement => "IfStatement"@,
        RuleId::ElseIfStatement => "ElseIfStatement"@,
        RuleId::ElseStatement => "ElseStatement"@,
        RuleId::WhileStatement => "WhileStatement"@,
        RuleId::BreakStatement => "BreakStatement"@,
        RuleId::ContinueStatement => "ContinueStatement"@,
        RuleId::ReturnStatement => "ReturnStatement"@,
        RuleId::ExpressionStatement => "ExpressionStatement"@,
        RuleId::ConAssignmentExpression => "ConAssignmentExpression"@,
        RuleId::Expression => "Expression"@,
        RuleId::WithIdExpression => "WithIdExpression"@,
        RuleId::ConExprSequence => "ConExprSequence"@,
        RuleId::ConCallIndirectExpression => "ConCallIndirectExpression"@,
        RuleId::FuncCallArg => "FuncCallArg"@,
        RuleId::FuncCallArgSequence => "FuncCallArgSequence"@,
        RuleId::ConFuncCallArgSequence => "ConFuncCallArgSequence"@,
        RuleId::UnaryExpression => "UnaryExpression"@,
        RuleId::ConBinaryExpression => "ConBinaryExpression"@,
        RuleId::ConConditionalExpression => "ConConditionalExpression"@,
        RuleId::ConMemberExpression => "ConMemberExpression"@,
        RuleId::GroupedOrTupleExpression => "GroupedOrTupleExpression"@,
        RuleId::TypeFunctionExpression => "TypeFunctionExpression"@,
        RuleId::TypeOfExpression => "TypeOfExpression"@,
        RuleId::OffsetExpression => "OffsetExpression"@,
        RuleId::GenericArgument => "GenericArgument"@,
        RuleId::TypeExpression => "TypeExpression"@,
    }
}

impl Production {
    /// A diagnostic label naming this production's grammar rule.
    pub fn info(&self) -> (r: String)
        ensures
            r@ == rule_label(self@.rule),
    {
        match self.rule {
            RuleId::Program => "Program".to_owned(),
            RuleId::ConTypeAssignment => "ConTypeAssignment".to_owned(),
            RuleId::VecShorthandType => "VecShorthandType".to_owned(),
            RuleId::ParentheseTypeVariant => "ParentheseTypeVariant".to_owned(),
            RuleId::ConRangeType => "ConRangeType".to_owned(),
            RuleId::ConTupleType => "ConTupleType".to_owned(),
            RuleId::TupleTypeRecursiveSequence => "TupleTypeRecursiveSequence".to_owned(),
            RuleId::TupleTypeSequence => "TupleTypeSequence".to_owned(),
            RuleId::ImportedVariableDeclaration => "ImportedVariableDeclaration".to_owned(),
            RuleId::TypeDeclaration => "TypeDeclaration".to_owned(),
            RuleId::TableDeclaration => "TableDeclaration".to_owned(),
            RuleId::ImportedTableDeclaration => "ImportedTableDeclaration".to_owned(),
            RuleId::MemoryDeclaration => "MemoryDeclaration".to_owned(),
            RuleId::ImportedMemoryDeclaration => "ImportedMemoryDeclaration".to_owned(),
            RuleId::ImportDeclaration => "ImportDeclaration".to_owned(),
            RuleId::ExportDeclaration => "ExportDeclaration".to_owned(),
            RuleId::AliasedExportDeclaration => "AliasedExportDeclaration".to_owned(),
            RuleId::FunctionDeclaration => "FunctionDeclaration".to_owned(),
            RuleId::ImportedFunctionDeclaration => "ImportedFunctionDeclaration".to_owned(),
            RuleId::TypeSignature => "TypeSignature".to_owned(),
            RuleId::TypeParameter => "TypeParameter".to_owned(),
            RuleId::TypeParamSequence => "TypeParamSequence".to_owned(),
            RuleId::ConTypeParamSequence => "ConTypeParamSequence".to_owned(),
            RuleId::Signature => "Signature".to_owned(),
            RuleId::Parameter => "Parameter".to_owned(),
            RuleId::ParamSequence => "ParamSequence".to_owned(),
            RuleId::ParamType => "ParamType".to_owned(),
            RuleId::ConParamType => "ConParamType".to_owned(),
            RuleId::ResultType => "ResultType".to_owned(),
            RuleId::FunctionBlock => "FunctionBlock".to_owned(),
            RuleId::VariableDeclaration => "VariableDeclaration".to_owned(),
            RuleId::MutableIdDeclaration => "MutableIdDeclaration".to_owned(),
            RuleId::MultiIdDeclaration => "MultiIdDeclaration".to_owned(),
            RuleId::ConMultiIdDeclaration => "ConMultiIdDeclaration".to_owned(),
            RuleId::IfStatement => "IfStatement".to_owned(),
            RuleId::ElseIfStatement => "ElseIfStatement".to_owned(),
            RuleId::ElseStatement => "ElseStatement".to_owned(),
            RuleId::WhileStatement => "WhileStatement".to_owned(),
            RuleId::BreakStatement => "BreakStatement".to_owned(),
            RuleId::ContinueStatement => "ContinueStatement".to_owned(),
            RuleId::ReturnStatement => "ReturnStatement".to_owned(),
            RuleId::ExpressionStatement => "ExpressionStatement".to_owned(),
            RuleId::ConAssignmentExpression => "ConAssignmentExpression".to_owned(),
            RuleId::Expression => "Expression".to_owned(),
            RuleId::WithIdExpression => "WithIdExpression".to_owned(),
            RuleId::ConExprSequence => "ConExprSequence".to_owned(),
            RuleId::ConCallIndirectExpression => "ConCallIndirectExpression".to_owned(),
            RuleId::FuncCallArg => "FuncCallArg".to_owned(),
            RuleId::FuncCallArgSequence => "FuncCallArgSequence".to_owned(),
            RuleId::ConFuncCallArgSequence => "ConFuncCallArgSequence".to_owned(),
            RuleId::UnaryExpression => "UnaryExpression".to_owned(),
            RuleId::ConBinaryExpression => "ConBinaryExpression".to_owned(),
            RuleId::ConConditionalExpression => "ConConditionalExpression".to_owned(),
            RuleId::ConMemberExpression => "ConMemberExpression".to_owned(),
            RuleId::GroupedOrTupleExpression => "GroupedOrTupleExpression".to_owned(),
            RuleId::TypeFunctionExpression => "TypeFunctionExpression".to_owned(),
            RuleId::TypeOfExpression => "TypeOfExpression".to_owned(),
            RuleId::OffsetExpression => "OffsetExpression".to_owned(),
            RuleId::GenericArgument => "GenericArgument".to_owned(),
            RuleId::TypeExpression => "TypeExpression".to_owned(),
        }
    }
}

impl Grammar for Production {
    open spec fn valid(&self) -> bool {
        self.wf()
    }

    fn process(&mut self, token: &token::Token) -> (r: Outcome) {
        self.pattern.execute(token)
    }

    fn is_done(&self) -> (r: bool) {
        self.pattern.is_done
    }

    fn info(&self) -> (r: String) {
        Production::info(self)
    }
}

// ---------------------------------------------------------------------------
// the grammar tables, as one specification function per rule name
// ---------------------------------------------------------------------------

/// The pattern of each grammar rule.  The executable constructors below
/// build exactly these patterns.
pub open spec fn rule_pattern(r: RuleId) -> Seq<QuantModel> {
    match r {
        RuleId::Program => seq![
            optional_many(
                seq![
                    nt(RuleId::FunctionDeclaration),
                    nt(RuleId::TypeDeclaration),
                    nt(RuleId::TableDeclaration),
                    nt(RuleId::MemoryDeclaration),
                    nt(RuleId::VariableDeclaration),
                    nt(RuleId::ImportDeclaration),
                    nt(RuleId::ExportDeclaration),
                    sym(Symbol::SemiColon),
                ],
            ),
        ],
        RuleId::ConTypeAssignment => seq![
            one(seq![sym(Symbol::Assignment)]),
            one(seq![nt(RuleId::TypeExpression)]),
        ],
        RuleId::VecShorthandType => seq![one(seq![sym(Symbol::SemiColon)]), one(seq![numlit()])],
        RuleId::ParentheseTypeVariant => seq![
            one(seq![sym(Symbol::LeftParenthese)]),
            one(seq![nt(RuleId::ConRangeType), nt(RuleId::ConTupleType)]),
            one(seq![sym(Symbol::RightParenthese)]),
        ],
        RuleId::ConRangeType => seq![
            one(seq![numlit()]),
            one(seq![sym(Symbol::SemiColon)]),
            one(seq![anytype()]),
            one(seq![sym(Symbol::SemiColon)]),
            one(seq![numlit()]),
        ],
        RuleId::ConTupleType => seq![
            one(seq![anytype()]),
            optional_one(seq![nt(RuleId::TupleTypeRecursiveSequence), nt(RuleId::VecShorthandType)]),
        ],
        RuleId::TupleTypeRecursiveSequence => seq![
            optional_many(seq![nt(RuleId::TupleTypeSequence)]),
        ],
        RuleId::TupleTypeSequence => seq![one(seq![sym(Symbol::Comma)]), one(seq![anytype()])],
        RuleId::ImportedVariableDeclaration => seq![
            one(seq![kw(Keyword::Let)]),
            optional_one(seq![kw(Keyword::Mutable)]),
            one(seq![ident()]),
            one(seq![nt(RuleId::ConTypeAssignment)]),
        ],
        RuleId::TypeDeclaration => seq![
            one(seq![kw(Keyword::Type)]),
            one(seq![ident()]),
            one(seq![nt(RuleId::ConTypeAssignment)]),
            one(seq![sym(Symbol::SemiColon)]),
        ],
        RuleId::TableDeclaration => seq![
            one(seq![kw(Keyword::Table)]),
            one(seq![ident()]),
            one(seq![nt(RuleId::ConTypeAssignment)]),
            one(seq![sym(Symbol::SemiColon)]),
        ],
        RuleId::ImportedTableDeclaration => seq![
            one(seq![kw(Keyword::Table)]),
            one(seq![ident()]),
            one(seq![nt(RuleId::ConTypeAssignment)]),
        ],
        RuleId::MemoryDeclaration => seq![
            one(seq![kw(Keyword::Memory)]),
            one(seq![ident()]),
            one(seq![nt(RuleId::ConTypeAssignment)]),
            one(seq![sym(Symbol::SemiColon)]),
        ],
        RuleId::ImportedMemoryDeclaration => seq![
            one(seq![kw(Keyword::Memory)]),
            one(seq![ident()]),
            one(seq![nt(RuleId::ConTypeAssignment)]),
        ],
        RuleId::ImportDeclaration => seq![
            one(seq![kw(Keyword::Import)]),
            one(
                seq![
                    nt(RuleId::ImportedFunctionDeclaration),
                    nt(RuleId::ImportedTableDeclaration),
                    nt(RuleId::ImportedMemoryDeclaration),
                    nt(RuleId::ImportedVariableDeclaration),
                ],
            ),
            one(seq![kw(Keyword::From)]),
            one(seq![strlit()]),
            one(seq![sym(Symbol::SemiColon)]),
        ],
        RuleId::ExportDeclaration => seq![
            one(seq![kw(Keyword::Export)]),
            optional_one(seq![strlit()]),
            one(
                seq![
                    nt(RuleId::FunctionDeclaration),
                    nt(RuleId::TableDeclaration),
                    nt(RuleId::MemoryDeclaration),
                    nt(RuleId::VariableDeclaration),
                    nt(RuleId::AliasedExportDeclaration),
                ],
            ),
        ],
        RuleId::AliasedExportDeclaration => seq![
            one(seq![ident()]),
            one(seq![kw(Keyword::As)]),
            one(seq![strlit()]),
            one(seq![sym(Symbol::SemiColon)]),
        ],
        RuleId::FunctionDeclaration => seq![
            one(seq![kw(Keyword::Function)]),
            one(seq![ident()]),
            one(seq![nt(RuleId::Signature)]),
            one(seq![nt(RuleId::FunctionBlock)]),
        ],
        RuleId::ImportedFunctionDeclaration => seq![
            one(seq![kw(Keyword::Function)]),
            one(seq![ident()]),
            one(seq![nt(RuleId::Signature)]),
        ],
        RuleId::TypeSignature => seq![
            one(seq![nt(RuleId::TypeParameter)]),
            optional_one(seq![nt(RuleId::ResultType)]),
        ],
        RuleId::TypeParameter => seq![
            one(seq![sym(Symbol::LeftParenthese)]),
            optional_one(seq![nt(RuleId::TypeParamSequence)]),
            one(seq![sym(Symbol::RightParenthese)]),
        ],
        RuleId::TypeParamSequence => seq![
            one(seq![anytype()]),
            optional_many(seq![nt(RuleId::ConTypeParamSequence)]),
        ],
        RuleId::ConTypeParamSequence => seq![one(seq![sym(Symbol::Comma)]), one(seq![anytype()])],
        RuleId::Signature => seq![
            one(seq![nt(RuleId::Parameter)]),
            optional_one(seq![nt(RuleId::ResultType)]),
        ],
        RuleId::Parameter => seq![
            one(seq![sym(Symbol::LeftParenthese)]),
            optional_one(seq![nt(RuleId::ParamSequence)]),
            one(seq![sym(Symbol::RightParenthese)]),
        ],
        RuleId::ParamSequence => seq![
            one(seq![nt(RuleId::ParamType)]),
            optional_many(seq![nt(RuleId::ConParamType)]),
        ],
        RuleId::ParamType => seq![
            one(seq![ident()]),
            one(seq![sym(Symbol::Colon)]),
            one(seq![nt(RuleId::TypeExpression)]),
        ],
        RuleId::ConParamType => seq![
            one(seq![sym(Symbol::Comma)]),
            one(seq![nt(RuleId::ParamType)]),
        ],
        RuleId::ResultType => seq![
            one(seq![sym(Symbol::RightArrow)]),
            one(seq![nt(RuleId::TypeExpression)]),
        ],
        RuleId::FunctionBlock => seq![
            one(seq![sym(Symbol::LeftBrace)]),
            optional_many(
                seq![
                    nt(RuleId::VariableDeclaration),
                    nt(RuleId::ExpressionStatement),
                    nt(RuleId::IfStatement),
                    nt(RuleId::WhileStatement),
                    nt(RuleId::ReturnStatement),
                    nt(RuleId::BreakStatement),
                    nt(RuleId::ContinueStatement),
                    nt(RuleId::FunctionBlock),
                    sym(Symbol::SemiColon),
                ],
            ),
            one(seq![sym(Symbol::RightBrace)]),
        ],
        RuleId::VariableDeclaration => seq![
            one(seq![kw(Keyword::Let)]),
            one(seq![nt(RuleId::MutableIdDeclaration), nt(RuleId::MultiIdDeclaration)]),
            one(seq![nt(RuleId::ConAssignmentExpression)]),
            one(seq![sym(Symbol::SemiColon)]),
        ],
        RuleId::MutableIdDeclaration => seq![
            optional_one(seq![kw(Keyword::Mutable)]),
            one(seq![ident()]),
        ],
        RuleId::MultiIdDeclaration => seq![
            one(seq![sym(Symbol::LeftParenthese)]),
            one(seq![nt(RuleId::MutableIdDeclaration)]),
            optional_many(seq![nt(RuleId::ConMultiIdDeclaration)]),
            one(seq![sym(Symbol::RightParenthese)]),
        ],
        RuleId::ConMultiIdDeclaration => seq![
            one(seq![sym(Symbol::Comma)]),
            one(seq![nt(RuleId::MutableIdDeclaration)]),
        ],
        RuleId::IfStatement => seq![
            one(seq![kw(Keyword::If)]),
            one(seq![nt(RuleId::GroupedOrTupleExpression)]),
            one(seq![nt(RuleId::FunctionBlock)]),
            optional_many(seq![nt(RuleId::ElseIfStatement)]),
            optional_one(seq![nt(RuleId::ElseStatement)]),
        ],
        RuleId::ElseIfStatement => seq![
            one(seq![kw(Keyword::ElseIf)]),
            one(seq![nt(RuleId::GroupedOrTupleExpression)]),
            one(seq![nt(RuleId::FunctionBlock)]),
        ],
        RuleId::ElseStatement => seq![
            one(seq![kw(Keyword::Else)]),
            one(seq![nt(RuleId::FunctionBlock)]),
        ],
        RuleId::WhileStatement => seq![
            one(seq![kw(Keyword::While)]),
            one(seq![nt(RuleId::GroupedOrTupleExpression)]),
            one(seq![nt(RuleId::FunctionBlock)]),
        ],
        RuleId::BreakStatement => seq![
            one(seq![kw(Keyword::Break)]),
            one(seq![sym(Symbol::SemiColon)]),
        ],
        RuleId::ContinueStatement => seq![
            one(seq![kw(Keyword::Cont)]),
            one(seq![sym(Symbol::SemiColon)]),
        ],
        RuleId::ReturnStatement => seq![
            one(seq![kw(Keyword::Return)]),
            optional_one(seq![nt(RuleId::Expression)]),
            one(seq![sym(Symbol::SemiColon)]),
        ],
        RuleId::ExpressionStatement => seq![
            one(seq![nt(RuleId::Expression)]),
            optional_one(seq![nt(RuleId::ConAssignmentExpression)]),
            one(seq![sym(Symbol::SemiColon)]),
        ],
        RuleId::ConAssignmentExpression => seq![
            one(seq![sym(Symbol::LeftArrow)]),
            one(seq![nt(RuleId::Expression)]),
        ],
        RuleId::Expression => seq![
            one(
                seq![
                    numlit(),
                    nt(RuleId::WithIdExpression),
                    nt(RuleId::TypeOfExpression),
                    nt(RuleId::OffsetExpression),
                    nt(RuleId::GroupedOrTupleExpression),
                    nt(RuleId::UnaryExpression),
                ],
            ),
            optional_many(seq![nt(RuleId::ConBinaryExpression)]),
            optional_one(seq![nt(RuleId::ConConditionalExpression)]),
        ],
        RuleId::WithIdExpression => seq![
            one(seq![ident()]),
            optional_many(seq![nt(RuleId::ConMemberExpression)]),
            optional_one(seq![nt(RuleId::FuncCallArg), nt(RuleId::ConCallIndirectExpression)]),
        ],
        RuleId::ConExprSequence => seq![
            one(seq![sym(Symbol::Comma)]),
            one(seq![nt(RuleId::Expression)]),
        ],
        RuleId::ConCallIndirectExpression => seq![
            one(seq![sym(Symbol::DoubleColon)]),
            one(seq![nt(RuleId::GenericArgument)]),
            one(seq![nt(RuleId::FuncCallArg)]),
        ],
        RuleId::FuncCallArg => seq![
            one(seq![sym(Symbol::LeftParenthese)]),
            optional_one(seq![nt(RuleId::FuncCallArgSequence)]),
            one(seq![sym(Symbol::RightParenthese)]),
        ],
        RuleId::FuncCallArgSequence => seq![
            one(seq![nt(RuleId::Expression)]),
            optional_many(seq![nt(RuleId::ConFuncCallArgSequence)]),
        ],
        RuleId::ConFuncCallArgSequence => seq![
            one(seq![sym(Symbol::Comma)]),
            one(seq![nt(RuleId::Expression)]),
        ],
        RuleId::UnaryExpression => seq![one(seq![unary()]), one(seq![nt(RuleId::Expression)])],
        RuleId::ConBinaryExpression => seq![one(seq![binary()]), one(seq![nt(RuleId::Expression)])],
        RuleId::ConConditionalExpression => seq![
            one(seq![sym(Symbol::Query)]),
            one(seq![nt(RuleId::Expression)]),
            one(seq![sym(Symbol::Colon)]),
            one(seq![nt(RuleId::Expression)]),
        ],
        RuleId::ConMemberExpression => seq![one(seq![sym(Symbol::Dot)]), one(seq![ident()])],
        RuleId::GroupedOrTupleExpression => seq![
            one(seq![sym(Symbol::LeftParenthese)]),
            one(seq![nt(RuleId::Expression)]),
            optional_many(seq![nt(RuleId::ConExprSequence)]),
            one(seq![sym(Symbol::RightParenthese)]),
        ],
        RuleId::TypeFunctionExpression => seq![
            one(seq![kw(Keyword::Function)]),
            one(seq![nt(RuleId::TypeSignature)]),
        ],
        RuleId::TypeOfExpression => seq![one(seq![kw(Keyword::TypeOf)]), one(seq![ident()])],
        RuleId::OffsetExpression => seq![
            one(seq![sym(Symbol::Asterisk)]),
            one(seq![numlit(), ident()]),
            optional_one(seq![nt(RuleId::GenericArgument)]),
            one(seq![sym(Symbol::LeftParenthese)]),
            one(seq![ident()]),
            one(seq![sym(Symbol::RightParenthese)]),
            optional_one(seq![nt(RuleId::ConCallIndirectExpression)]),
        ],
        RuleId::GenericArgument => seq![
            one(seq![sym(Symbol::LessThan)]),
            one(seq![nt(RuleId::TypeExpression)]),
            one(seq![sym(Symbol::GreaterThan)]),
        ],
        RuleId::TypeExpression => seq![
            one(
                seq![
                    ident(),
                    anytype(),
                    nt(RuleId::TypeFunctionExpression),
                    nt(RuleId::ParentheseTypeVariant),
                    nt(RuleId::TypeOfExpression),
                ],
            ),
        ],
    }
}

// ---------------------------------------------------------------------------
// the grammar rules, one wrapper struct per rule
// ---------------------------------------------------------------------------

/// A rule name declared in the source grammar that was never given a
/// pattern; it takes part in no parse.
pub struct GlobalDeclaration {
    pub pattern: GrammarPattern,
}

pub struct Program {
    pub pattern: GrammarPattern,
}

impl Program {
    pub fn new() -> (r: Self)
        ensures
            fresh_pattern(r.pattern, RuleId::Program),
    {
        let p = GrammarPattern::new(vec![
            GrammarQuantifier::OptionalMany(vec![
                nt(RuleId::FunctionDeclaration),
                nt(RuleId::TypeDeclaration),
                nt(RuleId::TableDeclaration),
                nt(RuleId::MemoryDeclaration),
                nt(RuleId::VariableDeclaration),
                nt(RuleId::ImportDeclaration),
                nt(RuleId::ExportDeclaration),
                sym(Symbol::SemiColon),
            ]),
        ]);
        proof {
            assert(p@.steps =~~= rule_pattern(RuleId::Program));
        }
        Program { pattern: p }
    }
}

pub struct ConTypeAssignment {
    pub pattern: GrammarPattern,
}

impl ConTypeAssignment {
    pub fn new() -> (r: Self)
        ensures
            fresh_pattern(r.pattern, RuleId::ConTypeAssignment),
    {
        let p = GrammarPattern::new(vec![
            GrammarQuantifier::One(vec![sym(Symbol::Assignment)]),
            GrammarQuantifier::One(vec![nt(RuleId::TypeExpression)]),
        ]);
        proof {
            assert(p@.steps =~~= rule_pattern(RuleId::ConTypeAssignment));
        }
        ConTypeAssignment { pattern: p }
    }
}

pub struct VecShorthandType {
    pub pattern: GrammarPattern,
}

impl VecShorthandType {
    pub fn new() -> (r: Self)
        ensures
            fresh_pattern(r.pattern, RuleId::VecShorthandType),
    {
        let p = GrammarPattern::new(vec![
            GrammarQuantifier::One(vec![sym(Symbol::SemiColon)]),
            GrammarQuantifier::One(vec![numlit()]),
        ]);
        proof {
            assert(p@.steps =~~= rule_pattern(RuleId::VecShorthandType));
        }
        VecShorthandType { pattern: p }
    }
}

pub struct ParentheseTypeVariant {
    pub pattern: GrammarPattern,
}

impl ParentheseTypeVariant {
    pub fn new() -> (r: Self)
        ensures
            fresh_pattern(r.pattern, RuleId::ParentheseTypeVariant),
    {
        let p = GrammarPattern::new(vec![
            GrammarQuantifier::One(vec![sym(Symbol::LeftParenthese)]),
            GrammarQuantifier::One(vec![
                nt(RuleId::ConRangeType),
                nt(RuleId::ConTupleType),
            ]),
            GrammarQuantifier::One(vec![sym(Symbol::RightParenthese)]),
        ]);
        proof {
            assert(p@.steps =~~= rule_pattern(RuleId::ParentheseTypeVariant));
        }
        ParentheseTypeVariant { pattern: p }
    }
}

pub struct ConRangeType {
    pub pattern: GrammarPattern,
}

impl ConRangeType {
    pub fn new() -> (r: Self)
        ensures
            fresh_pattern(r.pattern, RuleId::ConRangeType),
    {
        let p = GrammarPattern::new(vec![
            GrammarQuantifier::One(vec![numlit()]),
            GrammarQuantifier::One(vec![sym(Symbol::SemiColon)]),
            GrammarQuantifier::One(vec![anytype()]),
            GrammarQuantifier::One(vec![sym(Symbol::SemiColon)]),
            GrammarQuantifier::One(vec![numlit()]),
        ]);
        proof {
            assert(p@.steps =~~= rule_pattern(RuleId::ConRangeType));
        }
        ConRangeType { pattern: p }
    }
}

pub struct ConTupleType {
    pub pattern: GrammarPattern,
}

impl ConTupleType {
    pub fn new() -> (r: Self)
        ensures
            fresh_pattern(r.pattern, RuleId::ConTupleType),
    {
        let p = GrammarPattern::new(vec![
            GrammarQuantifier::One(vec![anytype()]),
            GrammarQuantifier::OptionalOne(vec![
                nt(RuleId::TupleTypeRecursiveSequence),
                nt(RuleId::VecShorthandType),
            ]),
        ]);
        proof {
            assert(p@.steps =~~= rule_pattern(RuleId::ConTupleType));
        }
        ConTupleType { pattern: p }
    }
}

pub struct TupleTypeRecursiveSequence {
    pub pattern: GrammarPattern,
}

impl TupleTypeRecursiveSequence {
    pub fn new() -> (r: Self)
        ensures
            fresh_pattern(r.pattern, RuleId::TupleTypeRecursiveSequence),
    {
        let p = GrammarPattern::new(vec![
            GrammarQuantifier::OptionalMany(vec![nt(RuleId::TupleTypeSequence)]),
        ]);
        proof {
            assert(p@.steps =~~= rule_pattern(RuleId::TupleTypeRecursiveSequence));
        }
        TupleTypeRecursiveSequence { pattern: p }
    }
}

pub struct TupleTypeSequence {
    pub pattern: GrammarPattern,
}

impl TupleTypeSequence {
    pub fn new() -> (r: Self)
        ensures
            fresh_pattern(r.pattern, RuleId::TupleTypeSequence),
    {
        let p = GrammarPattern::new(vec![
            GrammarQuantifier::One(vec![sym(Symbol::Comma)]),
            GrammarQuantifier::One(vec![anytype()]),
        ]);
        proof {
            assert(p@.steps =~~= rule_pattern(RuleId::TupleTypeSequence));
        }
        TupleTypeSequence { pattern: p }
    }
}

pub struct ImportedVariableDeclaration {
    pub pattern: GrammarPattern,
}

impl ImportedVariableDeclaration {
    pub fn new() -> (r: Self)
        ensures
            fresh_pattern(r.pattern, RuleId::ImportedVariableDeclaration),
    {
        let p = GrammarPattern::new(vec![
            GrammarQuantifier::One(vec![kw(Keyword::Let)]),
            GrammarQuantifier::OptionalOne(vec![kw(Keyword::Mutable)]),
            GrammarQuantifier::One(vec![ident()]),
            GrammarQuantifier::One(vec![nt(RuleId::ConTypeAssignment)]),
        ]);
        proof {
            assert(p@.steps =~~= rule_pattern(RuleId::ImportedVariableDeclaration));
        }
        ImportedVariableDeclaration { pattern: p }
    }
}

pub struct TypeDeclaration {
    pub pattern: GrammarPattern,
}

impl TypeDeclaration {
    pub fn new() -> (r: Self)
        ensures
            fresh_pattern(r.pattern, RuleId::TypeDeclaration),
    {
        let p = GrammarPattern::new(vec![
            GrammarQuantifier::One(vec![kw(Keyword::Type)]),
            GrammarQuantifier::One(vec![ident()]),
            GrammarQuantifier::One(vec![nt(RuleId::ConTypeAssignment)]),
            GrammarQuantifier::One(vec![sym(Symbol::SemiColon)]),
        ]);
        proof {
            assert(p@.steps =~~= rule_pattern(RuleId::TypeDeclaration));
        }
        TypeDeclaration { pattern: p }
    }
}

pub struct TableDeclaration {
    pub pattern: GrammarPattern,
}

impl TableDeclaration {
    pub fn new() -> (r: Self)
        ensures
            fresh_pattern(r.pattern, RuleId::TableDeclaration),
    {
        let p = GrammarPattern::new(vec![
            GrammarQuantifier::One(vec![kw(Keyword::Table)]),
            GrammarQuantifier::One(vec![ident()]),
            GrammarQuantifier::One(vec![nt(RuleId::ConTypeAssignment)]),
            GrammarQuantifier::One(vec![sym(Symbol::SemiColon)]),
        ]);
        proof {
            assert(p@.steps =~~= rule_pattern(RuleId::TableDeclaration));
        }
        TableDeclaration { pattern: p }
    }
}

pub struct ImportedTableDeclaration {
    pub pattern: GrammarPattern,
}

impl ImportedTableDeclaration {
    pub fn new() -> (r: Self)
        ensures
            fresh_pattern(r.pattern, RuleId::ImportedTableDeclaration),
    {
        let p = GrammarPattern::new(vec![
            GrammarQuantifier::One(vec![kw(Keyword::Table)]),
            GrammarQuantifier::One(vec![ident()]),
            GrammarQuantifier::One(vec![nt(RuleId::ConTypeAssignment)]),
        ]);
        proof {
            assert(p@.steps =~~= rule_pattern(RuleId::ImportedTableDeclaration));
        }
        ImportedTableDeclaration { pattern: p }
    }
}

pub struct MemoryDeclaration {
    pub pattern: GrammarPattern,
}

impl MemoryDeclaration {
    pub fn new() -> (r: Self)
        ensures
            fresh_pattern(r.pattern, RuleId::MemoryDeclaration),
    {
        let p = GrammarPattern::new(vec![
            GrammarQuantifier::One(vec![kw(Keyword::Memory)]),
            GrammarQuantifier::One(vec![ident()]),
            GrammarQuantifier::One(vec![nt(RuleId::ConTypeAssignment)]),
            GrammarQuantifier::One(vec![sym(Symbol::SemiColon)]),
        ]);
        proof {
            assert(p@.steps =~~= rule_pattern(RuleId::MemoryDeclaration));
        }
        MemoryDeclaration { pattern: p }
    }
}

pub struct ImportedMemoryDeclaration {
    pub pattern: GrammarPattern,
}

impl ImportedMemoryDeclaration {
    pub fn new() -> (r: Self)
        ensures
            fresh_pattern(r.pattern, RuleId::ImportedMemoryDeclaration),
    {
        let p = GrammarPattern::new(vec![
            GrammarQuantifier::One(vec![kw(Keyword::Memory)]),
            GrammarQuantifier::One(vec![ident()]),
            GrammarQuantifier::One(vec![nt(RuleId::ConTypeAssignment)]),
        ]);
        proof {
            assert(p@.steps =~~= rule_pattern(RuleId::ImportedMemoryDeclaration));
        }
        ImportedMemoryDeclaration { pattern: p }
    }
}

pub struct ImportDeclaration {
    pub pattern: GrammarPattern,
}

impl ImportDeclaration {
    pub fn new() -> (r: Self)
        ensures
            fresh_pattern(r.pattern, RuleId::ImportDeclaration),
    {
        let p = GrammarPattern::new(vec![
            GrammarQuantifier::One(vec![kw(Keyword::Import)]),
            GrammarQuantifier::One(vec![
                nt(RuleId::ImportedFunctionDeclaration),
                nt(RuleId::ImportedTableDeclaration),
                nt(RuleId::ImportedMemoryDeclaration),
                nt(RuleId::ImportedVariableDeclaration),
            ]),
            GrammarQuantifier::One(vec![kw(Keyword::From)]),
            GrammarQuantifier::One(vec![strlit()]),
            GrammarQuantifier::One(vec![sym(Symbol::SemiColon)]),
        ]);
        proof {
            assert(p@.steps =~~= rule_pattern(RuleId::ImportDeclaration));
        }
        ImportDeclaration { pattern: p }
    }
}

pub struct ExportDeclaration {
    pub pattern: GrammarPattern,
}

impl ExportDeclaration {
    pub fn new() -> (r: Self)
        ensures
            fresh_pattern(r.pattern, RuleId::ExportDeclaration),
    {
        let p = GrammarPattern::new(vec![
            GrammarQuantifier::One(vec![kw(Keyword::Export)]),
            GrammarQuantifier::OptionalOne(vec![strlit()]),
            GrammarQuantifier::One(vec![
                nt(RuleId::FunctionDeclaration),
                nt(RuleId::TableDeclaration),
                nt(RuleId::MemoryDeclaration),
                nt(RuleId::VariableDeclaration),
                nt(RuleId::AliasedExportDeclaration),
            ]),
        ]);
        proof {
            assert(p@.steps =~~= rule_pattern(RuleId::ExportDeclaration));
        }
        ExportDeclaration { pattern: p }
    }
}

pub struct AliasedExportDeclaration {
    pub pattern: GrammarPattern,
}

impl AliasedExportDeclaration {
    pub fn new() -> (r: Self)
        ensures
            fresh_pattern(r.pattern, RuleId::AliasedExportDeclaration),
    {
        let p = GrammarPattern::new(vec![
            GrammarQuantifier::One(vec![ident()]),
            GrammarQuantifier::One(vec![kw(Keyword::As)]),
            GrammarQuantifier::One(vec![strlit()]),
            GrammarQuantifier::One(vec![sym(Symbol::SemiColon)]),
        ]);
        proof {
            assert(p@.steps =~~= rule_pattern(RuleId::AliasedExportDeclaration));
        }
        AliasedExportDeclaration { pattern: p }
    }
}

pub struct FunctionDeclaration {
    pub pattern: GrammarPattern,
}

impl FunctionDeclaration {
    pub fn new() -> (r: Self)
        ensures
            fresh_pattern(r.pattern, RuleId::FunctionDeclaration),
    {
        let p = GrammarPattern::new(vec![
            GrammarQuantifier::One(vec![kw(Keyword::Function)]),
            GrammarQuantifier::One(vec![ident()]),
            GrammarQuantifier::One(vec![nt(RuleId::Signature)]),
            GrammarQuantifier::One(vec![nt(RuleId::FunctionBlock)]),
        ]);
        proof {
            assert(p@.steps =~~= rule_pattern(RuleId::FunctionDeclaration));
        }
        FunctionDeclaration { pattern: p }
    }
}

pub struct ImportedFunctionDeclaration {
    pub pattern: GrammarPattern,
}

impl ImportedFunctionDeclaration {
    pub fn new() -> (r: Self)
        ensures
            fresh_pattern(r.pattern, RuleId::ImportedFunctionDeclaration),
    {
        let p = GrammarPattern::new(vec![
            GrammarQuantifier::One(vec![kw(Keyword::Function)]),
            GrammarQuantifier::One(vec![ident()]),
            GrammarQuantifier::One(vec![nt(RuleId::Signature)]),
        ]);
        proof {
            assert(p@.steps =~~= rule_pattern(RuleId::ImportedFunctionDeclaration));
        }
        ImportedFunctionDeclaration { pattern: p }
    }
}

pub struct TypeSignature {
    pub pattern: GrammarPattern,
}

impl TypeSignature {
    pub fn new() -> (r: Self)
        ensures
            fresh_pattern(r.pattern, RuleId::TypeSignature),
    {
        let p = GrammarPattern::new(vec![
            GrammarQuantifier::One(vec![nt(RuleId::TypeParameter)]),
            GrammarQuantifier::OptionalOne(vec![nt(RuleId::ResultType)]),
        ]);
        proof {
            assert(p@.steps =~~= rule_pattern(RuleId::TypeSignature));
        }
        TypeSignature { pattern: p }
    }
}

pub struct TypeParameter {
    pub pattern: GrammarPattern,
}

impl TypeParameter {
    pub fn new() -> (r: Self)
        ensures
            fresh_pattern(r.pattern, RuleId::TypeParameter),
    {
        let p = GrammarPattern::new(vec![
            GrammarQuantifier::One(vec![sym(Symbol::LeftParenthese)]),
            GrammarQuantifier::OptionalOne(vec![nt(RuleId::TypeParamSequence)]),
            GrammarQuantifier::One(vec![sym(Symbol::RightParenthese)]),
        ]);
        proof {
            assert(p@.steps =~~= rule_pattern(RuleId::TypeParameter));
        }
        TypeParameter { pattern: p }
    }
}

pub struct TypeParamSequence {
    pub pattern: GrammarPattern,
}

impl TypeParamSequence {
    pub fn new() -> (r: Self)
        ensures
            fresh_pattern(r.pattern, RuleId::TypeParamSequence),
    {
        let p = GrammarPattern::new(vec![
            GrammarQuantifier::One(vec![anytype()]),
            GrammarQuantifier::OptionalMany(vec![nt(RuleId::ConTypeParamSequence)]),
        ]);
        proof {
            assert(p@.steps =~~= rule_pattern(RuleId::TypeParamSequence));
        }
        TypeParamSequence { pattern: p }
    }
}

pub struct ConTypeParamSequence {
    pub pattern: GrammarPattern,
}

impl ConTypeParamSequence {
    pub fn new() -> (r: Self)
        ensures
            fresh_pattern(r.pattern, RuleId::ConTypeParamSequence),
    {
        let p = GrammarPattern::new(vec![
            GrammarQuantifier::One(vec![sym(Symbol::Comma)]),
            GrammarQuantifier::One(vec![anytype()]),
        ]);
        proof {
            assert(p@.steps =~~= rule_pattern(RuleId::ConTypeParamSequence));
        }
        ConTypeParamSequence { pattern: p }
    }
}

pub struct Signature {
    pub pattern: GrammarPattern,
}

impl Signature {
    pub fn new() -> (r: Self)
        ensures
            fresh_pattern(r.pattern, RuleId::Signature),
    {
        let p = GrammarPattern::new(vec![
            GrammarQuantifier::One(vec![nt(RuleId::Parameter)]),
            GrammarQuantifier::OptionalOne(vec![nt(RuleId::ResultType)]),
        ]);
        proof {
            assert(p@.steps =~~= rule_pattern(RuleId::Signature));
        }
        Signature { pattern: p }
    }
}

pub struct Parameter {
    pub pattern: GrammarPattern,
}

impl Parameter {
    pub fn new() -> (r: Self)
        ensures
            fresh_pattern(r.pattern, RuleId::Parameter),
    {
        let p = GrammarPattern::new(vec![
            GrammarQuantifier::One(vec![sym(Symbol::LeftParenthese)]),
            GrammarQuantifier::OptionalOne(vec![nt(RuleId::ParamSequence)]),
            GrammarQuantifier::One(vec![sym(Symbol::RightParenthese)]),
        ]);
        proof {
            assert(p@.steps =~~= rule_pattern(RuleId::Parameter));
        }
        Parameter { pattern: p }
    }
}

pub struct ParamSequence {
    pub pattern: GrammarPattern,
}

impl ParamSequence {
    pub fn new() -> (r: Self)
        ensures
            fresh_pattern(r.pattern, RuleId::ParamSequence),
    {
        let p = GrammarPattern::new(vec![
            GrammarQuantifier::One(vec![nt(RuleId::ParamType)]),
            GrammarQuantifier::OptionalMany(vec![nt(RuleId::ConParamType)]),
        ]);
        proof {
            assert(p@.steps =~~= rule_pattern(RuleId::ParamSequence));
        }
        ParamSequence { pattern: p }
    }
}

pub struct ParamType {
    pub pattern: GrammarPattern,
}

impl ParamType {
    pub fn new() -> (r: Self)
        ensures
            fresh_pattern(r.pattern, RuleId::ParamType),
    {
        let p = GrammarPattern::new(vec![
            GrammarQuantifier::One(vec![ident()]),
            GrammarQuantifier::One(vec![sym(Symbol::Colon)]),
            GrammarQuantifier::One(vec![nt(RuleId::TypeExpression)]),
        ]);
        proof {
            assert(p@.steps =~~= rule_pattern(RuleId::ParamType));
        }
        ParamType { pattern: p }
    }
}

pub struct ConParamType {
    pub pattern: GrammarPattern,
}

impl ConParamType {
    pub fn new() -> (r: Self)
        ensures
            fresh_pattern(r.pattern, RuleId::ConParamType),
    {
        let p = GrammarPattern::new(vec![
            GrammarQuantifier::One(vec![sym(Symbol::Comma)]),
            GrammarQuantifier::One(vec![nt(RuleId::ParamType)]),
        ]);
        proof {
            assert(p@.steps =~~= rule_pattern(RuleId::ConParamType));
        }
        ConParamType { pattern: p }
    }
}

pub struct ResultType {
    pub pattern: GrammarPattern,
}

impl ResultType {
    pub fn new() -> (r: Self)
        ensures
            fresh_pattern(r.pattern, RuleId::ResultType),
    {
        let p = GrammarPattern::new(vec![
            GrammarQuantifier::One(vec![sym(Symbol::RightArrow)]),
            GrammarQuantifier::One(vec![nt(RuleId::TypeExpression)]),
        ]);
        proof {
            assert(p@.steps =~~= rule_pattern(RuleId::ResultType));
        }
        ResultType { pattern: p }
    }
}

pub struct FunctionBlock {
    pub pattern: GrammarPattern,
}

impl FunctionBlock {
    pub fn new() -> (r: Self)
        ensures
            fresh_pattern(r.pattern, RuleId::FunctionBlock),
    {
        let p = GrammarPattern::new(vec![
            GrammarQuantifier::One(vec![sym(Symbol::LeftBrace)]),
            GrammarQuantifier::OptionalMany(vec![
                nt(RuleId::VariableDeclaration),
                nt(RuleId::ExpressionStatement),
                nt(RuleId::IfStatement),
                nt(RuleId::WhileStatement),
                nt(RuleId::ReturnStatement),
                nt(RuleId::BreakStatement),
                nt(RuleId::ContinueStatement),
                nt(RuleId::FunctionBlock),
                sym(Symbol::SemiColon),
            ]),
            GrammarQuantifier::One(vec![sym(Symbol::RightBrace)]),
        ]);
        proof {
            assert(p@.steps =~~= rule_pattern(RuleId::FunctionBlock));
        }
        FunctionBlock { pattern: p }
    }
}

pub struct VariableDeclaration {
    pub pattern: GrammarPattern,
}

impl VariableDeclaration {
    pub fn new() -> (r: Self)
        ensures
            fresh_pattern(r.pattern, RuleId::VariableDeclaration),
    {
        let p = GrammarPattern::new(vec![
            GrammarQuantifier::One(vec![kw(Keyword::Let)]),
            GrammarQuantifier::One(vec![
                nt(RuleId::MutableIdDeclaration),
                nt(RuleId::MultiIdDeclaration),
            ]),
            GrammarQuantifier::One(vec![nt(RuleId::ConAssignmentExpression)]),
            GrammarQuantifier::One(vec![sym(Symbol::SemiColon)]),
        ]);
        proof {
            assert(p@.steps =~~= rule_pattern(RuleId::VariableDeclaration));
        }
        VariableDeclaration { pattern: p }
    }
}

pub struct MutableIdDeclaration {
    pub pattern: GrammarPattern,
}

impl MutableIdDeclaration {
    pub fn new() -> (r: Self)
        ensures
            fresh_pattern(r.pattern, RuleId::MutableIdDeclaration),
    {
        let p = GrammarPattern::new(vec![
            GrammarQuantifier::OptionalOne(vec![kw(Keyword::Mutable)]),
            GrammarQuantifier::One(vec![ident()]),
        ]);
        proof {
            assert(p@.steps =~~= rule_pattern(RuleId::MutableIdDeclaration));
        }
        MutableIdDeclaration { pattern: p }
    }
}

pub struct MultiIdDeclaration {
    pub pattern: GrammarPattern,
}

impl MultiIdDeclaration {
    pub fn new() -> (r: Self)
        ensures
            fresh_pattern(r.pattern, RuleId::MultiIdDeclaration),
    {
        let p = GrammarPattern::new(vec![
            GrammarQuantifier::One(vec![sym(Symbol::LeftParenthese)]),
            GrammarQuantifier::One(vec![nt(RuleId::MutableIdDeclaration)]),
            GrammarQuantifier::OptionalMany(vec![nt(RuleId::ConMultiIdDeclaration)]),
            GrammarQuantifier::One(vec![sym(Symbol::RightParenthese)]),
        ]);
        proof {
            assert(p@.steps =~~= rule_pattern(RuleId::MultiIdDeclaration));
        }
        MultiIdDeclaration { pattern: p }
    }
}

pub struct ConMultiIdDeclaration {
    pub pattern: GrammarPattern,
}

impl ConMultiIdDeclaration {
    pub fn new() -> (r: Self)
        ensures
            fresh_pattern(r.pattern, RuleId::ConMultiIdDeclaration),
    {
        let p = GrammarPattern::new(vec![
            GrammarQuantifier::One(vec![sym(Symbol::Comma)]),
            GrammarQuantifier::One(vec![nt(RuleId::MutableIdDeclaration)]),
        ]);
        proof {
            assert(p@.steps =~~= rule_pattern(RuleId::ConMultiIdDeclaration));
        }
        ConMultiIdDeclaration { pattern: p }
    }
}

pub struct IfStatement {
    pub pattern: GrammarPattern,
}

impl IfStatement {
    pub fn new() -> (r: Self)
        ensures
            fresh_pattern(r.pattern, RuleId::IfStatement),
    {
        let p = GrammarPattern::new(vec![
            GrammarQuantifier::One(vec![kw(Keyword::If)]),
            GrammarQuantifier::One(vec![nt(RuleId::GroupedOrTupleExpression)]),
            GrammarQuantifier::One(vec![nt(RuleId::FunctionBlock)]),
            GrammarQuantifier::OptionalMany(vec![nt(RuleId::ElseIfStatement)]),
            GrammarQuantifier::OptionalOne(vec![nt(RuleId::ElseStatement)]),
        ]);
        proof {
            assert(p@.steps =~~= rule_pattern(RuleId::IfStatement));
        }
        IfStatement { pattern: p }
    }
}

pub struct ElseIfStatement {
    pub pattern: GrammarPattern,
}

impl ElseIfStatement {
    pub fn new() -> (r: Self)
        ensures
            fresh_pattern(r.pattern, RuleId::ElseIfStatement),
    {
        let p = GrammarPattern::new(vec![
            GrammarQuantifier::One(vec![kw(Keyword::ElseIf)]),
            GrammarQuantifier::One(vec![nt(RuleId::GroupedOrTupleExpression)]),
            GrammarQuantifier::One(vec![nt(RuleId::FunctionBlock)]),
        ]);
        proof {
            assert(p@.steps =~~= rule_pattern(RuleId::ElseIfStatement));
        }
        ElseIfStatement { pattern: p }
    }
}

pub struct ElseStatement {
    pub pattern: GrammarPattern,
}

impl ElseStatement {
    pub fn new() -> (r: Self)
        ensures
            fresh_pattern(r.pattern, RuleId::ElseStatement),
    {
        let p = GrammarPattern::new(vec![
            GrammarQuantifier::One(vec![kw(Keyword::Else)]),
            GrammarQuantifier::One(vec![nt(RuleId::FunctionBlock)]),
        ]);
        proof {
            assert(p@.steps =~~= rule_pattern(RuleId::ElseStatement));
        }
        ElseStatement { pattern: p }
    }
}

pub struct WhileStatement {
    pub pattern: GrammarPattern,
}

impl WhileStatement {
    pub fn new() -> (r: Self)
        ensures
            fresh_pattern(r.pattern, RuleId::WhileStatement),
    {
        let p = GrammarPattern::new(vec![
            GrammarQuantifier::One(vec![kw(Keyword::While)]),
            GrammarQuantifier::One(vec![nt(RuleId::GroupedOrTupleExpression)]),
            GrammarQuantifier::One(vec![nt(RuleId::FunctionBlock)]),
        ]);
        proof {
            assert(p@.steps =~~= rule_pattern(RuleId::WhileStatement));
        }
        WhileStatement { pattern: p }
    }
}

pub struct BreakStatement {
    pub pattern: GrammarPattern,
}

impl BreakStatement {
    pub fn new() -> (r: Self)
        ensures
            fresh_pattern(r.pattern, RuleId::BreakStatement),
    {
        let p = GrammarPattern::new(vec![
            GrammarQuantifier::One(vec![kw(Keyword::Break)]),
            GrammarQuantifier::One(vec![sym(Symbol::SemiColon)]),
        ]);
        proof {
            assert(p@.steps =~~= rule_pattern(RuleId::BreakStatement));
        }
        BreakStatement { pattern: p }
    }
}

pub struct ContinueStatement {
    pub pattern: GrammarPattern,
}

impl ContinueStatement {
    pub fn new() -> (r: Self)
        ensures
            fresh_pattern(r.pattern, RuleId::ContinueStatement),
    {
        let p = GrammarPattern::new(vec![
            GrammarQuantifier::One(vec![kw(Keyword::Cont)]),
            GrammarQuantifier::One(vec![sym(Symbol::SemiColon)]),
        ]);
        proof {
            assert(p@.steps =~~= rule_pattern(RuleId::ContinueStatement));
        }
        ContinueStatement { pattern: p }
    }
}

pub struct ReturnStatement {
    pub pattern: GrammarPattern,
}

impl ReturnStatement {
    pub fn new() -> (r: Self)
        ensures
            fresh_pattern(r.pattern, RuleId::ReturnStatement),
    {
        let p = GrammarPattern::new(vec![
            GrammarQuantifier::One(vec![kw(Keyword::Return)]),
            GrammarQuantifier::OptionalOne(vec![nt(RuleId::Expression)]),
            GrammarQuantifier::One(vec![sym(Symbol::SemiColon)]),
        ]);
        proof {
            assert(p@.steps =~~= rule_pattern(RuleId::ReturnStatement));
        }
        ReturnStatement { pattern: p }
    }
}

pub struct ExpressionStatement {
    pub pattern: GrammarPattern,
}

impl ExpressionStatement {
    pub fn new() -> (r: Self)
        ensures
            fresh_pattern(r.pattern, RuleId::ExpressionStatement),
    {
        let p = GrammarPattern::new(vec![
            GrammarQuantifier::One(vec![nt(RuleId::Expression)]),
            GrammarQuantifier::OptionalOne(vec![nt(RuleId::ConAssignmentExpression)]),
            GrammarQuantifier::One(vec![sym(Symbol::SemiColon)]),
        ]);
        proof {
            assert(p@.steps =~~= rule_pattern(RuleId::ExpressionStatement));
        }
        ExpressionStatement { pattern: p }
    }
}

pub struct ConAssignmentExpression {
    pub pattern: GrammarPattern,
}

impl ConAssignmentExpression {
    pub fn new() -> (r: Self)
        ensures
            fresh_pattern(r.pattern, RuleId::ConAssignmentExpression),
    {
        let p = GrammarPattern::new(vec![
            GrammarQuantifier::One(vec![sym(Symbol::LeftArrow)]),
            GrammarQuantifier::One(vec![nt(RuleId::Expression)]),
        ]);
        proof {
            assert(p@.steps =~~= rule_pattern(RuleId::ConAssignmentExpression));
        }
        ConAssignmentExpression { pattern: p }
    }
}

pub struct Expression {
    pub pattern: GrammarPattern,
}

impl Expression {
    pub fn new() -> (r: Self)
        ensures
            fresh_pattern(r.pattern, RuleId::Expression),
    {
        let p = GrammarPattern::new(vec![
            GrammarQuantifier::One(vec![
                numlit(),
                nt(RuleId::WithIdExpression),
                nt(RuleId::TypeOfExpression),
                nt(RuleId::OffsetExpression),
                nt(RuleId::GroupedOrTupleExpression),
                nt(RuleId::UnaryExpression),
            ]),
            GrammarQuantifier::OptionalMany(vec![nt(RuleId::ConBinaryExpression)]),
            GrammarQuantifier::OptionalOne(vec![nt(RuleId::ConConditionalExpression)]),
        ]);
        proof {
            assert(p@.steps =~~= rule_pattern(RuleId::Expression));
        }
        Expression { pattern: p }
    }
}

pub struct WithIdExpression {
    pub pattern: GrammarPattern,
}

impl WithIdExpression {
    pub fn new() -> (r: Self)
        ensures
            fresh_pattern(r.pattern, RuleId::WithIdExpression),
    {
        let p = GrammarPattern::new(vec![
            GrammarQuantifier::One(vec![ident()]),
            GrammarQuantifier::OptionalMany(vec![nt(RuleId::ConMemberExpression)]),
            GrammarQuantifier::OptionalOne(vec![
                nt(RuleId::FuncCallArg),
                nt(RuleId::ConCallIndirectExpression),
            ]),
        ]);
        proof {
            assert(p@.steps =~~= rule_pattern(RuleId::WithIdExpression));
        }
        WithIdExpression { pattern: p }
    }
}

pub struct ConExprSequence {
    pub pattern: GrammarPattern,
}

impl ConExprSequence {
    pub fn new() -> (r: Self)
        ensures
            fresh_pattern(r.pattern, RuleId::ConExprSequence),
    {
        let p = GrammarPattern::new(vec![
            GrammarQuantifier::One(vec![sym(Symbol::Comma)]),
            GrammarQuantifier::One(vec![nt(RuleId::Expression)]),
        ]);
        proof {
            assert(p@.steps =~~= rule_pattern(RuleId::ConExprSequence));
        }
        ConExprSequence { pattern: p }
    }
}

pub struct ConCallIndirectExpression {
    pub pattern: GrammarPattern,
}

impl ConCallIndirectExpression {
    pub fn new() -> (r: Self)
        ensures
            fresh_pattern(r.pattern, RuleId::ConCallIndirectExpression),
    {
        let p = GrammarPattern::new(vec![
            GrammarQuantifier::One(vec![sym(Symbol::DoubleColon)]),
            GrammarQuantifier::One(vec![nt(RuleId::GenericArgument)]),
            GrammarQuantifier::One(vec![nt(RuleId::FuncCallArg)]),
        ]);
        proof {
            assert(p@.steps =~~= rule_pattern(RuleId::ConCallIndirectExpression));
        }
        ConCallIndirectExpression { pattern: p }
    }
}

pub struct FuncCallArg {
    pub pattern: GrammarPattern,
}

impl FuncCallArg {
    pub fn new() -> (r: Self)
        ensures
            fresh_pattern(r.pattern, RuleId::FuncCallArg),
    {
        let p = GrammarPattern::new(vec![
            GrammarQuantifier::One(vec![sym(Symbol::LeftParenthese)]),
            GrammarQuantifier::OptionalOne(vec![nt(RuleId::FuncCallArgSequence)]),
            GrammarQuantifier::One(vec![sym(Symbol::RightParenthese)]),
        ]);
        proof {
            assert(p@.steps =~~= rule_pattern(RuleId::FuncCallArg));
        }
        FuncCallArg { pattern: p }
    }
}

pub struct FuncCallArgSequence {
    pub pattern: GrammarPattern,
}

impl FuncCallArgSequence {
    pub fn new() -> (r: Self)
        ensures
            fresh_pattern(r.pattern, RuleId::FuncCallArgSequence),
    {
        let p = GrammarPattern::new(vec![
            GrammarQuantifier::One(vec![nt(RuleId::Expression)]),
            GrammarQuantifier::OptionalMany(vec![nt(RuleId::ConFuncCallArgSequence)]),
        ]);
        proof {
            assert(p@.steps =~~= rule_pattern(RuleId::FuncCallArgSequence));
        }
        FuncCallArgSequence { pattern: p }
    }
}

pub struct ConFuncCallArgSequence {
    pub pattern: GrammarPattern,
}

impl ConFuncCallArgSequence {
    pub fn new() -> (r: Self)
        ensures
            fresh_pattern(r.pattern, RuleId::ConFuncCallArgSequence),
    {
        let p = GrammarPattern::new(vec![
            GrammarQuantifier::One(vec![sym(Symbol::Comma)]),
            GrammarQuantifier::One(vec![nt(RuleId::Expression)]),
        ]);
        proof {
            assert(p@.steps =~~= rule_pattern(RuleId::ConFuncCallArgSequence));
        }
        ConFuncCallArgSequence { pattern: p }
    }
}

pub struct UnaryExpression {
    pub pattern: GrammarPattern,
}

impl UnaryExpression {
    pub fn new() -> (r: Self)
        ensures
            fresh_pattern(r.pattern, RuleId::UnaryExpression),
    {
        let p = GrammarPattern::new(vec![
            GrammarQuantifier::One(vec![unary()]),
            GrammarQuantifier::One(vec![nt(RuleId::Expression)]),
        ]);
        proof {
            assert(p@.steps =~~= rule_pattern(RuleId::UnaryExpression));
        }
        UnaryExpression { pattern: p }
    }
}

pub struct ConBinaryExpression {
    pub pattern: GrammarPattern,
}

impl ConBinaryExpression {
    pub fn new() -> (r: Self)
        ensures
            fresh_pattern(r.pattern, RuleId::ConBinaryExpression),
    {
        let p = GrammarPattern::new(vec![
            GrammarQuantifier::One(vec![binary()]),
            GrammarQuantifier::One(vec![nt(RuleId::Expression)]),
        ]);
        proof {
            assert(p@.steps =~~= rule_pattern(RuleId::ConBinaryExpression));
        }
        ConBinaryExpression { pattern: p }
    }
}

pub struct ConConditionalExpression {
    pub pattern: GrammarPattern,
}

impl ConConditionalExpression {
    pub fn new() -> (r: Self)
        ensures
            fresh_pattern(r.pattern, RuleId::ConConditionalExpression),
    {
        let p = GrammarPattern::new(vec![
            GrammarQuantifier::One(vec![sym(Symbol::Query)]),
            GrammarQuantifier::One(vec![nt(RuleId::Expression)]),
            GrammarQuantifier::One(vec![sym(Symbol::Colon)]),
            GrammarQuantifier::One(vec![nt(RuleId::Expression)]),
        ]);
        proof {
            assert(p@.steps =~~= rule_pattern(RuleId::ConConditionalExpression));
        }
        ConConditionalExpression { pattern: p }
    }
}

pub struct ConMemberExpression {
    pub pattern: GrammarPattern,
}

impl ConMemberExpression {
    pub fn new() -> (r: Self)
        ensures
            fresh_pattern(r.pattern, RuleId::ConMemberExpression),
    {
        let p = GrammarPattern::new(vec![
            GrammarQuantifier::One(vec![sym(Symbol::Dot)]),
            GrammarQuantifier::One(vec![ident()]),
        ]);
        proof {
            assert(p@.steps =~~= rule_pattern(RuleId::ConMemberExpression));
        }
        ConMemberExpression { pattern: p }
    }
}

pub struct GroupedOrTupleExpression {
    pub pattern: GrammarPattern,
}

impl GroupedOrTupleExpression {
    pub fn new() -> (r: Self)
        ensures
            fresh_pattern(r.pattern, RuleId::GroupedOrTupleExpression),
    {
        let p = GrammarPattern::new(vec![
            GrammarQuantifier::One(vec![sym(Symbol::LeftParenthese)]),
            GrammarQuantifier::One(vec![nt(RuleId::Expression)]),
            GrammarQuantifier::OptionalMany(vec![nt(RuleId::ConExprSequence)]),
            GrammarQuantifier::One(vec![sym(Symbol::RightParenthese)]),
        ]);
        proof {
            assert(p@.steps =~~= rule_pattern(RuleId::GroupedOrTupleExpression));
        }
        GroupedOrTupleExpression { pattern: p }
    }
}

pub struct TypeFunctionExpression {
    pub pattern: GrammarPattern,
}

impl TypeFunctionExpression {
    pub fn new() -> (r: Self)
        ensures
            fresh_pattern(r.pattern, RuleId::TypeFunctionExpression),
    {
        let p = GrammarPattern::new(vec![
            GrammarQuantifier::One(vec![kw(Keyword::Function)]),
            GrammarQuantifier::One(vec![nt(RuleId::TypeSignature)]),
        ]);
        proof {
            assert(p@.steps =~~= rule_pattern(RuleId::TypeFunctionExpression));
        }
        TypeFunctionExpression { pattern: p }
    }
}

pub struct TypeOfExpression {
    pub pattern: GrammarPattern,
}

impl TypeOfExpression {
    pub fn new() -> (r: Self)
        ensures
            fresh_pattern(r.pattern, RuleId::TypeOfExpression),
    {
        let p = GrammarPattern::new(vec![
            GrammarQuantifier::One(vec![kw(Keyword::TypeOf)]),
            GrammarQuantifier::One(vec![ident()]),
        ]);
        proof {
            assert(p@.steps =~~= rule_pattern(RuleId::TypeOfExpression));
        }
        TypeOfExpression { pattern: p }
    }
}

pub struct OffsetExpression {
    pub pattern: GrammarPattern,
}

impl OffsetExpression {
    pub fn new() -> (r: Self)
        ensures
            fresh_pattern(r.pattern, RuleId::OffsetExpression),
    {
        let p = GrammarPattern::new(vec![
            GrammarQuantifier::One(vec![sym(Symbol::Asterisk)]),
            GrammarQuantifier::One(vec![
                numlit(),
                ident(),
            ]),
            GrammarQuantifier::OptionalOne(vec![nt(RuleId::GenericArgument)]),
            GrammarQuantifier::One(vec![sym(Symbol::LeftParenthese)]),
            GrammarQuantifier::One(vec![ident()]),
            GrammarQuantifier::One(vec![sym(Symbol::RightParenthese)]),
            GrammarQuantifier::OptionalOne(vec![nt(RuleId::ConCallIndirectExpression)]),
        ]);
        proof {
            assert(p@.steps =~~= rule_pattern(RuleId::OffsetExpression));
        }
        OffsetExpression { pattern: p }
    }
}

pub struct GenericArgument {
    pub pattern: GrammarPattern,
}

impl GenericArgument {
    pub fn new() -> (r: Self)
        ensures
            fresh_pattern(r.pattern, RuleId::GenericArgument),
    {
        let p = GrammarPattern::new(vec![
            GrammarQuantifier::One(vec![sym(Symbol::LessThan)]),
            GrammarQuantifier::One(vec![nt(RuleId::TypeExpression)]),
            GrammarQuantifier::One(vec![sym(Symbol::GreaterThan)]),
        ]);
        proof {
            assert(p@.steps =~~= rule_pattern(RuleId::GenericArgument));
        }
        GenericArgument { pattern: p }
    }
}

pub struct TypeExpression {
    pub pattern: GrammarPattern,
}

impl TypeExpression {
    pub fn new() -> (r: Self)
        ensures
            fresh_pattern(r.pattern, RuleId::TypeExpression),
    {
        let p = GrammarPattern::new(vec![
            GrammarQuantifier::One(vec![
                ident(),
                anytype(),
                nt(RuleId::TypeFunctionExpression),
                nt(RuleId::ParentheseTypeVariant),
                nt(RuleId::TypeOfExpression),
            ]),
        ]);
        proof {
            assert(p@.steps =~~= rule_pattern(RuleId::TypeExpression));
        }
        TypeExpression { pattern: p }
    }
}


} // verus!
