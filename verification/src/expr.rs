//! The expression parser: from tokens to an expression tree.
pub mod error;
pub mod grammar;
pub mod laws;

use crate::syntax_tree::expr::binary::{BinaryExpr, BinaryOperator, BinaryOperatorVariant};
use crate::syntax_tree::expr::identifier::Identifier;
use crate::syntax_tree::expr::literal::{Literal, LiteralIds, LiteralVariant, NumberLiteral};
use crate::syntax_tree::expr::unary::{UnaryExpr, UnaryOperator};
use crate::syntax_tree::expr::{Expr, ExprVariant, ExprView};
use crate::token::{BriseContext, Token, TokenVariant, TokenView};
use error::{ExprError, ExprErrorVariant, ExprErrorView};
use grammar::{after, last_after, parse_expression, Parsed};
use std::collections::VecDeque;
use vstd::prelude::*;

verus! {

/// Token sequences that the parser takes: those without formatted strings,
/// which have no expression form yet.
pub open spec fn parseable(tokens: Seq<TokenView>) -> bool {
    forall|i: int| 0 <= i < tokens.len() ==> !(#[trigger] tokens[i].variant is FormattedString)
}

/// Whether `r` is the outcome `expected`, seen as plain values.
pub open spec fn outcome(
    r: Result<Expr, ExprError>,
    expected: Result<ExprView, ExprErrorView>,
) -> bool {
    match expected {
        Ok(expr) => r matches Ok(found) && found@ == expr,
        Err(error) => r matches Err(found) && found@ == error,
    }
}

/// What is left of a sequence without formatted strings holds none.
pub proof fn lemma_parseable_rest(tokens: Seq<TokenView>, n: nat)
    requires
        parseable(tokens),
        n <= tokens.len(),
    ensures
        parseable(tokens.skip(n as int)),
{
}

/// A recursive-descent parser over a queue of tokens, which it drains from
/// the front: a token that was read is gone.
#[derive(Debug)]
pub struct ExprParser<'a> {
    input: &'a mut VecDeque<Token>,
    last_context: BriseContext,
    ids: LiteralIds,
}

impl<'a> ExprParser<'a> {
    /// The tokens that are left to read.
    spec fn tokens(&self) -> Seq<TokenView> {
        self.input.deep_view()
    }

    /// How the parser `next` follows from the parser `before` once `consumed`
    /// tokens were read: it lacks those tokens, remembers the position of the
    /// last of them, and gives the identity `ids` to the next number literal.
    spec fn moved(before: Self, consumed: nat, ids: usize, next: Self) -> bool {
        &&& consumed <= before.tokens().len()
        &&& next.tokens() == before.tokens().skip(consumed as int)
        &&& next.last_context@ == last_after(before.tokens(), consumed, before.last_context@)
        &&& next.ids@ == ids
    }

    /// What a step of the parser leaves behind: `next` follows from `before`
    /// as `parsed` says, and the step hands back `r`.
    spec fn stepped(
        before: Self,
        parsed: Parsed,
        next: Self,
        r: Result<Expr, ExprError>,
    ) -> bool {
        &&& Self::moved(before, parsed.consumed, parsed.ids, next)
        &&& outcome(r, parsed.result)
    }

    /// A parser that read nothing is where it was.
    proof fn lemma_still(a: Self)
        ensures
            Self::moved(a, 0, a.ids@, a),
    {
        assert(a.tokens().skip(0) =~= a.tokens());
    }

    /// What is left once `n` tokens were read.
    proof fn lemma_rest(a: Self, n: nat, ids: usize, b: Self)
        requires
            Self::moved(a, n, ids, b),
        ensures
            b.tokens() == after(a.tokens(), n),
            b.tokens().len() == a.tokens().len() - n,
            b.tokens().len() > 0 ==> n < a.tokens().len() && b.tokens()[0] == a.tokens()[n as int],
            parseable(a.tokens()) ==> parseable(b.tokens()),
    {
        if parseable(a.tokens()) {
            lemma_parseable_rest(a.tokens(), n);
        }
    }

    /// Two steps in a row read the tokens of both.
    proof fn lemma_moved_twice(
        a: Self,
        first: nat,
        mid_ids: usize,
        b: Self,
        second: nat,
        ids: usize,
        c: Self,
    )
        requires
            Self::moved(a, first, mid_ids, b),
            Self::moved(b, second, ids, c),
        ensures
            Self::moved(a, first + second, ids, c),
            first + second <= a.tokens().len(),
    {
        assert(a.tokens().skip(first as int).skip(second as int) =~= a.tokens().skip(
            (first + second) as int,
        ));
    }

    /// Whether the parser takes `tokens`: whether none of them is a formatted
    /// string.
    pub fn accepts(tokens: &VecDeque<Token>) -> (r: bool)
        ensures
            r == parseable(tokens.deep_view()),
    {
        let mut i: usize = 0;
        while i < tokens.len()
            invariant
                i <= tokens.len(),
                forall|k: int|
                    0 <= k < i ==> !(#[trigger] tokens.deep_view()[k].variant is FormattedString),
            decreases tokens.len() - i,
        {
            if matches!(tokens[i].variant(), TokenVariant::FormattedString(_)) {
                assert(tokens.deep_view()[i as int].variant is FormattedString);
                return false;
            }
            i += 1;
        }
        true
    }

    /// Parses the expression at the front of `tokens` and removes the tokens
    /// it is made of. Number literals are numbered from zero.
    ///
    /// On an error the tokens that were read before it was found are removed
    /// too.
    pub fn parse(tokens: &'a mut VecDeque<Token>) -> (r: Result<Expr, ExprError>)
        requires
            parseable(old(tokens).deep_view()),
        ensures
            ({
                let parsed = parse_expression(old(tokens).deep_view(), 0);
                &&& final(tokens).deep_view() == after(old(tokens).deep_view(), parsed.consumed)
                &&& outcome(r, parsed.result)
            }),
    {
        let mut ids = LiteralIds::new();
        Self::parse_with_ids(tokens, &mut ids)
    }

    /// Parses the expression at the front of `tokens` and removes the tokens
    /// it is made of. Number literals take their identities from `ids`.
    ///
    /// On an error the tokens that were read before it was found are removed
    /// too, and the literals among them have used up their identities.
    pub fn parse_with_ids(tokens: &'a mut VecDeque<Token>, ids: &mut LiteralIds) -> (r: Result<
        Expr,
        ExprError,
    >)
        requires
            parseable(old(tokens).deep_view()),
        ensures
            ({
                let parsed = parse_expression(old(tokens).deep_view(), old(ids)@);
                &&& final(tokens).deep_view() == after(old(tokens).deep_view(), parsed.consumed)
                &&& final(ids)@ == parsed.ids
                &&& outcome(r, parsed.result)
            }),
    {
        let mut parser = Self::new(tokens, *ids);
        let ghost start = parser;
        let r = parser.parse_input();
        proof {
            let parsed = parse_expression(old(tokens).deep_view(), old(ids)@);
            Self::lemma_rest(start, parsed.consumed, parsed.ids, parser);
        }
        *ids = parser.ids;
        r
    }

    fn new(input: &'a mut VecDeque<Token>, ids: LiteralIds) -> (parser: Self)
        ensures
            parser.tokens() == old(input).deep_view(),
            parser.last_context@ == (crate::token::ContextView { file: None, line: 1, col: 1 }),
            parser.ids == ids,
            *final(parser.input) == *final(input),
    {
        Self { input, last_context: BriseContext::default(), ids }
    }

    /// Whether a token is left to read.
    fn has_next(&self) -> (r: bool)
        ensures
            r == (self.tokens().len() > 0),
    {
        self.input.len() > 0
    }

    /// The token that will be read next.
    fn next(&self) -> (token: &Token)
        requires
            self.tokens().len() > 0,
        ensures
            token@ == self.tokens()[0],
    {
        &self.input[0]
    }

    /// Takes the token at the front of the queue and remembers where it
    /// stood.
    fn pop(&mut self) -> (token: Token)
        requires
            old(self).tokens().len() > 0,
        ensures
            token@ == old(self).tokens()[0],
            Self::moved(*old(self), 1, old(self).ids@, *final(self)),
            final(self).ids == old(self).ids,
            final(self).last_context@ == token@.context,
            *final(final(self).input) == *final(old(self).input),
    {
        let token = self.input.pop_front().unwrap();
        self.last_context = token.context().clone();
        assert(self.input.deep_view() =~= old(self).input.deep_view().skip(1));
        token
    }

    #[verifier::spinoff_prover]
    fn parse_input(&mut self) -> (r: Result<Expr, ExprError>)
        requires
            parseable(old(self).tokens()),
        ensures
            Self::stepped(
                *old(self),
                grammar::parse_or(
                    old(self).tokens(),
                    old(self).last_context@,
                    old(self).ids@,
                ),
                *final(self),
                r,
            ),
            *final(final(self).input) == *final(old(self).input),
        decreases old(self).tokens().len(), 12nat,
    {
        self.parse_or()
    }

    #[verifier::spinoff_prover]
    fn parse_or(&mut self) -> (r: Result<Expr, ExprError>)
        requires
            parseable(old(self).tokens()),
        ensures
            Self::stepped(
                *old(self),
                grammar::parse_or(
                    old(self).tokens(),
                    old(self).last_context@,
                    old(self).ids@,
                ),
                *final(self),
                r,
            ),
            *final(final(self).input) == *final(old(self).input),
        decreases old(self).tokens().len(), 11nat,
    {
        proof {
            reveal(grammar::parse_or);
        }
        let ghost start = *self;
        let ghost left = grammar::parse_and(start.tokens(), start.last_context@, start.ids@);
        let expr = match self.parse_and() {
            Ok(expr) => expr,
            Err(error) => return Err(error),
        };
        let ghost middle = *self;
        proof {
            Self::lemma_rest(start, left.consumed, left.ids, middle);
        }
        if self.has_next() && matches!(self.next().variant(), TokenVariant::BarBar) {
            let operator_token = self.pop();
            let ghost popped = *self;
            let ghost right = grammar::parse_or(
                popped.tokens(),
                popped.last_context@,
                popped.ids@,
            );
            proof {
                Self::lemma_moved_twice(
                    start,
                    left.consumed,
                    left.ids,
                    middle,
                    1,
                    left.ids,
                    popped,
                );
            }
            let right_expr = match self.parse_or() {
                Ok(right_expr) => right_expr,
                Err(error) => {
                    proof {
                        Self::lemma_moved_twice(
                            start,
                            left.consumed + 1,
                            left.ids,
                            popped,
                            right.consumed,
                            right.ids,
                            *self,
                        );
                    }
                    return Err(error);
                },
            };
            proof {
                Self::lemma_moved_twice(
                    start,
                    left.consumed + 1,
                    left.ids,
                    popped,
                    right.consumed,
                    right.ids,
                    *self,
                );
            }
            let binary_operator = BinaryOperator::new(
                BinaryOperatorVariant::Or,
                BriseContext::from(operator_token),
            );
            let binary_expr = BinaryExpr::new(expr, binary_operator, right_expr);
            return Ok(Expr::from(binary_expr));
        }
        Ok(expr)
    }

    #[verifier::spinoff_prover]
    fn parse_and(&mut self) -> (r: Result<Expr, ExprError>)
        requires
            parseable(old(self).tokens()),
        ensures
            Self::stepped(
                *old(self),
                grammar::parse_and(
                    old(self).tokens(),
                    old(self).last_context@,
                    old(self).ids@,
                ),
                *final(self),
                r,
            ),
            *final(final(self).input) == *final(old(self).input),
        decreases old(self).tokens().len(), 10nat,
    {
        proof {
            reveal(grammar::parse_and);
        }
        let ghost start = *self;
        let ghost left = grammar::parse_equality(start.tokens(), start.last_context@, start.ids@);
        let expr = match self.parse_equality() {
            Ok(expr) => expr,
            Err(error) => return Err(error),
        };
        let ghost middle = *self;
        proof {
            Self::lemma_rest(start, left.consumed, left.ids, middle);
        }
        if self.has_next() && matches!(self.next().variant(), TokenVariant::AmpersandAmpersand) {
            let operator_token = self.pop();
            let ghost popped = *self;
            let ghost right = grammar::parse_and(
                popped.tokens(),
                popped.last_context@,
                popped.ids@,
            );
            proof {
                Self::lemma_moved_twice(
                    start,
                    left.consumed,
                    left.ids,
                    middle,
                    1,
                    left.ids,
                    popped,
                );
            }
            let right_expr = match self.parse_and() {
                Ok(right_expr) => right_expr,
                Err(error) => {
                    proof {
                        Self::lemma_moved_twice(
                            start,
                            left.consumed + 1,
                            left.ids,
                            popped,
                            right.consumed,
                            right.ids,
                            *self,
                        );
                    }
                    return Err(error);
                },
            };
            proof {
                Self::lemma_moved_twice(
                    start,
                    left.consumed + 1,
                    left.ids,
                    popped,
                    right.consumed,
                    right.ids,
                    *self,
                );
            }
            let binary_operator = BinaryOperator::new(
                BinaryOperatorVariant::And,
                BriseContext::from(operator_token),
            );
            let binary_expr = BinaryExpr::new(expr, binary_operator, right_expr);
            return Ok(Expr::from(binary_expr));
        }
        Ok(expr)
    }

    #[verifier::spinoff_prover]
    fn parse_equality(&mut self) -> (r: Result<Expr, ExprError>)
        requires
            parseable(old(self).tokens()),
        ensures
            Self::stepped(
                *old(self),
                grammar::parse_equality(
                    old(self).tokens(),
                    old(self).last_context@,
                    old(self).ids@,
                ),
                *final(self),
                r,
            ),
            *final(final(self).input) == *final(old(self).input),
        decreases old(self).tokens().len(), 9nat,
    {
        proof {
            reveal(grammar::parse_equality);
        }
        let ghost start = *self;
        let ghost left = grammar::parse_comparison(start.tokens(), start.last_context@, start.ids@);
        let expr = match self.parse_comparison() {
            Ok(expr) => expr,
            Err(error) => return Err(error),
        };
        let ghost middle = *self;
        proof {
            Self::lemma_rest(start, left.consumed, left.ids, middle);
        }
        let r = self.equality_tail(expr);
        proof {
            let tail = grammar::equality_tail(middle.tokens(), expr@, middle.ids@);
            Self::lemma_moved_twice(
                start,
                left.consumed,
                left.ids,
                middle,
                tail.consumed,
                tail.ids,
                *self,
            );
        }
        r
    }

    /// Reads the operators and right operands that follow the left operand
    /// `left`, and joins each to what was read before it.
    #[verifier::spinoff_prover]
    fn equality_tail(&mut self, left: Expr) -> (r: Result<Expr, ExprError>)
        requires
            parseable(old(self).tokens()),
        ensures
            Self::stepped(
                *old(self),
                grammar::equality_tail(
                    old(self).tokens(),
                    left@,
                    old(self).ids@,
                ),
                *final(self),
                r,
            ),
            *final(final(self).input) == *final(old(self).input),
        decreases old(self).tokens().len(), 8nat,
    {
        proof {
            reveal(grammar::equality_tail);
        }
        let ghost start = *self;
        let ghost whole = grammar::equality_tail(start.tokens(), left@, start.ids@);
        let ghost taken: nat = 0;
        let mut expr = left;
        proof {
            Self::lemma_still(start);
        }
        while self.has_next() && self.next().is_equality()
            invariant
                start == *old(self),
                whole == grammar::equality_tail(start.tokens(), left@, start.ids@),
                parseable(start.tokens()),
                parseable(self.tokens()),
                Self::moved(start, taken, self.ids@, *self),
                whole == grammar::shifted(
                    grammar::equality_tail(self.tokens(), expr@, self.ids@),
                    taken,
                ),
                *final(self.input) == *final(old(self).input),
            decreases self.tokens().len(),
        {
            proof {
                reveal(grammar::equality_tail);
            }
            let ghost round = *self;
            let operator_token = self.pop();
            let ghost popped = *self;
            let ghost right = grammar::parse_comparison(
                popped.tokens(),
                popped.last_context@,
                popped.ids@,
            );
            proof {
                Self::lemma_rest(round, 1, round.ids@, popped);
                Self::lemma_moved_twice(start, taken, round.ids@, round, 1, round.ids@, popped);
            }
            let right_expr = match self.parse_comparison() {
                Ok(right_expr) => right_expr,
                Err(error) => {
                    proof {
                        Self::lemma_moved_twice(
                            start,
                            taken + 1,
                            popped.ids@,
                            popped,
                            right.consumed,
                            right.ids,
                            *self,
                        );
                    }
                    return Err(error);
                },
            };
            proof {
                Self::lemma_moved_twice(
                    start,
                    taken + 1,
                    popped.ids@,
                    popped,
                    right.consumed,
                    right.ids,
                    *self,
                );
                Self::lemma_moved_twice(
                    round,
                    1,
                    round.ids@,
                    popped,
                    right.consumed,
                    right.ids,
                    *self,
                );
                Self::lemma_rest(start, taken + 1 + right.consumed, right.ids, *self);
                taken = taken + 1 + right.consumed;
            }
            let binary_operator = BinaryOperator::try_from(operator_token).unwrap();
            let binary_expr = BinaryExpr::new(expr, binary_operator, right_expr);
            expr = Expr::from(binary_expr);
        }
        Ok(expr)
    }

    #[verifier::spinoff_prover]
    fn parse_comparison(&mut self) -> (r: Result<Expr, ExprError>)
        requires
            parseable(old(self).tokens()),
        ensures
            Self::stepped(
                *old(self),
                grammar::parse_comparison(
                    old(self).tokens(),
                    old(self).last_context@,
                    old(self).ids@,
                ),
                *final(self),
                r,
            ),
            *final(final(self).input) == *final(old(self).input),
        decreases old(self).tokens().len(), 7nat,
    {
        proof {
            reveal(grammar::parse_comparison);
        }
        let ghost start = *self;
        let ghost left = grammar::parse_term(start.tokens(), start.last_context@, start.ids@);
        let expr = match self.parse_term() {
            Ok(expr) => expr,
            Err(error) => return Err(error),
        };
        let ghost middle = *self;
        proof {
            Self::lemma_rest(start, left.consumed, left.ids, middle);
        }
        let r = self.comparison_tail(expr);
        proof {
            let tail = grammar::comparison_tail(middle.tokens(), expr@, middle.ids@);
            Self::lemma_moved_twice(
                start,
                left.consumed,
                left.ids,
                middle,
                tail.consumed,
                tail.ids,
                *self,
            );
        }
        r
    }

    /// Reads the operators and right operands that follow the left operand
    /// `left`, and joins each to what was read before it.
    #[verifier::spinoff_prover]
    fn comparison_tail(&mut self, left: Expr) -> (r: Result<Expr, ExprError>)
        requires
            parseable(old(self).tokens()),
        ensures
            Self::stepped(
                *old(self),
                grammar::comparison_tail(
                    old(self).tokens(),
                    left@,
                    old(self).ids@,
                ),
                *final(self),
                r,
            ),
            *final(final(self).input) == *final(old(self).input),
        decreases old(self).tokens().len(), 6nat,
    {
        proof {
            reveal(grammar::comparison_tail);
        }
        let ghost start = *self;
        let ghost whole = grammar::comparison_tail(start.tokens(), left@, start.ids@);
        let ghost taken: nat = 0;
        let mut expr = left;
        proof {
            Self::lemma_still(start);
        }
        while self.has_next() && self.next().is_comparison()
            invariant
                start == *old(self),
                whole == grammar::comparison_tail(start.tokens(), left@, start.ids@),
                parseable(start.tokens()),
                parseable(self.tokens()),
                Self::moved(start, taken, self.ids@, *self),
                whole == grammar::shifted(
                    grammar::comparison_tail(self.tokens(), expr@, self.ids@),
                    taken,
                ),
                *final(self.input) == *final(old(self).input),
            decreases self.tokens().len(),
        {
            proof {
                reveal(grammar::comparison_tail);
            }
            let ghost round = *self;
            let operator_token = self.pop();
            let ghost popped = *self;
            let ghost right = grammar::parse_term(
                popped.tokens(),
                popped.last_context@,
                popped.ids@,
            );
            proof {
                Self::lemma_rest(round, 1, round.ids@, popped);
                Self::lemma_moved_twice(start, taken, round.ids@, round, 1, round.ids@, popped);
            }
            let right_expr = match self.parse_term() {
                Ok(right_expr) => right_expr,
                Err(error) => {
                    proof {
                        Self::lemma_moved_twice(
                            start,
                            taken + 1,
                            popped.ids@,
                            popped,
                            right.consumed,
                            right.ids,
                            *self,
                        );
                    }
                    return Err(error);
                },
            };
            proof {
                Self::lemma_moved_twice(
                    start,
                    taken + 1,
                    popped.ids@,
                    popped,
                    right.consumed,
                    right.ids,
                    *self,
                );
                Self::lemma_moved_twice(
                    round,
                    1,
                    round.ids@,
                    popped,
                    right.consumed,
                    right.ids,
                    *self,
                );
                Self::lemma_rest(start, taken + 1 + right.consumed, right.ids, *self);
                taken = taken + 1 + right.consumed;
            }
            let binary_operator = BinaryOperator::try_from(operator_token).unwrap();
            let binary_expr = BinaryExpr::new(expr, binary_operator, right_expr);
            expr = Expr::from(binary_expr);
        }
        Ok(expr)
    }

    #[verifier::spinoff_prover]
    fn parse_term(&mut self) -> (r: Result<Expr, ExprError>)
        requires
            parseable(old(self).tokens()),
        ensures
            Self::stepped(
                *old(self),
                grammar::parse_term(
                    old(self).tokens(),
                    old(self).last_context@,
                    old(self).ids@,
                ),
                *final(self),
                r,
            ),
            *final(final(self).input) == *final(old(self).input),
        decreases old(self).tokens().len(), 5nat,
    {
        proof {
            reveal(grammar::parse_term);
        }
        let ghost start = *self;
        let ghost left = grammar::parse_factor(start.tokens(), start.last_context@, start.ids@);
        let expr = match self.parse_factor() {
            Ok(expr) => expr,
            Err(error) => return Err(error),
        };
        let ghost middle = *self;
        proof {
            Self::lemma_rest(start, left.consumed, left.ids, middle);
        }
        let r = self.term_tail(expr);
        proof {
            let tail = grammar::term_tail(middle.tokens(), expr@, middle.ids@);
            Self::lemma_moved_twice(
                start,
                left.consumed,
                left.ids,
                middle,
                tail.consumed,
                tail.ids,
                *self,
            );
        }
        r
    }

    /// Reads the operators and right operands that follow the left operand
    /// `left`, and joins each to what was read before it.
    #[verifier::spinoff_prover]
    fn term_tail(&mut self, left: Expr) -> (r: Result<Expr, ExprError>)
        requires
            parseable(old(self).tokens()),
        ensures
            Self::stepped(
                *old(self),
                grammar::term_tail(
                    old(self).tokens(),
                    left@,
                    old(self).ids@,
                ),
                *final(self),
                r,
            ),
            *final(final(self).input) == *final(old(self).input),
        decreases old(self).tokens().len(), 4nat,
    {
        proof {
            reveal(grammar::term_tail);
        }
        let ghost start = *self;
        let ghost whole = grammar::term_tail(start.tokens(), left@, start.ids@);
        let ghost taken: nat = 0;
        let mut expr = left;
        proof {
            Self::lemma_still(start);
        }
        while self.has_next() && self.next().is_term()
            invariant
                start == *old(self),
                whole == grammar::term_tail(start.tokens(), left@, start.ids@),
                parseable(start.tokens()),
                parseable(self.tokens()),
                Self::moved(start, taken, self.ids@, *self),
                whole == grammar::shifted(
                    grammar::term_tail(self.tokens(), expr@, self.ids@),
                    taken,
                ),
                *final(self.input) == *final(old(self).input),
            decreases self.tokens().len(),
        {
            proof {
                reveal(grammar::term_tail);
            }
            let ghost round = *self;
            let operator_token = self.pop();
            let ghost popped = *self;
            let ghost right = grammar::parse_factor(
                popped.tokens(),
                popped.last_context@,
                popped.ids@,
            );
            proof {
                Self::lemma_rest(round, 1, round.ids@, popped);
                Self::lemma_moved_twice(start, taken, round.ids@, round, 1, round.ids@, popped);
            }
            let right_expr = match self.parse_factor() {
                Ok(right_expr) => right_expr,
                Err(error) => {
                    proof {
                        Self::lemma_moved_twice(
                            start,
                            taken + 1,
                            popped.ids@,
                            popped,
                            right.consumed,
                            right.ids,
                            *self,
                        );
                    }
                    return Err(error);
                },
            };
            proof {
                Self::lemma_moved_twice(
                    start,
                    taken + 1,
                    popped.ids@,
                    popped,
                    right.consumed,
                    right.ids,
                    *self,
                );
                Self::lemma_moved_twice(
                    round,
                    1,
                    round.ids@,
                    popped,
                    right.consumed,
                    right.ids,
                    *self,
                );
                Self::lemma_rest(start, taken + 1 + right.consumed, right.ids, *self);
                taken = taken + 1 + right.consumed;
            }
            let binary_operator = BinaryOperator::try_from(operator_token).unwrap();
            let binary_expr = BinaryExpr::new(expr, binary_operator, right_expr);
            expr = Expr::from(binary_expr);
        }
        Ok(expr)
    }

    #[verifier::spinoff_prover]
    fn parse_factor(&mut self) -> (r: Result<Expr, ExprError>)
        requires
            parseable(old(self).tokens()),
        ensures
            Self::stepped(
                *old(self),
                grammar::parse_factor(
                    old(self).tokens(),
                    old(self).last_context@,
                    old(self).ids@,
                ),
                *final(self),
                r,
            ),
            *final(final(self).input) == *final(old(self).input),
        decreases old(self).tokens().len(), 3nat,
    {
        proof {
            reveal(grammar::parse_factor);
        }
        let ghost start = *self;
        let ghost left = grammar::parse_unary(start.tokens(), start.last_context@, start.ids@);
        let expr = match self.parse_unary() {
            Ok(expr) => expr,
            Err(error) => return Err(error),
        };
        let ghost middle = *self;
        proof {
            Self::lemma_rest(start, left.consumed, left.ids, middle);
        }
        if self.has_next() && self.next().is_factor() {
            let operator_token = self.pop();
            let ghost popped = *self;
            let ghost right = grammar::parse_unary(
                popped.tokens(),
                popped.last_context@,
                popped.ids@,
            );
            proof {
                Self::lemma_moved_twice(
                    start,
                    left.consumed,
                    left.ids,
                    middle,
                    1,
                    left.ids,
                    popped,
                );
            }
            let right_expr = match self.parse_unary() {
                Ok(right_expr) => right_expr,
                Err(error) => {
                    proof {
                        Self::lemma_moved_twice(
                            start,
                            left.consumed + 1,
                            left.ids,
                            popped,
                            right.consumed,
                            right.ids,
                            *self,
                        );
                    }
                    return Err(error);
                },
            };
            proof {
                Self::lemma_moved_twice(
                    start,
                    left.consumed + 1,
                    left.ids,
                    popped,
                    right.consumed,
                    right.ids,
                    *self,
                );
            }
            let binary_operator = BinaryOperator::try_from(operator_token).unwrap();
            let binary_expr = BinaryExpr::new(expr, binary_operator, right_expr);
            return Ok(Expr::from(binary_expr));
        }
        Ok(expr)
    }

    #[verifier::spinoff_prover]
    fn parse_unary(&mut self) -> (r: Result<Expr, ExprError>)
        requires
            parseable(old(self).tokens()),
        ensures
            Self::stepped(
                *old(self),
                grammar::parse_unary(
                    old(self).tokens(),
                    old(self).last_context@,
                    old(self).ids@,
                ),
                *final(self),
                r,
            ),
            *final(final(self).input) == *final(old(self).input),
        decreases old(self).tokens().len(), 2nat,
    {
        proof {
            reveal(grammar::parse_unary);
        }
        let ghost start = *self;
        if self.has_next() && self.next().is_unary() {
            let operator_token = self.pop();
            let ghost popped = *self;
            let ghost operand = grammar::parse_unary(
                popped.tokens(),
                popped.last_context@,
                popped.ids@,
            );
            proof {
                Self::lemma_rest(start, 1, start.ids@, popped);
            }
            let right = match self.parse_unary() {
                Ok(right) => right,
                Err(error) => {
                    proof {
                        Self::lemma_moved_twice(
                            start,
                            1,
                            start.ids@,
                            popped,
                            operand.consumed,
                            operand.ids,
                            *self,
                        );
                    }
                    return Err(error);
                },
            };
            proof {
                Self::lemma_moved_twice(
                    start,
                    1,
                    start.ids@,
                    popped,
                    operand.consumed,
                    operand.ids,
                    *self,
                );
            }
            let unary_operator = UnaryOperator::try_from(operator_token).unwrap();
            let unary_expr = UnaryExpr::new(unary_operator, right);
            return Ok(Expr::from(unary_expr));
        }
        self.parse_call()
    }

    #[verifier::spinoff_prover]
    fn parse_call(&mut self) -> (r: Result<Expr, ExprError>)
        requires
            parseable(old(self).tokens()),
        ensures
            Self::stepped(
                *old(self),
                grammar::parse_call(
                    old(self).tokens(),
                    old(self).last_context@,
                    old(self).ids@,
                ),
                *final(self),
                r,
            ),
            *final(final(self).input) == *final(old(self).input),
        decreases old(self).tokens().len(), 1nat,
    {
        proof {
            reveal(grammar::parse_call);
        }
        self.parse_primary()
    }

    #[verifier::spinoff_prover]
    fn parse_primary(&mut self) -> (r: Result<Expr, ExprError>)
        requires
            parseable(old(self).tokens()),
        ensures
            Self::stepped(
                *old(self),
                grammar::parse_primary(
                    old(self).tokens(),
                    old(self).last_context@,
                    old(self).ids@,
                ),
                *final(self),
                r,
            ),
            *final(final(self).input) == *final(old(self).input),
        decreases old(self).tokens().len(), 0nat,
    {
        proof {
            reveal(grammar::parse_primary);
        }
        let ghost start = *self;
        if !self.has_next() {
            proof {
                Self::lemma_still(start);
            }
            return Err(
                ExprError::new(ExprErrorVariant::UnclosedGrouping, self.last_context.clone()),
            );
        }
        let token = self.pop();
        let ghost popped = *self;
        proof {
            Self::lemma_rest(start, 1, start.ids@, popped);
        }
        if matches!(token.variant(), TokenVariant::LeftParen) {
            let ghost inner = grammar::parse_or(
                popped.tokens(),
                popped.last_context@,
                popped.ids@,
            );
            let expr = match self.parse_input() {
                Ok(expr) => expr,
                Err(error) => {
                    proof {
                        Self::lemma_moved_twice(
                            start,
                            1,
                            start.ids@,
                            popped,
                            inner.consumed,
                            inner.ids,
                            *self,
                        );
                    }
                    return Err(error);
                },
            };
            let ghost read = *self;
            proof {
                Self::lemma_moved_twice(
                    start,
                    1,
                    start.ids@,
                    popped,
                    inner.consumed,
                    inner.ids,
                    read,
                );
                Self::lemma_rest(start, 1 + inner.consumed, inner.ids, read);
            }
            if self.has_next() && matches!(self.next().variant(), TokenVariant::RightParen) {
                let _ = self.pop();
                proof {
                    Self::lemma_moved_twice(
                        start,
                        1 + inner.consumed,
                        inner.ids,
                        read,
                        1,
                        inner.ids,
                        *self,
                    );
                }
                Ok(Expr::new(ExprVariant::Grouping(expr)))
            } else {
                Err(ExprError::new(ExprErrorVariant::UnclosedGrouping, BriseContext::from(token)))
            }
        } else if let TokenVariant::Identifier(identity) = token.variant() {
            let identity = identity.clone();
            let identifier = Identifier::new(identity, BriseContext::from(token));
            Ok(Expr::new(ExprVariant::Identifier(identifier)))
        } else if token.variant().is_literal() {
            self.parse_literal(token)
        } else {
            Err(ExprError::new(ExprErrorVariant::UnclosedGrouping, self.last_context.clone()))
        }
    }

    /// Builds the literal that `token` denotes.
    fn parse_literal(&mut self, token: Token) -> (r: Result<Expr, ExprError>)
        requires
            token@.variant.is_literal(),
            !(token@.variant is FormattedString),
        ensures
            final(self).input == old(self).input,
            final(self).last_context == old(self).last_context,
            ({
                let parsed = grammar::parse_primary(seq![token@], token@.context, old(self).ids@);
                &&& final(self).ids@ == parsed.ids
                &&& outcome(r, parsed.result)
            }),
    {
        proof {
            reveal(grammar::parse_primary);
        }
        let literal = match token.variant() {
            TokenVariant::Number(value) => {
                let number = NumberLiteral::new(value.clone(), &mut self.ids);
                Literal::new(LiteralVariant::Number(number), BriseContext::from(token))
            },
            TokenVariant::String(value) => {
                let text = value.clone();
                Literal::new(LiteralVariant::String(text), BriseContext::from(token))
            },
            TokenVariant::True => Literal::new(LiteralVariant::True, BriseContext::from(token)),
            TokenVariant::False => Literal::new(LiteralVariant::False, BriseContext::from(token)),
            TokenVariant::QuestionMark => Literal::new(
                LiteralVariant::Unknown,
                BriseContext::from(token),
            ),
            _ => vstd::pervasive::unreached(),
        };
        Ok(Expr::from(literal))
    }
}

} // verus!
