//! The expression grammar, as functions from tokens to what parsing them
//! gives.
//!
//! From the loosest binding to the tightest:
//!
//! ```text
//! or         := and ( "||" or )?
//! and        := equality ( "&&" and )?
//! equality   := comparison ( ( "==" | "!=" ) comparison )*
//! comparison := term ( ( "<" | "<=" | ">" | ">=" ) term )*
//! term       := factor ( ( "+" | "-" ) factor )*
//! factor     := unary ( ( "*" | "/" ) unary )?
//! unary      := ( "!" | "-" ) unary | call
//! call       := primary
//! primary    := "(" or ")" | identifier | number | string | "true" | "false" | "?"
//! ```
//!
//! `||` and `&&` group to the right, the operators of `equality`, `comparison`
//! and `term` to the left, and `factor` takes one operator at most.
use crate::expr::error::{ExprErrorVariant, ExprErrorView};
use crate::syntax_tree::expr::binary::{binary_operator_of, BinaryExprView, BinaryOperatorView};
use crate::syntax_tree::expr::identifier::IdentifierView;
use crate::syntax_tree::expr::literal::{
    next_id, LiteralVariantView, LiteralView, NumberLiteralView,
};
use crate::syntax_tree::expr::unary::{unary_operator_of, UnaryExprView, UnaryOperatorView};
use crate::syntax_tree::expr::ExprView;
use crate::token::{ContextView, TokenVariantView, TokenView};
use vstd::prelude::*;

verus! {

/// What parsing a token sequence gives.
pub struct Parsed {
    /// The expression, or the first structural error.
    pub result: Result<ExprView, ExprErrorView>,
    /// How many tokens were taken from the front of the sequence. After an
    /// error these are the tokens taken before it was found.
    pub consumed: nat,
    /// The identity that the next number literal will get.
    pub ids: usize,
}

/// What is left of `tokens` once `n` of them are taken from the front.
pub open spec fn after(tokens: Seq<TokenView>, n: nat) -> Seq<TokenView> {
    if n <= tokens.len() {
        tokens.skip(n as int)
    } else {
        Seq::empty()
    }
}

/// The position of the token taken last, once `n` tokens are taken from
/// the front of `tokens`; `last` is that position before any was taken.
pub open spec fn last_after(tokens: Seq<TokenView>, n: nat, last: ContextView) -> ContextView {
    if 0 < n <= tokens.len() {
        tokens[n - 1].context
    } else {
        last
    }
}

/// The error of a grouping that is not closed, or of a place where an
/// expression should start and none does.
pub open spec fn unclosed(context: ContextView) -> ExprErrorView {
    ExprErrorView { variant: ExprErrorVariant::UnclosedGrouping, context }
}

/// The binary expression `left operator right`, where `operator` is the
/// token that was read between the two.
pub open spec fn binary(left: ExprView, operator: TokenView, right: ExprView) -> ExprView {
    ExprView::Binary(
        Box::new(
            BinaryExprView {
                left,
                operator: BinaryOperatorView {
                    variant: binary_operator_of(operator.variant).unwrap(),
                    context: operator.context,
                },
                right,
            },
        ),
    )
}

/// The unary expression `operator operand`, where `operator` is the token
/// that was read before the operand.
pub open spec fn unary(operator: TokenView, operand: ExprView) -> ExprView {
    ExprView::Unary(
        Box::new(
            UnaryExprView {
                operator: UnaryOperatorView {
                    variant: unary_operator_of(operator.variant).unwrap(),
                    context: operator.context,
                },
                expr: operand,
            },
        ),
    )
}

/// The literal of the given kind, read at `context`.
pub open spec fn literal(variant: LiteralVariantView, context: ContextView) -> ExprView {
    ExprView::Literal(LiteralView { variant, context })
}

/// What follows a sub-expression that was read after `skipped` tokens:
/// its result counts those tokens too.
pub open spec fn shifted(parsed: Parsed, skipped: nat) -> Parsed {
    Parsed { result: parsed.result, consumed: skipped + parsed.consumed, ids: parsed.ids }
}

/// `left operator right`, where `right` is what was parsed behind the
/// operator, which stands at index `at`. An error in `right` is the error of
/// the whole.
pub open spec fn joined(
    left: ExprView,
    tokens: Seq<TokenView>,
    at: nat,
    right: Parsed,
) -> Parsed {
    Parsed {
        result: match right.result {
            Ok(r) => Ok(binary(left, tokens[at as int], r)),
            Err(e) => Err(e),
        },
        consumed: at + 1 + right.consumed,
        ids: right.ids,
    }
}

/// A primary expression: a parenthesized expression, an identifier or a
/// literal. `last` is the position of the token before `tokens`.
///
/// With no token left, the error is reported at `last`. A token that starts
/// no expression is taken and reported at its own position. A grouping whose
/// `)` is missing is reported at its `(`. Each number literal gets the next
/// identity. Formatted strings have no expression form yet: callers keep them
/// out of `tokens`, and what this function says of them is of no use.
#[verifier::opaque]
pub open spec fn parse_primary(tokens: Seq<TokenView>, last: ContextView, ids: usize) -> Parsed
    decreases tokens.len(), 0nat,
{
    if tokens.len() == 0 {
        Parsed { result: Err(unclosed(last)), consumed: 0, ids }
    } else {
        let token = tokens[0];
        match token.variant {
            TokenVariantView::LeftParen => {
                let inner = parse_or(after(tokens, 1), token.context, ids);
                let closing = 1 + inner.consumed;
                match inner.result {
                    Err(e) => shifted(inner, 1),
                    Ok(e) => {
                        let closed = closing < tokens.len()
                            && tokens[closing as int].variant is RightParen;
                        if closed {
                            Parsed {
                                result: Ok(ExprView::Grouping(Box::new(e))),
                                consumed: closing + 1,
                                ids: inner.ids,
                            }
                        } else {
                            Parsed {
                                result: Err(unclosed(token.context)),
                                consumed: closing,
                                ids: inner.ids,
                            }
                        }
                    },
                }
            },
            TokenVariantView::Identifier(identity) => Parsed {
                result: Ok(
                    ExprView::Identifier(IdentifierView { identity, context: token.context }),
                ),
                consumed: 1,
                ids,
            },
            TokenVariantView::Number(value) => Parsed {
                result: Ok(
                    literal(
                        LiteralVariantView::Number(NumberLiteralView { value, id: ids }),
                        token.context,
                    ),
                ),
                consumed: 1,
                ids: next_id(ids),
            },
            TokenVariantView::String(text) => Parsed {
                result: Ok(literal(LiteralVariantView::String(text), token.context)),
                consumed: 1,
                ids,
            },
            TokenVariantView::True => Parsed {
                result: Ok(literal(LiteralVariantView::True, token.context)),
                consumed: 1,
                ids,
            },
            TokenVariantView::False => Parsed {
                result: Ok(literal(LiteralVariantView::False, token.context)),
                consumed: 1,
                ids,
            },
            TokenVariantView::QuestionMark => Parsed {
                result: Ok(literal(LiteralVariantView::Unknown, token.context)),
                consumed: 1,
                ids,
            },
            _ => Parsed { result: Err(unclosed(token.context)), consumed: 1, ids },
        }
    }
}

/// A call. Calls are not part of the language yet: this is a primary
/// expression.
#[verifier::opaque]
pub open spec fn parse_call(tokens: Seq<TokenView>, last: ContextView, ids: usize) -> Parsed
    decreases tokens.len(), 1nat,
{
    parse_primary(tokens, last, ids)
}

/// A unary expression: any number of `!` and `-`, the innermost applied
/// first, before a call.
#[verifier::opaque]
pub open spec fn parse_unary(tokens: Seq<TokenView>, last: ContextView, ids: usize) -> Parsed
    decreases tokens.len(), 2nat,
{
    if tokens.len() > 0 && tokens[0].variant.is_unary() {
        let operand = parse_unary(after(tokens, 1), tokens[0].context, ids);
        Parsed {
            result: match operand.result {
                Ok(e) => Ok(unary(tokens[0], e)),
                Err(e) => Err(e),
            },
            consumed: 1 + operand.consumed,
            ids: operand.ids,
        }
    } else {
        parse_call(tokens, last, ids)
    }
}

/// A factor: a unary expression and, where `*` or `/` follows it, that
/// operator and one more unary expression. A second operator is left
/// unread.
#[verifier::opaque]
pub open spec fn parse_factor(tokens: Seq<TokenView>, last: ContextView, ids: usize) -> Parsed
    decreases tokens.len(), 3nat,
{
    let left = parse_unary(tokens, last, ids);
    match left.result {
        Err(_) => left,
        Ok(l) => {
            let at = left.consumed;
            if at < tokens.len() && tokens[at as int].variant.is_factor() {
                let right = parse_unary(after(tokens, at + 1), tokens[at as int].context, left.ids);
                joined(l, tokens, at, right)
            } else {
                left
            }
        },
    }
}

/// What follows the left operand `left` of a term: as long as `+` or `-`
/// comes next, a factor is read behind it and joined to what was read so far,
/// which makes the operators group to the left.
#[verifier::opaque]
pub open spec fn term_tail(tokens: Seq<TokenView>, left: ExprView, ids: usize) -> Parsed
    decreases tokens.len(), 4nat,
{
    if tokens.len() > 0 && tokens[0].variant.is_term() {
        let right = parse_factor(after(tokens, 1), tokens[0].context, ids);
        match right.result {
            Err(e) => shifted(right, 1),
            Ok(r) => shifted(
                term_tail(
                    after(tokens, 1 + right.consumed),
                    binary(left, tokens[0], r),
                    right.ids,
                ),
                1 + right.consumed,
            ),
        }
    } else {
        Parsed { result: Ok(left), consumed: 0, ids }
    }
}

/// A term: factors joined by `+` and `-`, grouped to the left.
#[verifier::opaque]
pub open spec fn parse_term(tokens: Seq<TokenView>, last: ContextView, ids: usize) -> Parsed
    decreases tokens.len(), 5nat,
{
    let left = parse_factor(tokens, last, ids);
    match left.result {
        Err(_) => left,
        Ok(l) => shifted(term_tail(after(tokens, left.consumed), l, left.ids), left.consumed),
    }
}

/// What follows the left operand `left` of a comparison: see [`term_tail`].
#[verifier::opaque]
pub open spec fn comparison_tail(tokens: Seq<TokenView>, left: ExprView, ids: usize) -> Parsed
    decreases tokens.len(), 6nat,
{
    if tokens.len() > 0 && tokens[0].variant.is_comparison() {
        let right = parse_term(after(tokens, 1), tokens[0].context, ids);
        match right.result {
            Err(e) => shifted(right, 1),
            Ok(r) => shifted(
                comparison_tail(
                    after(tokens, 1 + right.consumed),
                    binary(left, tokens[0], r),
                    right.ids,
                ),
                1 + right.consumed,
            ),
        }
    } else {
        Parsed { result: Ok(left), consumed: 0, ids }
    }
}

/// A comparison: terms joined by `<`, `<=`, `>` and `>=`, grouped to the
/// left.
#[verifier::opaque]
pub open spec fn parse_comparison(tokens: Seq<TokenView>, last: ContextView, ids: usize) -> Parsed
    decreases tokens.len(), 7nat,
{
    let left = parse_term(tokens, last, ids);
    match left.result {
        Err(_) => left,
        Ok(l) => shifted(
            comparison_tail(after(tokens, left.consumed), l, left.ids),
            left.consumed,
        ),
    }
}

/// What follows the left operand `left` of an equality: see [`term_tail`].
#[verifier::opaque]
pub open spec fn equality_tail(tokens: Seq<TokenView>, left: ExprView, ids: usize) -> Parsed
    decreases tokens.len(), 8nat,
{
    if tokens.len() > 0 && tokens[0].variant.is_equality() {
        let right = parse_comparison(after(tokens, 1), tokens[0].context, ids);
        match right.result {
            Err(e) => shifted(right, 1),
            Ok(r) => shifted(
                equality_tail(
                    after(tokens, 1 + right.consumed),
                    binary(left, tokens[0], r),
                    right.ids,
                ),
                1 + right.consumed,
            ),
        }
    } else {
        Parsed { result: Ok(left), consumed: 0, ids }
    }
}

/// An equality: comparisons joined by `==` and `!=`, grouped to the left.
#[verifier::opaque]
pub open spec fn parse_equality(tokens: Seq<TokenView>, last: ContextView, ids: usize) -> Parsed
    decreases tokens.len(), 9nat,
{
    let left = parse_comparison(tokens, last, ids);
    match left.result {
        Err(_) => left,
        Ok(l) => shifted(
            equality_tail(after(tokens, left.consumed), l, left.ids),
            left.consumed,
        ),
    }
}

/// A conjunction: an equality and, where `&&` follows it, another
/// conjunction, which makes `&&` group to the right.
#[verifier::opaque]
pub open spec fn parse_and(tokens: Seq<TokenView>, last: ContextView, ids: usize) -> Parsed
    decreases tokens.len(), 10nat,
{
    let left = parse_equality(tokens, last, ids);
    match left.result {
        Err(_) => left,
        Ok(l) => {
            let at = left.consumed;
            if at < tokens.len() && tokens[at as int].variant is AmpersandAmpersand {
                let right = parse_and(after(tokens, at + 1), tokens[at as int].context, left.ids);
                joined(l, tokens, at, right)
            } else {
                left
            }
        },
    }
}

/// A disjunction: a conjunction and, where `||` follows it, another
/// disjunction, which makes `||` group to the right.
#[verifier::opaque]
pub open spec fn parse_or(tokens: Seq<TokenView>, last: ContextView, ids: usize) -> Parsed
    decreases tokens.len(), 11nat,
{
    let left = parse_and(tokens, last, ids);
    match left.result {
        Err(_) => left,
        Ok(l) => {
            let at = left.consumed;
            if at < tokens.len() && tokens[at as int].variant is BarBar {
                let right = parse_or(after(tokens, at + 1), tokens[at as int].context, left.ids);
                joined(l, tokens, at, right)
            } else {
                left
            }
        },
    }
}

/// The expression at the front of `tokens`, with number literals numbered
/// from `ids` on: a disjunction, read with no token before it.
pub open spec fn parse_expression(tokens: Seq<TokenView>, ids: usize) -> Parsed {
    parse_or(tokens, ContextView { file: None, line: 1, col: 1 }, ids)
}

} // verus!
