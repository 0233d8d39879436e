//! What holds of the expression grammar, proved from its definition.
use crate::expr::grammar::{
    after, comparison_tail, equality_tail, parse_and, parse_call, parse_comparison,
    parse_equality, parse_expression, parse_factor, parse_or, parse_primary, parse_term,
    parse_unary, term_tail, Parsed,
};
use crate::syntax_tree::expr::binary::BinaryOperatorVariant;
use crate::syntax_tree::expr::literal::{next_id, LiteralVariantView};
use crate::syntax_tree::expr::unary::UnaryOperatorVariant;
use crate::syntax_tree::expr::ExprView;
use crate::token::{ContextView, TokenVariantView, TokenView};
use vstd::prelude::*;

verus! {

/// The token that writes a binary operator.
pub open spec fn operator_token(operator: BinaryOperatorVariant) -> TokenVariantView {
    match operator {
        BinaryOperatorVariant::EqualEqual => TokenVariantView::EqualEqual,
        BinaryOperatorVariant::BangEqual => TokenVariantView::BangEqual,
        BinaryOperatorVariant::Less => TokenVariantView::Less,
        BinaryOperatorVariant::LessEqual => TokenVariantView::LessEqual,
        BinaryOperatorVariant::Greater => TokenVariantView::Greater,
        BinaryOperatorVariant::GreaterEqual => TokenVariantView::GreaterEqual,
        BinaryOperatorVariant::Plus => TokenVariantView::Plus,
        BinaryOperatorVariant::Minus => TokenVariantView::Minus,
        BinaryOperatorVariant::Star => TokenVariantView::Star,
        BinaryOperatorVariant::Slash => TokenVariantView::Slash,
        BinaryOperatorVariant::Or => TokenVariantView::BarBar,
        BinaryOperatorVariant::And => TokenVariantView::AmpersandAmpersand,
    }
}

/// The token that writes a prefix operator.
pub open spec fn prefix_token(operator: UnaryOperatorVariant) -> TokenVariantView {
    match operator {
        UnaryOperatorVariant::Bang => TokenVariantView::Bang,
        UnaryOperatorVariant::Minus => TokenVariantView::Minus,
    }
}

/// The kinds of the tokens that an expression is written with, from left to
/// right. A formatted string, which the parser never builds, counts for no
/// token.
pub open spec fn written(e: ExprView) -> Seq<TokenVariantView>
    decreases e,
{
    match e {
        ExprView::Binary(binary) => written(binary.left) + seq![
            operator_token(binary.operator.variant),
        ] + written(binary.right),
        ExprView::Unary(unary) => seq![prefix_token(unary.operator.variant)] + written(unary.expr),
        ExprView::Grouping(inner) => seq![TokenVariantView::LeftParen] + written(*inner) + seq![
            TokenVariantView::RightParen,
        ],
        ExprView::Literal(literal) => match literal.variant {
            LiteralVariantView::Number(number) => seq![TokenVariantView::Number(number.value)],
            LiteralVariantView::String(text) => seq![TokenVariantView::String(text)],
            LiteralVariantView::FormattedString(_) => Seq::empty(),
            LiteralVariantView::True => seq![TokenVariantView::True],
            LiteralVariantView::False => seq![TokenVariantView::False],
            LiteralVariantView::Unknown => seq![TokenVariantView::QuestionMark],
        },
        ExprView::Identifier(identifier) => seq![TokenVariantView::Identifier(identifier.identity)],
    }
}

/// The kinds of the first `n` tokens of `tokens`.
pub open spec fn kinds(tokens: Seq<TokenView>, n: nat) -> Seq<TokenVariantView> {
    Seq::new(
        if n <= tokens.len() {
            n
        } else {
            tokens.len()
        },
        |i: int| tokens[i].variant,
    )
}

/// How many of the first `n` tokens of `tokens` are numbers.
pub open spec fn numbers(tokens: Seq<TokenView>, n: nat) -> nat
    decreases n,
{
    if n == 0 || n > tokens.len() {
        0
    } else if tokens[n - 1].variant is Number {
        numbers(tokens, (n - 1) as nat) + 1
    } else {
        numbers(tokens, (n - 1) as nat)
    }
}

/// The identity that stands `n` identities behind `id`.
pub open spec fn advanced(id: usize, n: nat) -> usize
    decreases n,
{
    if n == 0 {
        id
    } else {
        next_id(advanced(id, (n - 1) as nat))
    }
}

/// What holds of what was parsed from `tokens` with identities from `ids`
/// on, behind an operand that is written as `before`: no more tokens were read
/// than there are, every number among them took one identity, and an
/// expression that came out is written as `before` and then the tokens that
/// were read.
pub open spec fn faithful(
    tokens: Seq<TokenView>,
    ids: usize,
    before: Seq<TokenVariantView>,
    parsed: Parsed,
) -> bool {
    &&& parsed.consumed <= tokens.len()
    &&& parsed.ids == advanced(ids, numbers(tokens, parsed.consumed))
    &&& parsed.result matches Ok(e) ==> written(e) == before + kinds(tokens, parsed.consumed)
}

/// Whether an expression, if one was parsed, took at least one token.
pub open spec fn took_some(parsed: Parsed) -> bool {
    parsed.result is Ok ==> parsed.consumed >= 1
}

/// Identities advance by steps that add up.
pub proof fn lemma_advanced_twice(id: usize, a: nat, b: nat)
    ensures
        advanced(advanced(id, a), b) == advanced(id, a + b),
    decreases b,
{
    if b > 0 {
        lemma_advanced_twice(id, a, (b - 1) as nat);
    }
}

/// The numbers among the first `a + b` tokens are those among the first `a`
/// and those among the `b` behind them.
pub proof fn lemma_numbers_split(tokens: Seq<TokenView>, a: nat, b: nat)
    requires
        a + b <= tokens.len(),
    ensures
        numbers(tokens, a + b) == numbers(tokens, a) + numbers(after(tokens, a), b),
    decreases b,
{
    if b > 0 {
        lemma_numbers_split(tokens, a, (b - 1) as nat);
    }
}

/// What was parsed behind the first `a` tokens counts for the whole
/// sequence.
proof fn lemma_behind(
    tokens: Seq<TokenView>,
    ids: usize,
    a: nat,
    before: Seq<TokenVariantView>,
    parsed: Parsed,
)
    requires
        a <= tokens.len(),
        faithful(after(tokens, a), advanced(ids, numbers(tokens, a)), before, parsed),
    ensures
        a + parsed.consumed <= tokens.len(),
        advanced(ids, numbers(tokens, a + parsed.consumed)) == parsed.ids,
        kinds(tokens, a + parsed.consumed) == kinds(tokens, a) + kinds(
            after(tokens, a),
            parsed.consumed,
        ),
{
    lemma_numbers_split(tokens, a, parsed.consumed);
    lemma_advanced_twice(ids, numbers(tokens, a), numbers(after(tokens, a), parsed.consumed));
}

/// The first `a + 1` tokens are the first `a` and the one behind them.
proof fn lemma_one_more(tokens: Seq<TokenView>, ids: usize, a: nat)
    ensures
        a < tokens.len() ==> kinds(tokens, a + 1) == kinds(tokens, a).push(
            tokens[a as int].variant,
        ),
        a < tokens.len() && tokens[a as int].variant is Number ==> advanced(
            ids,
            numbers(tokens, a + 1),
        ) == next_id(advanced(ids, numbers(tokens, a))),
        a < tokens.len() && !(tokens[a as int].variant is Number) ==> advanced(
            ids,
            numbers(tokens, a + 1),
        ) == advanced(ids, numbers(tokens, a)),
        kinds(tokens, 0) == Seq::<TokenVariantView>::empty(),
        advanced(ids, numbers(tokens, 0)) == ids,
{
}

#[verifier::spinoff_prover]
proof fn lemma_parse_primary(tokens: Seq<TokenView>, last: ContextView, ids: usize)
    ensures
        faithful(tokens, ids, Seq::empty(), parse_primary(tokens, last, ids)),
        took_some(parse_primary(tokens, last, ids)),
    decreases tokens.len(), 0nat,
{
    reveal(parse_primary);
    if tokens.len() > 0 {
        let token = tokens[0];
        lemma_one_more(tokens, ids, 0);
        if token.variant is LeftParen {
            let inner = parse_or(after(tokens, 1), token.context, ids);
            lemma_parse_or(after(tokens, 1), token.context, ids);
            lemma_behind(tokens, ids, 1, Seq::empty(), inner);
            let closing = 1 + inner.consumed;
            if closing < tokens.len() {
                lemma_one_more(tokens, ids, closing);
            }
            if parse_primary(tokens, last, ids).result is Ok {
                assert(written(parse_primary(tokens, last, ids).result->Ok_0) =~= kinds(
                    tokens,
                    closing + 1,
                ));
            }
        }
    } else {
        lemma_one_more(tokens, ids, 0);
    }
}

#[verifier::spinoff_prover]
proof fn lemma_parse_call(tokens: Seq<TokenView>, last: ContextView, ids: usize)
    ensures
        faithful(tokens, ids, Seq::empty(), parse_call(tokens, last, ids)),
        took_some(parse_call(tokens, last, ids)),
    decreases tokens.len(), 1nat,
{
    reveal(parse_call);
    lemma_parse_primary(tokens, last, ids);
}

#[verifier::spinoff_prover]
proof fn lemma_parse_unary(tokens: Seq<TokenView>, last: ContextView, ids: usize)
    ensures
        faithful(tokens, ids, Seq::empty(), parse_unary(tokens, last, ids)),
        took_some(parse_unary(tokens, last, ids)),
    decreases tokens.len(), 2nat,
{
    reveal(parse_unary);
    if tokens.len() > 0 && tokens[0].variant.is_unary() {
        lemma_one_more(tokens, ids, 0);
        let operand = parse_unary(after(tokens, 1), tokens[0].context, ids);
        lemma_parse_unary(after(tokens, 1), tokens[0].context, ids);
        lemma_behind(tokens, ids, 1, Seq::empty(), operand);
    } else {
        lemma_parse_call(tokens, last, ids);
    }
}

#[verifier::spinoff_prover]
proof fn lemma_parse_factor(tokens: Seq<TokenView>, last: ContextView, ids: usize)
    ensures
        faithful(tokens, ids, Seq::empty(), parse_factor(tokens, last, ids)),
        took_some(parse_factor(tokens, last, ids)),
    decreases tokens.len(), 3nat,
{
    reveal(parse_factor);
    lemma_parse_unary(tokens, last, ids);
    let left = parse_unary(tokens, last, ids);
    let at = left.consumed;
    lemma_one_more(tokens, ids, at);
    if left.result is Ok && at < tokens.len() && parse_factor(tokens, last, ids) != left {
        let right = parse_unary(after(tokens, at + 1), tokens[at as int].context, left.ids);
        lemma_parse_unary(after(tokens, at + 1), tokens[at as int].context, left.ids);
        lemma_behind(tokens, ids, at + 1, Seq::empty(), right);
        if right.result is Ok {
            assert(written(parse_factor(tokens, last, ids).result->Ok_0) =~= kinds(
                tokens,
                at + 1 + right.consumed,
            ));
        }
    }
}

#[verifier::spinoff_prover]
proof fn lemma_parse_term(tokens: Seq<TokenView>, last: ContextView, ids: usize)
    ensures
        faithful(tokens, ids, Seq::empty(), parse_term(tokens, last, ids)),
        took_some(parse_term(tokens, last, ids)),
    decreases tokens.len(), 5nat,
{
    reveal(parse_term);
    lemma_parse_factor(tokens, last, ids);
    let left = parse_factor(tokens, last, ids);
    if left.result is Ok {
        let l = left.result->Ok_0;
        let tail = term_tail(after(tokens, left.consumed), l, left.ids);
        lemma_term_tail(after(tokens, left.consumed), l, left.ids);
        lemma_behind(tokens, ids, left.consumed, written(l), tail);
    }
}

#[verifier::spinoff_prover]
proof fn lemma_term_tail(tokens: Seq<TokenView>, left: ExprView, ids: usize)
    ensures
        faithful(tokens, ids, written(left), term_tail(tokens, left, ids)),
    decreases tokens.len(), 4nat,
{
    reveal(term_tail);
    lemma_one_more(tokens, ids, 0);
    if term_tail(tokens, left, ids) != (Parsed { result: Ok(left), consumed: 0, ids }) {
        let right = parse_factor(after(tokens, 1), tokens[0].context, ids);
        lemma_parse_factor(after(tokens, 1), tokens[0].context, ids);
        lemma_behind(tokens, ids, 1, Seq::empty(), right);
        if right.result is Ok {
            let r = right.result->Ok_0;
            let joined = crate::expr::grammar::binary(left, tokens[0], r);
            let rest = after(tokens, 1 + right.consumed);
            let tail = term_tail(rest, joined, right.ids);
            lemma_term_tail(rest, joined, right.ids);
            lemma_behind(tokens, ids, 1 + right.consumed, written(joined), tail);
            if tail.result is Ok {
                assert(written(tail.result->Ok_0) =~= written(left) + kinds(
                    tokens,
                    1 + right.consumed + tail.consumed,
                ));
            }
        }
    }
}

#[verifier::spinoff_prover]
proof fn lemma_parse_comparison(tokens: Seq<TokenView>, last: ContextView, ids: usize)
    ensures
        faithful(tokens, ids, Seq::empty(), parse_comparison(tokens, last, ids)),
        took_some(parse_comparison(tokens, last, ids)),
    decreases tokens.len(), 7nat,
{
    reveal(parse_comparison);
    lemma_parse_term(tokens, last, ids);
    let left = parse_term(tokens, last, ids);
    if left.result is Ok {
        let l = left.result->Ok_0;
        let tail = comparison_tail(after(tokens, left.consumed), l, left.ids);
        lemma_comparison_tail(after(tokens, left.consumed), l, left.ids);
        lemma_behind(tokens, ids, left.consumed, written(l), tail);
    }
}

#[verifier::spinoff_prover]
proof fn lemma_comparison_tail(tokens: Seq<TokenView>, left: ExprView, ids: usize)
    ensures
        faithful(tokens, ids, written(left), comparison_tail(tokens, left, ids)),
    decreases tokens.len(), 6nat,
{
    reveal(comparison_tail);
    lemma_one_more(tokens, ids, 0);
    if comparison_tail(tokens, left, ids) != (Parsed { result: Ok(left), consumed: 0, ids }) {
        let right = parse_term(after(tokens, 1), tokens[0].context, ids);
        lemma_parse_term(after(tokens, 1), tokens[0].context, ids);
        lemma_behind(tokens, ids, 1, Seq::empty(), right);
        if right.result is Ok {
            let r = right.result->Ok_0;
            let joined = crate::expr::grammar::binary(left, tokens[0], r);
            let rest = after(tokens, 1 + right.consumed);
            let tail = comparison_tail(rest, joined, right.ids);
            lemma_comparison_tail(rest, joined, right.ids);
            lemma_behind(tokens, ids, 1 + right.consumed, written(joined), tail);
            if tail.result is Ok {
                assert(written(tail.result->Ok_0) =~= written(left) + kinds(
                    tokens,
                    1 + right.consumed + tail.consumed,
                ));
            }
        }
    }
}

#[verifier::spinoff_prover]
proof fn lemma_parse_equality(tokens: Seq<TokenView>, last: ContextView, ids: usize)
    ensures
        faithful(tokens, ids, Seq::empty(), parse_equality(tokens, last, ids)),
        took_some(parse_equality(tokens, last, ids)),
    decreases tokens.len(), 9nat,
{
    reveal(parse_equality);
    lemma_parse_comparison(tokens, last, ids);
    let left = parse_comparison(tokens, last, ids);
    if left.result is Ok {
        let l = left.result->Ok_0;
        let tail = equality_tail(after(tokens, left.consumed), l, left.ids);
        lemma_equality_tail(after(tokens, left.consumed), l, left.ids);
        lemma_behind(tokens, ids, left.consumed, written(l), tail);
    }
}

#[verifier::spinoff_prover]
proof fn lemma_equality_tail(tokens: Seq<TokenView>, left: ExprView, ids: usize)
    ensures
        faithful(tokens, ids, written(left), equality_tail(tokens, left, ids)),
    decreases tokens.len(), 8nat,
{
    reveal(equality_tail);
    lemma_one_more(tokens, ids, 0);
    if equality_tail(tokens, left, ids) != (Parsed { result: Ok(left), consumed: 0, ids }) {
        let right = parse_comparison(after(tokens, 1), tokens[0].context, ids);
        lemma_parse_comparison(after(tokens, 1), tokens[0].context, ids);
        lemma_behind(tokens, ids, 1, Seq::empty(), right);
        if right.result is Ok {
            let r = right.result->Ok_0;
            let joined = crate::expr::grammar::binary(left, tokens[0], r);
            let rest = after(tokens, 1 + right.consumed);
            let tail = equality_tail(rest, joined, right.ids);
            lemma_equality_tail(rest, joined, right.ids);
            lemma_behind(tokens, ids, 1 + right.consumed, written(joined), tail);
            if tail.result is Ok {
                assert(written(tail.result->Ok_0) =~= written(left) + kinds(
                    tokens,
                    1 + right.consumed + tail.consumed,
                ));
            }
        }
    }
}

#[verifier::spinoff_prover]
proof fn lemma_parse_and(tokens: Seq<TokenView>, last: ContextView, ids: usize)
    ensures
        faithful(tokens, ids, Seq::empty(), parse_and(tokens, last, ids)),
        took_some(parse_and(tokens, last, ids)),
    decreases tokens.len(), 10nat,
{
    reveal(parse_and);
    lemma_parse_equality(tokens, last, ids);
    let left = parse_equality(tokens, last, ids);
    let at = left.consumed;
    lemma_one_more(tokens, ids, at);
    if left.result is Ok && at < tokens.len() && parse_and(tokens, last, ids) != left {
        let right = parse_and(after(tokens, at + 1), tokens[at as int].context, left.ids);
        lemma_parse_and(after(tokens, at + 1), tokens[at as int].context, left.ids);
        lemma_behind(tokens, ids, at + 1, Seq::empty(), right);
        if right.result is Ok {
            assert(written(parse_and(tokens, last, ids).result->Ok_0) =~= kinds(
                tokens,
                at + 1 + right.consumed,
            ));
        }
    }
}

#[verifier::spinoff_prover]
proof fn lemma_parse_or(tokens: Seq<TokenView>, last: ContextView, ids: usize)
    ensures
        faithful(tokens, ids, Seq::empty(), parse_or(tokens, last, ids)),
        took_some(parse_or(tokens, last, ids)),
    decreases tokens.len(), 11nat,
{
    reveal(parse_or);
    lemma_parse_and(tokens, last, ids);
    let left = parse_and(tokens, last, ids);
    let at = left.consumed;
    lemma_one_more(tokens, ids, at);
    if left.result is Ok && at < tokens.len() && parse_or(tokens, last, ids) != left {
        let right = parse_or(after(tokens, at + 1), tokens[at as int].context, left.ids);
        lemma_parse_or(after(tokens, at + 1), tokens[at as int].context, left.ids);
        lemma_behind(tokens, ids, at + 1, Seq::empty(), right);
        if right.result is Ok {
            assert(written(parse_or(tokens, last, ids).result->Ok_0) =~= kinds(
                tokens,
                at + 1 + right.consumed,
            ));
        }
    }
}

/// The parser reads no more tokens than there are, gives each number that it
/// reads the next identity, and where it gives an expression, it has read at
/// least one token and the expression is written with exactly the tokens that
/// were read, in their order.
pub proof fn lemma_expression_is_written_with_its_tokens(tokens: Seq<TokenView>, ids: usize)
    ensures
        faithful(tokens, ids, Seq::empty(), parse_expression(tokens, ids)),
        took_some(parse_expression(tokens, ids)),
{
    lemma_parse_or(tokens, ContextView { file: None, line: 1, col: 1 }, ids);
}

} // verus!
