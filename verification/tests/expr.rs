use std::collections::VecDeque;

use brise_parser::expr::error::ExprErrorVariant;
use brise_parser::expr::ExprParser;
use brise_parser::parse_tokens;
use brise_parser::syntax_tree::expr::binary::BinaryOperatorVariant;
use brise_parser::syntax_tree::expr::literal::{
    Literal, LiteralIds, LiteralVariant, NumberLiteral,
};
use brise_parser::syntax_tree::expr::unary::UnaryOperatorVariant;
use brise_parser::syntax_tree::expr::{Expr, ExprVariant};
use brise_parser::token::{BriseContext, Numeral, Token, TokenVariant};

fn tokens_from_variant(variants: Vec<TokenVariant>) -> VecDeque<Token> {
    variants
        .into_iter()
        .map(|variant| Token::new(variant, BriseContext::default()))
        .collect()
}

fn tokens_of(text: &str) -> VecDeque<Token> {
    parse_tokens(text.to_string()).unwrap().into_iter().collect()
}

/// The expression written with a pair of brackets round every operation.
fn shape(expr: &Expr) -> String {
    match expr.variant() {
        ExprVariant::Binary(binary) => format!(
            "[{} {:?} {}]",
            shape(binary.left()),
            binary.operator().variant(),
            shape(binary.right())
        ),
        ExprVariant::Unary(unary) => {
            format!("[{:?} {}]", unary.operator().variant(), shape(unary.expr()))
        }
        ExprVariant::Grouping(inner) => format!("({})", shape(inner)),
        ExprVariant::Literal(literal) => match literal.variant() {
            LiteralVariant::Number(number) => number.value().as_str().to_string(),
            LiteralVariant::String(text) => format!("{:?}", text.as_str()),
            LiteralVariant::FormattedString(_) => unreachable!(),
            LiteralVariant::True => "true".to_string(),
            LiteralVariant::False => "false".to_string(),
            LiteralVariant::Unknown => "?".to_string(),
        },
        ExprVariant::Identifier(identifier) => identifier.identity().as_str().to_string(),
    }
}

fn parsed(text: &str) -> String {
    let mut tokens = tokens_of(text);
    let expr = ExprParser::parse(&mut tokens).unwrap();
    assert!(tokens.is_empty(), "{tokens:?}");
    shape(&expr)
}

#[test]
fn number_literal() {
    let tokens = vec![TokenVariant::Number(Numeral::new("45.6").unwrap())];
    let mut tokens = tokens_from_variant(tokens);

    let expr = ExprParser::parse(&mut tokens).unwrap();

    let expected_expr = Expr::new(ExprVariant::Literal(Literal::new(
        LiteralVariant::Number(NumberLiteral::new_with_custom_id(
            Numeral::new("45.6").unwrap(),
            0,
        )),
        BriseContext::default(),
    )));

    assert!(tokens.is_empty());
    assert_eq!(expected_expr, expr);
    match expr.variant() {
        ExprVariant::Literal(literal) => match literal.variant() {
            LiteralVariant::Number(number) => {
                assert_eq!(number.value().as_str().parse::<f64>().unwrap(), 45.6);
                assert_eq!(number.id(), 0);
            }
            other => panic!("{other:?}"),
        },
        other => panic!("{other:?}"),
    }
}

#[test]
fn number_literals_differ_by_identity_not_by_value() {
    let one = NumberLiteral::new_with_custom_id(Numeral::new("1").unwrap(), 7);
    let other = NumberLiteral::new_with_custom_id(Numeral::new("1").unwrap(), 8);
    let two = NumberLiteral::new_with_custom_id(Numeral::new("2").unwrap(), 7);
    assert_ne!(one, other);
    assert_eq!(one, two);
}

#[test]
fn literal_identities_count_up_and_start_over() {
    let mut ids = LiteralIds::new();
    assert_eq!(ids.fresh(), 0);
    assert_eq!(ids.fresh(), 1);
    assert_eq!(ids.peek(), 2);
    let mut last = LiteralIds::starting_at(usize::MAX);
    assert_eq!(last.fresh(), usize::MAX);
    assert_eq!(last.fresh(), 0);
    let first = NumberLiteral::new(Numeral::new("3").unwrap(), &mut ids);
    let second = NumberLiteral::new(Numeral::new("3").unwrap(), &mut ids);
    assert_eq!((first.id(), second.id()), (2, 3));
}

#[test]
fn literals_of_one_parse_are_numbered_in_order() {
    let mut tokens = tokens_of("1 + 2 * 3");
    let mut ids = LiteralIds::starting_at(10);
    let expr = ExprParser::parse_with_ids(&mut tokens, &mut ids).unwrap();
    assert_eq!(ids.peek(), 13);
    let mut found = Vec::new();
    collect_ids(&expr, &mut found);
    assert_eq!(found, vec![10, 11, 12]);
}

fn collect_ids(expr: &Expr, found: &mut Vec<usize>) {
    match expr.variant() {
        ExprVariant::Binary(binary) => {
            collect_ids(binary.left(), found);
            collect_ids(binary.right(), found);
        }
        ExprVariant::Unary(unary) => collect_ids(unary.expr(), found),
        ExprVariant::Grouping(inner) => collect_ids(inner, found),
        ExprVariant::Literal(literal) => {
            if let LiteralVariant::Number(number) = literal.variant() {
                found.push(number.id());
            }
        }
        ExprVariant::Identifier(_) => {}
    }
}

#[test]
fn unclosed_grouping_is_reported_at_its_opening_paren() {
    let mut tokens = tokens_of(" (1+2");
    let error = ExprParser::parse(&mut tokens).unwrap_err();
    assert_eq!(error.variant(), ExprErrorVariant::UnclosedGrouping);
    assert_eq!(error.context().line().get(), 1);
    assert_eq!(error.context().col().get(), 2);
    assert!(tokens.is_empty());
    assert_eq!(
        error.to_string(),
        "[1:2] A grouping expression was started here but was never closed"
    );
}

#[test]
fn grouping_closed_by_another_token_is_reported_at_its_opening_paren() {
    let mut tokens = tokens_of("(1 2)");
    let error = ExprParser::parse(&mut tokens).unwrap_err();
    assert_eq!(error.variant(), ExprErrorVariant::UnclosedGrouping);
    assert_eq!(error.context().col().get(), 1);
    assert_eq!(tokens.len(), 2);
}

#[test]
fn missing_operand_is_reported_at_the_last_token() {
    let mut tokens = tokens_of("1 +");
    let error = ExprParser::parse(&mut tokens).unwrap_err();
    assert_eq!(error.variant(), ExprErrorVariant::UnclosedGrouping);
    assert_eq!(error.context().col().get(), 3);
    assert!(tokens.is_empty());
}

#[test]
fn empty_input_is_reported_at_the_start() {
    let mut tokens = VecDeque::new();
    let error = ExprParser::parse(&mut tokens).unwrap_err();
    assert_eq!(error.variant(), ExprErrorVariant::UnclosedGrouping);
    assert_eq!(error.context(), &BriseContext::default());
}

#[test]
fn token_that_starts_no_expression_is_taken_and_reported() {
    let mut tokens = tokens_of("  * 4");
    let error = ExprParser::parse(&mut tokens).unwrap_err();
    assert_eq!(error.variant(), ExprErrorVariant::UnclosedGrouping);
    assert_eq!(error.context().col().get(), 3);
    assert_eq!(tokens.len(), 1);
}

#[test]
fn or_and_and_group_to_the_right() {
    assert_eq!(parsed("a || b || c"), "[a Or [b Or c]]");
    assert_eq!(parsed("a && b && c"), "[a And [b And c]]");
    assert_eq!(parsed("a || b && c || d"), "[a Or [[b And c] Or d]]");
}

#[test]
fn equality_comparison_and_term_group_to_the_left() {
    assert_eq!(parsed("a == b != c"), "[[a EqualEqual b] BangEqual c]");
    assert_eq!(parsed("a < b <= c > d >= e"),
        "[[[[a Less b] LessEqual c] Greater d] GreaterEqual e]");
    assert_eq!(parsed("1 + 2 - 3"), "[[1 Plus 2] Minus 3]");
}

#[test]
fn binding_strength_goes_from_or_down_to_factor() {
    assert_eq!(parsed("1 + 2 * 3"), "[1 Plus [2 Star 3]]");
    assert_eq!(parsed("1 * 2 + 3 / 4"), "[[1 Star 2] Plus [3 Slash 4]]");
    assert_eq!(
        parsed("a || b && c == d < e + f * g"),
        "[a Or [b And [c EqualEqual [d Less [e Plus [f Star g]]]]]]"
    );
}

#[test]
fn factor_takes_one_operator_only() {
    let mut tokens = tokens_of("a * b * c");
    let expr = ExprParser::parse(&mut tokens).unwrap();
    assert_eq!(shape(&expr), "[a Star b]");
    assert_eq!(tokens.len(), 2);
    assert_eq!(tokens[0].variant(), &TokenVariant::Star);
}

#[test]
fn prefix_operators_nest() {
    assert_eq!(parsed("--a"), "[Minus [Minus a]]");
    assert_eq!(parsed("!-a"), "[Bang [Minus a]]");
    assert_eq!(parsed("-a - -b"), "[[Minus a] Minus [Minus b]]");
}

#[test]
fn groupings_and_literals() {
    assert_eq!(parsed("(1 + 2) * 3"), "[([1 Plus 2]) Star 3]");
    assert_eq!(parsed("((a))"), "((a))");
    assert_eq!(parsed("true"), "true");
    assert_eq!(parsed("false"), "false");
    assert_eq!(parsed("?"), "?");
    assert_eq!(parsed("\"text\""), "\"text\"");
}

#[test]
fn operators_keep_the_position_of_their_token() {
    let mut tokens = tokens_of("a\n  + !b");
    let expr = ExprParser::parse(&mut tokens).unwrap();
    let binary = match expr.variant() {
        ExprVariant::Binary(binary) => binary,
        other => panic!("{other:?}"),
    };
    assert_eq!(binary.operator().variant(), BinaryOperatorVariant::Plus);
    assert_eq!(binary.operator().context().line().get(), 2);
    assert_eq!(binary.operator().context().col().get(), 3);
    let unary = match binary.right().variant() {
        ExprVariant::Unary(unary) => unary,
        other => panic!("{other:?}"),
    };
    assert_eq!(unary.operator().variant(), UnaryOperatorVariant::Bang);
    assert_eq!(unary.operator().context().col().get(), 5);
    let identifier = match unary.expr().variant() {
        ExprVariant::Identifier(identifier) => identifier,
        other => panic!("{other:?}"),
    };
    assert_eq!(identifier.identity().as_str(), "b");
    assert_eq!(identifier.context().col().get(), 6);
}

#[test]
fn tokens_behind_the_expression_stay() {
    let mut tokens = tokens_of("1 + 2 ) 3");
    let expr = ExprParser::parse(&mut tokens).unwrap();
    assert_eq!(shape(&expr), "[1 Plus 2]");
    assert_eq!(tokens.len(), 2);
}
