use std::collections::VecDeque;

use brise_parser::error::ParserError;
use brise_parser::expr::error::{ExprError, ExprErrorVariant};
use brise_parser::expr::ExprParser;
use brise_parser::syntax_tree::expr::binary::{
    BinaryExpr, BinaryOperator, BinaryOperatorVariant,
};
use brise_parser::syntax_tree::expr::identifier::Identifier;
use brise_parser::syntax_tree::expr::literal::{Literal, LiteralVariant, NumberLiteral};
use brise_parser::syntax_tree::expr::unary::{UnaryExpr, UnaryOperator, UnaryOperatorVariant};
use brise_parser::syntax_tree::expr::{Expr, ExprVariant};
use brise_parser::token::{BriseContext, Column, Line, Numeral, Token, TokenVariant};
use brise_parser::tokens::error::{ParsingError, ParsingErrorVariant, ParsingErrors};

fn at(line: usize, col: usize) -> BriseContext {
    BriseContext::new(None, Line::new(line).unwrap(), Column::new(col).unwrap())
}

fn name(text: &str, col: usize) -> Expr {
    Expr::from(Identifier::new(text.into(), at(1, col)))
}

#[test]
fn nodes_hold_what_they_were_built_of() {
    let identifier = Identifier::new("x".into(), at(2, 3));
    assert_eq!(identifier.identity().as_str(), "x");
    assert_eq!(identifier.context(), &at(2, 3));

    let literal = Literal::new(LiteralVariant::True, at(4, 5));
    assert_eq!(literal.variant(), &LiteralVariant::True);
    assert_eq!(literal.context(), &at(4, 5));

    let operator = BinaryOperator::new(BinaryOperatorVariant::Slash, at(1, 3));
    let binary = BinaryExpr::new(name("a", 1), operator.clone(), name("b", 5));
    assert_eq!(binary.left(), &name("a", 1));
    assert_eq!(binary.operator(), &operator);
    assert_eq!(binary.right(), &name("b", 5));

    let prefix = UnaryOperator::new(UnaryOperatorVariant::Bang, at(1, 1));
    let unary = UnaryExpr::new(prefix.clone(), name("c", 2));
    assert_eq!(unary.operator(), &prefix);
    assert_eq!(unary.expr(), &name("c", 2));

    let expr = Expr::new(ExprVariant::Grouping(name("d", 2)));
    assert_eq!(expr.variant(), &ExprVariant::Grouping(name("d", 2)));
}

#[test]
fn nodes_turn_into_expressions_of_their_shape() {
    let identifier = Identifier::new("x".into(), at(1, 1));
    assert_eq!(
        Expr::from(identifier.clone()).variant(),
        &ExprVariant::Identifier(identifier)
    );
    let literal = Literal::new(LiteralVariant::Unknown, at(1, 1));
    assert_eq!(
        Expr::from(literal.clone()).variant(),
        &ExprVariant::Literal(literal)
    );
    let binary = BinaryExpr::new(
        name("a", 1),
        BinaryOperator::new(BinaryOperatorVariant::Plus, at(1, 2)),
        name("b", 3),
    );
    assert_eq!(
        Expr::from(binary.clone()).variant(),
        &ExprVariant::Binary(binary)
    );
    let unary = UnaryExpr::new(
        UnaryOperator::new(UnaryOperatorVariant::Minus, at(1, 1)),
        name("a", 2),
    );
    assert_eq!(
        Expr::from(unary.clone()).variant(),
        &ExprVariant::Unary(unary)
    );
}

#[test]
fn clones_are_equal_to_what_they_were_made_from() {
    let number = NumberLiteral::new_with_custom_id(Numeral::new("2.5").unwrap(), 3);
    let copy = number.clone();
    assert_eq!(copy.id(), 3);
    assert_eq!(copy.value().as_str(), "2.5");

    let formatted = LiteralVariant::FormattedString(vec![name("a", 1), name("b", 2)]);
    assert_eq!(formatted.clone(), formatted);
    for variant in [
        LiteralVariant::Number(number),
        LiteralVariant::String("s".into()),
        LiteralVariant::True,
        LiteralVariant::False,
        LiteralVariant::Unknown,
    ] {
        assert_eq!(variant.clone(), variant);
        let literal = Literal::new(variant, at(3, 3));
        assert_eq!(literal.clone(), literal);
        let shape = ExprVariant::Literal(literal);
        assert_eq!(shape.clone(), shape);
    }
    let expr = Expr::new(ExprVariant::Grouping(name("x", 2)));
    assert_eq!(expr.clone(), expr);
    let shape = ExprVariant::Unary(UnaryExpr::new(
        UnaryOperator::new(UnaryOperatorVariant::Bang, at(1, 1)),
        expr,
    ));
    assert_eq!(shape.clone(), shape);
}

#[test]
fn the_parser_takes_token_queues_without_formatted_strings() {
    let mut tokens: VecDeque<Token> = VecDeque::new();
    assert!(ExprParser::accepts(&tokens));
    tokens.push_back(Token::new(TokenVariant::Identifier("a".into()), at(1, 1)));
    tokens.push_back(Token::new(TokenVariant::Plus, at(1, 2)));
    assert!(ExprParser::accepts(&tokens));
    tokens.push_back(Token::new(TokenVariant::FormattedString(vec![]), at(1, 3)));
    assert!(!ExprParser::accepts(&tokens));
    tokens.push_back(Token::new(TokenVariant::True, at(1, 5)));
    assert!(!ExprParser::accepts(&tokens));
}

#[test]
fn structural_errors_are_written_with_their_position() {
    let error = ExprError::new(ExprErrorVariant::ExpectedToken, at(7, 9));
    assert_eq!(error.variant(), ExprErrorVariant::ExpectedToken);
    assert_eq!(error.context(), &at(7, 9));
    assert_eq!(error.to_string(), "[7:9] A token was expected here");
    assert_eq!(
        ExprErrorVariant::UnclosedGrouping.to_string(),
        "A grouping expression was started here but was never closed"
    );
}

#[test]
fn lexical_errors_are_written_one_per_line() {
    let first = ParsingError::new(ParsingErrorVariant::UnexpectedCharacter('@'), at(1, 2));
    assert_eq!(first.to_string(), "[1:2] Unexpected character: @");
    assert_eq!(
        ParsingErrorVariant::UnterminatedString.to_string(),
        "Missing end of string `\"`, string started here but never end"
    );
    let one = ParsingErrors::from(first);
    assert_eq!(one.errors().len(), 1);
    assert_eq!(one.to_string(), "[1:2] Unexpected character: @");

    let none = ParsingErrors::from(Vec::new());
    assert_eq!(none.to_string(), "");

    let three = ParsingErrors::from(vec![
        ParsingError::new(ParsingErrorVariant::UnexpectedCharacter('a'), at(1, 1)),
        ParsingError::new(ParsingErrorVariant::UnterminatedString, at(2, 2)),
        ParsingError::new(ParsingErrorVariant::UnexpectedCharacter('c'), at(3, 3)),
    ]);
    let text = three.to_string();
    assert_eq!(
        text,
        "[1:1] Unexpected character: a\n\
         [2:2] Missing end of string `\"`, string started here but never end\n\
         [3:3] Unexpected character: c"
    );
    let wrapped = ParserError::from(three);
    assert_eq!(wrapped.to_string(), text);
}
