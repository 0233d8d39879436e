use std::rc::Rc;

use brise_parser::syntax_tree::error::TokenConversionError;
use brise_parser::syntax_tree::expr::binary::{BinaryOperator, BinaryOperatorVariant};
use brise_parser::syntax_tree::expr::unary::{UnaryOperator, UnaryOperatorVariant};
use brise_parser::text::{chars_of, string_of};
use brise_parser::token::{
    BriseContext, BriseFile, Column, Line, Numeral, RawString, Token, TokenVariant,
};

fn at(line: usize, col: usize) -> BriseContext {
    BriseContext::new(None, Line::new(line).unwrap(), Column::new(col).unwrap())
}

#[test]
fn lines_and_columns_are_counted_from_one() {
    assert_eq!(Line::new(0), None);
    assert_eq!(Column::new(0), None);
    assert_eq!(Line::new(1), Some(Line::default()));
    assert_eq!(Column::new(1), Some(Column::default()));
    assert_eq!(Line::new(17).unwrap().get(), 17);
    assert_eq!(Column::new(4).unwrap().get(), 4);
    assert_eq!(Line::default().get(), 1);
    assert_eq!(Column::default().get(), 1);
}

#[test]
fn lines_and_columns_add_up_and_stop_at_the_largest() {
    let line = Line::new(3).unwrap();
    assert_eq!((line + 4).get(), 7);
    assert_eq!((line + Line::new(2).unwrap()).get(), 5);
    assert_eq!((line + usize::MAX).get(), usize::MAX);
    assert_eq!((Line::new(usize::MAX).unwrap() + line).get(), usize::MAX);
    let mut moving = line;
    moving += 2;
    moving += Line::new(10).unwrap();
    assert_eq!(moving.get(), 15);

    let col = Column::new(8).unwrap();
    assert_eq!((col + 1).get(), 9);
    assert_eq!((col + Column::new(8).unwrap()).get(), 16);
    assert_eq!((col + (usize::MAX - 8)).get(), usize::MAX);
    assert_eq!((col + (usize::MAX - 7)).get(), usize::MAX);
    let mut moving = col;
    moving += 2;
    moving += Column::new(5).unwrap();
    assert_eq!(moving.get(), 15);
}

#[test]
fn default_context_is_the_start_of_an_unknown_file() {
    let context = BriseContext::default();
    assert_eq!(context.line(), Line::default());
    assert_eq!(context.col(), Column::default());
    assert_eq!(context.file(), &None);
    assert_eq!(context.to_string(), "[1:1]");
    assert_eq!(context, at(1, 1));
}

#[test]
fn contexts_are_written_with_and_without_their_file() {
    assert_eq!(at(12, 345).to_string(), "[12:345]");
    assert_eq!(at(10, 100).to_string(), "[10:100]");
    let context = BriseContext::new(
        Some(BriseFile::from("dir/file.brise")),
        Line::new(9).unwrap(),
        Column::new(20).unwrap(),
    );
    assert_eq!(context.to_string(), "[dir/file.brise, 9:20]");
    assert_eq!(context.file().as_ref().unwrap().as_path(), "dir/file.brise");
    let largest = BriseContext::new(
        None,
        Line::new(usize::MAX).unwrap(),
        Column::new(1).unwrap(),
    );
    assert_eq!(largest.to_string(), format!("[{}:1]", usize::MAX));
    assert_eq!(context.clone(), context);
}

#[test]
fn raw_strings_hold_the_text_they_were_made_of() {
    let from_str = RawString::from("name");
    let from_string = RawString::from(String::from("name"));
    let from_rc = RawString::new(Rc::from("name"));
    assert_eq!(from_str.as_str(), "name");
    assert_eq!(from_str, from_string);
    assert_eq!(from_str, from_rc);
    assert_eq!(from_str.clone(), from_str);
    assert_eq!(from_str.to_string(), "name");
    assert_ne!(from_str, RawString::from("other"));
    assert_eq!(RawString::from("").as_str(), "");
}

#[test]
fn characters_of_a_text_and_back() {
    let chars = chars_of("aé→z");
    assert_eq!(chars, vec!['a', 'é', '→', 'z']);
    assert_eq!(string_of(&chars, 1, 3), "é→");
    assert_eq!(string_of(&chars, 0, 4), "aé→z");
    assert_eq!(string_of(&chars, 2, 2), "");
}

#[test]
fn numerals_are_digit_runs_with_one_dot_at_most() {
    for text in ["0", "12", "1.5", "1.", "000.000"] {
        assert_eq!(Numeral::new(text).unwrap().as_str(), text);
        assert_eq!(Numeral::new(text).unwrap().text().as_str(), text);
    }
    for text in ["", ".", ".5", "1.2.3", "1..", "a", "1a", "-1", "1 ", "١"] {
        assert_eq!(Numeral::new(text), None, "{text:?}");
    }
    let numeral = Numeral::new("4.25").unwrap();
    assert_eq!(numeral.clone(), numeral);
}

#[test]
fn token_kinds_know_their_class() {
    let equality = [TokenVariant::BangEqual, TokenVariant::EqualEqual];
    let comparison = [
        TokenVariant::Greater,
        TokenVariant::GreaterEqual,
        TokenVariant::Less,
        TokenVariant::LessEqual,
    ];
    let term = [TokenVariant::Plus, TokenVariant::Minus];
    let factor = [TokenVariant::Star, TokenVariant::Slash];
    let unary = [TokenVariant::Bang, TokenVariant::Minus];
    let literal = [
        TokenVariant::Number(Numeral::new("1").unwrap()),
        TokenVariant::String("s".into()),
        TokenVariant::FormattedString(vec![]),
        TokenVariant::False,
        TokenVariant::True,
        TokenVariant::QuestionMark,
    ];
    for kind in all_kinds() {
        assert_eq!(kind.is_equality(), equality.contains(&kind), "{kind:?}");
        assert_eq!(kind.is_comparison(), comparison.contains(&kind), "{kind:?}");
        assert_eq!(kind.is_term(), term.contains(&kind), "{kind:?}");
        assert_eq!(kind.is_factor(), factor.contains(&kind), "{kind:?}");
        assert_eq!(kind.is_unary(), unary.contains(&kind), "{kind:?}");
        assert_eq!(kind.is_literal(), literal.contains(&kind), "{kind:?}");
        let token = Token::new(kind, at(1, 1));
        assert_eq!(token.is_equality(), token.variant().is_equality());
        assert_eq!(token.is_comparison(), token.variant().is_comparison());
        assert_eq!(token.is_term(), token.variant().is_term());
        assert_eq!(token.is_factor(), token.variant().is_factor());
        assert_eq!(token.is_unary(), token.variant().is_unary());
        assert_eq!(token.is_literal(), token.variant().is_literal());
    }
}

fn all_kinds() -> Vec<TokenVariant> {
    vec![
        TokenVariant::LeftParen,
        TokenVariant::RightParen,
        TokenVariant::LeftBrace,
        TokenVariant::RightBrace,
        TokenVariant::LeftBracket,
        TokenVariant::RightBracket,
        TokenVariant::Comma,
        TokenVariant::Dot,
        TokenVariant::Minus,
        TokenVariant::Plus,
        TokenVariant::Semicolon,
        TokenVariant::Slash,
        TokenVariant::Star,
        TokenVariant::Bang,
        TokenVariant::BangEqual,
        TokenVariant::Equal,
        TokenVariant::EqualEqual,
        TokenVariant::Greater,
        TokenVariant::GreaterEqual,
        TokenVariant::Less,
        TokenVariant::LessEqual,
        TokenVariant::Identifier("name".into()),
        TokenVariant::String("s".into()),
        TokenVariant::FormattedString(vec![]),
        TokenVariant::Number(Numeral::new("1").unwrap()),
        TokenVariant::AmpersandAmpersand,
        TokenVariant::BarBar,
        TokenVariant::BangRightChevron,
        TokenVariant::Return,
        TokenVariant::If,
        TokenVariant::Else,
        TokenVariant::While,
        TokenVariant::Loop,
        TokenVariant::For,
        TokenVariant::BriseSelf,
        TokenVariant::Let,
        TokenVariant::True,
        TokenVariant::False,
        TokenVariant::QuestionMark,
        TokenVariant::Colon,
        TokenVariant::Break,
        TokenVariant::Continue,
        TokenVariant::Fn,
        TokenVariant::RightArrow,
    ]
}

#[test]
fn token_kinds_are_written_as_in_source_text() {
    let texts = [
        "(", ")", "{", "}", "[", "]", ",", ".", "-", "+", ";", "/", "*", "!", "!=", "=", "==",
        ">", ">=", "<", "<=", "name", "\"s\"", "``", "1", "&&", "||", "!>", "return", "if",
        "else", "while", "loop", "for", "self", "let", "true", "false", "?", ":", "break",
        "continue", "fn", "->",
    ];
    let kinds = all_kinds();
    assert_eq!(kinds.len(), texts.len());
    for (kind, text) in kinds.iter().zip(texts) {
        assert_eq!(kind.to_string(), text);
    }
    assert_eq!(
        TokenVariant::Number(Numeral::new("10.50").unwrap()).to_string(),
        "10.50"
    );
}

#[test]
fn formatted_strings_are_written_part_by_part() {
    let inner = TokenVariant::FormattedString(vec![(
        "in ".into(),
        vec![Token::new(TokenVariant::Identifier("z".into()), at(1, 1))],
    )]);
    let kind = TokenVariant::FormattedString(vec![
        (
            "a is ".into(),
            vec![
                Token::new(TokenVariant::Identifier("x".into()), at(1, 1)),
                Token::new(TokenVariant::Plus, at(1, 2)),
                Token::new(TokenVariant::Number(Numeral::new("1").unwrap()), at(1, 3)),
            ],
        ),
        (" and ".into(), vec![]),
        ("".into(), vec![Token::new(inner, at(1, 9))]),
        ("!".into(), vec![Token::new(TokenVariant::String("s".into()), at(2, 1))]),
    ]);
    assert_eq!(kind.to_string(), "`a is x+1 and `in z`!\"s\"`");
}

#[test]
fn tokens_are_written_with_their_position() {
    let token = Token::new(TokenVariant::BangRightChevron, at(3, 14));
    assert_eq!(token.to_string(), "!> - [3:14]");
    assert_eq!(token.variant(), &TokenVariant::BangRightChevron);
    assert_eq!(token.context(), &at(3, 14));
    let token = Token::new(TokenVariant::Identifier("abc".into()), at(1, 2));
    assert_eq!(BriseContext::from(token), at(1, 2));
    let token = Token::new(TokenVariant::Identifier("abc".into()), at(1, 2));
    assert_eq!(
        TokenVariant::from(token),
        TokenVariant::Identifier("abc".into())
    );
}

#[test]
fn tokens_turn_into_the_binary_operator_they_denote() {
    let operators = [
        (TokenVariant::EqualEqual, BinaryOperatorVariant::EqualEqual),
        (TokenVariant::BangEqual, BinaryOperatorVariant::BangEqual),
        (TokenVariant::Less, BinaryOperatorVariant::Less),
        (TokenVariant::LessEqual, BinaryOperatorVariant::LessEqual),
        (TokenVariant::Greater, BinaryOperatorVariant::Greater),
        (TokenVariant::GreaterEqual, BinaryOperatorVariant::GreaterEqual),
        (TokenVariant::Plus, BinaryOperatorVariant::Plus),
        (TokenVariant::Minus, BinaryOperatorVariant::Minus),
        (TokenVariant::Star, BinaryOperatorVariant::Star),
        (TokenVariant::Slash, BinaryOperatorVariant::Slash),
        (TokenVariant::BarBar, BinaryOperatorVariant::Or),
        (TokenVariant::AmpersandAmpersand, BinaryOperatorVariant::And),
    ];
    let mut denoting = Vec::new();
    for (kind, operator) in operators {
        let found = BinaryOperator::try_from(Token::new(kind, at(2, 5))).unwrap();
        assert_eq!(found, BinaryOperator::new(operator, at(2, 5)));
        assert_eq!(found.variant(), operator);
        assert_eq!(found.context(), &at(2, 5));
        denoting.push(operator);
    }
    let mut others = 0;
    for kind in all_kinds() {
        if let Err(error) = BinaryOperator::try_from(Token::new(kind, at(1, 1))) {
            assert!(matches!(error, TokenConversionError::BinaryOperator(_)));
            others += 1;
        }
    }
    assert_eq!(others, all_kinds().len() - denoting.len());
}

#[test]
fn tokens_turn_into_the_prefix_operator_they_denote() {
    let bang = UnaryOperator::try_from(Token::new(TokenVariant::Bang, at(1, 4))).unwrap();
    assert_eq!(bang, UnaryOperator::new(UnaryOperatorVariant::Bang, at(1, 4)));
    let minus = UnaryOperator::try_from(Token::new(TokenVariant::Minus, at(7, 1))).unwrap();
    assert_eq!(minus.variant(), UnaryOperatorVariant::Minus);
    assert_eq!(minus.context(), &at(7, 1));
    let mut others = 0;
    for kind in all_kinds() {
        if let Err(error) = UnaryOperator::try_from(Token::new(kind, at(1, 1))) {
            assert!(matches!(error, TokenConversionError::UnaryOperator(_)));
            others += 1;
        }
    }
    assert_eq!(others, all_kinds().len() - 2);
}

#[test]
fn conversion_errors_name_the_token() {
    let error = BinaryOperator::try_from(Token::new(TokenVariant::Let, at(4, 2))).unwrap_err();
    assert_eq!(
        error.to_string(),
        "Can't convert token let - [4:2] into a binary operator"
    );
    let error = UnaryOperator::try_from(Token::new(TokenVariant::Plus, at(1, 1))).unwrap_err();
    assert_eq!(
        error.to_string(),
        "Can't convert token + - [1:1] into an unary operator"
    );
}
