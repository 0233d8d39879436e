use brise_parser::error::ParserError;
use brise_parser::token::{BriseFile, Token, TokenVariant};
use brise_parser::tokens::error::{ParsingErrorVariant, ParsingErrors};
use brise_parser::tokens::TokenParser;
use brise_parser::{parse_tokens, parser_file_tokens};

fn lexed(text: &str) -> Vec<Token> {
    parse_tokens(text.to_string()).unwrap()
}

fn kinds(text: &str) -> Vec<TokenVariant> {
    lexed(text).into_iter().map(TokenVariant::from).collect()
}

fn places(text: &str) -> Vec<(usize, usize)> {
    lexed(text)
        .iter()
        .map(|token| (token.context().line().get(), token.context().col().get()))
        .collect()
}

fn errors_of(text: &str) -> ParsingErrors {
    match parse_tokens(text.to_string()) {
        Err(ParserError::Parsing(errors)) => errors,
        other => panic!("{other:?}"),
    }
}

fn number(text: &str) -> TokenVariant {
    TokenVariant::Number(brise_parser::token::Numeral::new(text).unwrap())
}

#[test]
fn empty_and_blank_texts_hold_no_token() {
    assert_eq!(lexed(""), vec![]);
    assert_eq!(lexed(" \t\r\n  \n"), vec![]);
}

#[test]
fn tokens_of_one_character() {
    assert_eq!(
        kinds("(){}[],.+;/*?:"),
        vec![
            TokenVariant::LeftParen,
            TokenVariant::RightParen,
            TokenVariant::LeftBrace,
            TokenVariant::RightBrace,
            TokenVariant::LeftBracket,
            TokenVariant::RightBracket,
            TokenVariant::Comma,
            TokenVariant::Dot,
            TokenVariant::Plus,
            TokenVariant::Semicolon,
            TokenVariant::Slash,
            TokenVariant::Star,
            TokenVariant::QuestionMark,
            TokenVariant::Colon,
        ]
    );
}

#[test]
fn tokens_of_two_characters_win_over_their_first_character() {
    assert_eq!(
        kinds("!= !> == <= >= -> && ||"),
        vec![
            TokenVariant::BangEqual,
            TokenVariant::BangRightChevron,
            TokenVariant::EqualEqual,
            TokenVariant::LessEqual,
            TokenVariant::GreaterEqual,
            TokenVariant::RightArrow,
            TokenVariant::AmpersandAmpersand,
            TokenVariant::BarBar,
        ]
    );
    assert_eq!(places("!= !> == <="), vec![(1, 1), (1, 4), (1, 7), (1, 10)]);
}

#[test]
fn first_characters_alone_fall_back_to_their_own_token() {
    assert_eq!(
        kinds("! = < > -"),
        vec![
            TokenVariant::Bang,
            TokenVariant::Equal,
            TokenVariant::Less,
            TokenVariant::Greater,
            TokenVariant::Minus,
        ]
    );
    assert_eq!(kinds("!"), vec![TokenVariant::Bang]);
    assert_eq!(kinds("-"), vec![TokenVariant::Minus]);
    assert_eq!(
        kinds("! ="),
        vec![TokenVariant::Bang, TokenVariant::Equal]
    );
    assert_eq!(
        kinds("==="),
        vec![TokenVariant::EqualEqual, TokenVariant::Equal]
    );
    assert_eq!(
        kinds("-->"),
        vec![TokenVariant::Minus, TokenVariant::RightArrow]
    );
    assert_eq!(
        kinds("<=>"),
        vec![TokenVariant::LessEqual, TokenVariant::Greater]
    );
}

#[test]
fn lone_ampersand_and_bar_are_errors() {
    let errors = errors_of("a & b | c");
    assert_eq!(errors.errors().len(), 2);
    assert_eq!(
        errors.errors()[0].variant(),
        ParsingErrorVariant::UnexpectedCharacter('&')
    );
    assert_eq!(errors.errors()[0].context().col().get(), 3);
    assert_eq!(
        errors.errors()[1].variant(),
        ParsingErrorVariant::UnexpectedCharacter('|')
    );
    assert_eq!(errors.errors()[1].context().col().get(), 7);
}

#[test]
fn all_errors_of_a_text_are_collected_in_order() {
    let errors = errors_of("a $ b\n# \"open");
    let found: Vec<_> = errors
        .errors()
        .iter()
        .map(|e| {
            (
                e.variant(),
                e.context().line().get(),
                e.context().col().get(),
            )
        })
        .collect();
    assert_eq!(
        found,
        vec![
            (ParsingErrorVariant::UnexpectedCharacter('$'), 1, 3),
            (ParsingErrorVariant::UnexpectedCharacter('#'), 2, 1),
            (ParsingErrorVariant::UnterminatedString, 2, 3),
        ]
    );
    assert_eq!(
        errors.to_string(),
        "[1:3] Unexpected character: $\n[2:1] Unexpected character: #\n\
         [2:3] Missing end of string `\"`, string started here but never end"
    );
}

#[test]
fn unterminated_string() {
    let errors = errors_of("\"abc");
    assert_eq!(errors.errors().len(), 1);
    assert_eq!(
        errors.errors()[0].variant(),
        ParsingErrorVariant::UnterminatedString
    );
    assert_eq!(errors.errors()[0].context().line().get(), 1);
    assert_eq!(errors.errors()[0].context().col().get(), 1);
}

#[test]
fn unexpected_character_that_is_not_in_one_byte() {
    let errors = errors_of("é x");
    assert_eq!(
        errors.errors()[0].variant(),
        ParsingErrorVariant::UnexpectedCharacter('é')
    );
    assert_eq!(errors.to_string(), "[1:1] Unexpected character: é");
}

#[test]
fn columns_count_characters_not_bytes() {
    assert_eq!(places("\"é→\" a"), vec![(1, 1), (1, 6)]);
}

#[test]
fn numbers_take_one_dot_at_most() {
    assert_eq!(kinds("12.5"), vec![number("12.5")]);
    assert_eq!(kinds("7."), vec![number("7.")]);
    assert_eq!(
        kinds("1.2.3"),
        vec![number("1.2"), TokenVariant::Dot, number("3")]
    );
    assert_eq!(
        kinds("1..2"),
        vec![number("1."), TokenVariant::Dot, number("2")]
    );
    assert_eq!(kinds(".5"), vec![TokenVariant::Dot, number("5")]);
    assert_eq!(places("1.2.3"), vec![(1, 1), (1, 4), (1, 5)]);
    assert_eq!(
        kinds("12abc"),
        vec![number("12"), TokenVariant::Identifier("abc".into())]
    );
}

#[test]
fn a_digit_run_is_one_number_with_the_value_of_its_text() {
    for text in ["0", "007", "3.25", "10.", "123456789012345678901234567890.5"] {
        let tokens = lexed(text);
        assert_eq!(tokens.len(), 1);
        assert_eq!(tokens[0].context().line().get(), 1);
        assert_eq!(tokens[0].context().col().get(), 1);
        match tokens[0].variant() {
            TokenVariant::Number(numeral) => {
                assert_eq!(numeral.as_str(), text);
                assert_eq!(
                    numeral.as_str().parse::<f64>().unwrap(),
                    text.parse::<f64>().unwrap()
                );
            }
            other => panic!("{other:?}"),
        }
    }
}

#[test]
fn a_quoted_text_is_one_string_with_that_text() {
    for text in ["", "a", "two words", "line\nbreak\n", "back\\slash", "tab\there", "é"] {
        let tokens = lexed(&format!("\"{text}\""));
        assert_eq!(tokens.len(), 1);
        assert_eq!(tokens[0].variant(), &TokenVariant::String(text.into()));
        assert_eq!(tokens[0].context().line().get(), 1);
        assert_eq!(tokens[0].context().col().get(), 1);
    }
}

#[test]
fn a_backslash_does_not_keep_a_quote_from_closing_the_string() {
    let errors = errors_of("\"a\\\"b\"");
    assert_eq!(errors.errors().len(), 1);
    assert_eq!(
        errors.errors()[0].variant(),
        ParsingErrorVariant::UnterminatedString
    );
    assert_eq!(errors.errors()[0].context().col().get(), 6);
}

#[test]
fn positions_after_strings() {
    assert_eq!(places("\"abc\" x"), vec![(1, 1), (1, 7)]);
    assert_eq!(places("\"abc\"x"), vec![(1, 1), (1, 6)]);
    assert_eq!(places("\"a\nb\nccc\"x"), vec![(1, 1), (3, 5)]);
    assert_eq!(places("\"a\n\"x"), vec![(1, 1), (2, 2)]);
}

#[test]
fn blank_characters_move_the_column_and_newlines_the_line() {
    assert_eq!(places("a\tb\rc d"), vec![(1, 1), (1, 3), (1, 5), (1, 7)]);
    assert_eq!(places("a\n\n  b\nc"), vec![(1, 1), (3, 3), (4, 1)]);
    assert_eq!(places("\r\na"), vec![(2, 1)]);
}

#[test]
fn every_keyword_is_its_own_token() {
    let keywords = [
        ("if", TokenVariant::If),
        ("else", TokenVariant::Else),
        ("loop", TokenVariant::Loop),
        ("while", TokenVariant::While),
        ("for", TokenVariant::For),
        ("fn", TokenVariant::Fn),
        ("self", TokenVariant::BriseSelf),
        ("let", TokenVariant::Let),
        ("true", TokenVariant::True),
        ("false", TokenVariant::False),
        ("break", TokenVariant::Break),
        ("continue", TokenVariant::Continue),
        ("return", TokenVariant::Return),
    ];
    for (text, token) in keywords {
        assert_eq!(kinds(text), vec![token], "{text}");
        assert_eq!(places(text), vec![(1, 1)]);
    }
}

#[test]
fn words_that_only_hold_a_keyword_are_identifiers() {
    for text in ["iffy", "If", "lets", "_if", "fn1", "selfish", "_", "__x9", "Zed"] {
        assert_eq!(
            kinds(text),
            vec![TokenVariant::Identifier(text.into())],
            "{text}"
        );
    }
}

#[test]
fn positions_name_the_file_they_are_in() {
    let file = BriseFile::from("src/main.brise");
    let tokens =
        TokenParser::parse_with_file("a\n b".to_string(), Some(file.clone())).unwrap();
    assert_eq!(tokens.len(), 2);
    assert_eq!(tokens[1].context().file(), &Some(file));
    assert_eq!(tokens[1].context().to_string(), "[src/main.brise, 2:2]");
    assert_eq!(tokens[1].to_string(), "b - [src/main.brise, 2:2]");
}

#[test]
fn file_contents_are_lexed_with_the_file_in_every_position() {
    let file = BriseFile::from("a.brise".to_string());
    let tokens = parser_file_tokens(file.clone(), Ok("let x".to_string())).unwrap();
    assert_eq!(tokens.len(), 2);
    assert_eq!(tokens[0].context().file(), &Some(file.clone()));
    assert_eq!(tokens[1].to_string(), "x - [a.brise, 1:5]");

    let error = parser_file_tokens(file, Ok("let $".to_string())).unwrap_err();
    assert_eq!(error.to_string(), "[a.brise, 1:5] Unexpected character: $");
}

#[test]
fn an_unreadable_file_is_reported_with_its_reason() {
    let file = BriseFile::from("missing.brise");
    let error = parser_file_tokens(file, Err("No such file or directory".to_string()))
        .unwrap_err();
    match &error {
        ParserError::FailedToReadFile(file, reason) => {
            assert_eq!(file.as_path(), "missing.brise");
            assert_eq!(reason, "No such file or directory");
        }
        other => panic!("{other:?}"),
    }
    assert_eq!(
        error.to_string(),
        "Failed to read file: missing.brise - No such file or directory"
    );
}

#[test]
fn the_lexer_gives_no_formatted_string() {
    let tokens = lexed("a \"b\" 1 c == d");
    assert!(tokens
        .iter()
        .all(|token| !matches!(token.variant(), TokenVariant::FormattedString(_))));
}

#[test]
fn tokens_are_written_as_they_were_read() {
    let text = "fn f(a:number)->number{let s=\"two words\";a!=1.50&&b||!c<=d/2.;return?}";
    let written: String = lexed(text)
        .iter()
        .map(|token| token.variant().to_string())
        .collect();
    assert_eq!(written.replace("fnf", "fn f").replace("lets", "let s"), text);
}
