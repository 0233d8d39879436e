//! The lexer: from source text to tokens.
pub mod error;
pub mod laws;
pub mod lexeme;

use crate::error::{ParserError, ParserErrorView};
use crate::expr::parseable;
use crate::text::{chars_of, string_of};
use crate::token::context::{file_view, saturate};
use crate::token::numeral::{char_is_digit, is_digit, is_numeral_text};
use crate::token::{BriseContext, BriseFile, Column, Line, Numeral, RawString, Token, TokenVariant};
use error::{ParsingError, ParsingErrorVariant, ParsingErrors};
use lexeme::{
    col_at, is_blank, is_letter, keyword, lemma_run_within, lemma_scan_within, lex, lex_from,
    line_at, number_len, run_len, scan, CharClass, Lexeme,
};
use vstd::prelude::*;

verus! {

/// Whether `c` is a letter.
pub fn char_is_letter(c: char) -> (r: bool)
    ensures
        r == is_letter(c),
{
    (c >= 'a' && c <= 'z') || (c >= 'A' && c <= 'Z')
}

/// Whether `c` is blank.
pub fn char_is_blank(c: char) -> (r: bool)
    ensures
        r == is_blank(c),
{
    c == ' ' || c == '\t' || c == '\r' || c == '\n'
}

impl CharClass {
    /// Whether `c` belongs to the class.
    pub fn contains(self, c: char) -> (r: bool)
        ensures
            r == self.holds(c),
    {
        match self {
            CharClass::Digit => char_is_digit(c),
            CharClass::IdentifierPart => char_is_letter(c) || char_is_digit(c) || c == '_',
            CharClass::Unquoted => c != '"',
        }
    }
}

/// The index at which the run of `class` that starts at `from` ends.
pub fn run_end(chars: &Vec<char>, from: usize, class: CharClass) -> (end: usize)
    requires
        from <= chars.len(),
    ensures
        end == from + run_len(chars@, from as int, class),
        end <= chars.len(),
{
    let mut end = from;
    while end < chars.len() && class.contains(chars[end])
        invariant
            from <= end <= chars.len(),
            run_len(chars@, from as int, class) == (end - from) + run_len(
                chars@,
                end as int,
                class,
            ),
        decreases chars.len() - end,
    {
        end += 1;
    }
    end
}

/// Every character of a run belongs to the run's class.
pub proof fn lemma_run_holds(s: Seq<char>, i: int, class: CharClass, k: int)
    requires
        0 <= i <= k < i + run_len(s, i, class),
    ensures
        k < s.len(),
        class.holds(s[k]),
    decreases k - i,
{
    if k > i {
        lemma_run_holds(s, i + 1, class, k);
    }
}

/// What a digit starts is written as a number.
pub proof fn lemma_number_is_numeral(s: Seq<char>, i: int)
    requires
        0 <= i < s.len(),
        is_digit(s[i]),
    ensures
        i + number_len(s, i) <= s.len(),
        is_numeral_text(s.subrange(i, i + number_len(s, i))),
{
    lemma_scan_within(s, i);
    let whole = 1 + run_len(s, i + 1, CharClass::Digit);
    lemma_run_within(s, i + 1, CharClass::Digit);
    if i + whole < s.len() {
        lemma_run_within(s, i + whole + 1, CharClass::Digit);
    }
    let len = number_len(s, i);
    let text = s.subrange(i, i + len);
    assert forall|k: int| 0 <= k < text.len() implies (is_digit(#[trigger] text[k]) || text[k]
        == '.') && (k != whole ==> is_digit(text[k])) by {
        if 1 <= k < whole {
            lemma_run_holds(s, i + 1, CharClass::Digit, i + k);
        } else if k > whole {
            lemma_run_holds(s, i + whole + 1, CharClass::Digit, i + k);
        }
    }
}

/// The keyword that `chars[from..to]` spells, if it spells one.
fn keyword_of(chars: &Vec<char>, from: usize, to: usize) -> (r: Option<TokenVariant>)
    requires
        from <= to <= chars.len(),
    ensures
        match keyword(chars@.subrange(from as int, to as int)) {
            Some(token) => r matches Some(found) && found@ == token,
            None => r is None,
        },
{
    let word = string_of(chars, from, to);
    if word == String::from_str("if") {
        Some(TokenVariant::If)
    } else if word == String::from_str("else") {
        Some(TokenVariant::Else)
    } else if word == String::from_str("loop") {
        Some(TokenVariant::Loop)
    } else if word == String::from_str("while") {
        Some(TokenVariant::While)
    } else if word == String::from_str("for") {
        Some(TokenVariant::For)
    } else if word == String::from_str("fn") {
        Some(TokenVariant::Fn)
    } else if word == String::from_str("self") {
        Some(TokenVariant::BriseSelf)
    } else if word == String::from_str("let") {
        Some(TokenVariant::Let)
    } else if word == String::from_str("true") {
        Some(TokenVariant::True)
    } else if word == String::from_str("false") {
        Some(TokenVariant::False)
    } else if word == String::from_str("break") {
        Some(TokenVariant::Break)
    } else if word == String::from_str("continue") {
        Some(TokenVariant::Continue)
    } else if word == String::from_str("return") {
        Some(TokenVariant::Return)
    } else {
        None
    }
}

/// What the lexer finds at one place of the text.
pub enum Found {
    /// Blank space.
    Blank,
    /// A token.
    Token(TokenVariant),
    /// A lexical error.
    Error(ParsingErrorVariant),
}

impl View for Found {
    type V = Lexeme;

    open spec fn view(&self) -> Lexeme {
        match self {
            Found::Blank => Lexeme::Blank,
            Found::Token(variant) => Lexeme::Token(variant@),
            Found::Error(variant) => Lexeme::Error(*variant),
        }
    }
}

/// Whether the character after `chars[i]` is `c`.
fn is_followed_by(chars: &Vec<char>, i: usize, c: char) -> (r: bool)
    requires
        i < chars.len(),
    ensures
        r == lexeme::followed_by(chars@, i as int, c),
{
    i + 1 < chars.len() && chars[i + 1] == c
}

/// Reads what stands at `chars[i]`: what it is, and where it ends.
pub fn scan_at(chars: &Vec<char>, i: usize) -> (r: (Found, usize))
    requires
        i < chars.len(),
    ensures
        r.0@ == scan(chars@, i as int).lexeme,
        r.1 == i + scan(chars@, i as int).len,
        i < r.1 <= chars.len(),
{
    proof {
        lemma_scan_within(chars@, i as int);
    }
    let c = chars[i];
    if char_is_blank(c) {
        (Found::Blank, i + 1)
    } else if c == '(' {
        (Found::Token(TokenVariant::LeftParen), i + 1)
    } else if c == ')' {
        (Found::Token(TokenVariant::RightParen), i + 1)
    } else if c == '{' {
        (Found::Token(TokenVariant::LeftBrace), i + 1)
    } else if c == '}' {
        (Found::Token(TokenVariant::RightBrace), i + 1)
    } else if c == '[' {
        (Found::Token(TokenVariant::LeftBracket), i + 1)
    } else if c == ']' {
        (Found::Token(TokenVariant::RightBracket), i + 1)
    } else if c == ',' {
        (Found::Token(TokenVariant::Comma), i + 1)
    } else if c == '.' {
        (Found::Token(TokenVariant::Dot), i + 1)
    } else if c == '+' {
        (Found::Token(TokenVariant::Plus), i + 1)
    } else if c == ';' {
        (Found::Token(TokenVariant::Semicolon), i + 1)
    } else if c == '/' {
        (Found::Token(TokenVariant::Slash), i + 1)
    } else if c == '*' {
        (Found::Token(TokenVariant::Star), i + 1)
    } else if c == '?' {
        (Found::Token(TokenVariant::QuestionMark), i + 1)
    } else if c == ':' {
        (Found::Token(TokenVariant::Colon), i + 1)
    } else if c == '!' {
        if is_followed_by(chars, i, '=') {
            (Found::Token(TokenVariant::BangEqual), i + 2)
        } else if is_followed_by(chars, i, '>') {
            (Found::Token(TokenVariant::BangRightChevron), i + 2)
        } else {
            (Found::Token(TokenVariant::Bang), i + 1)
        }
    } else if c == '=' {
        if is_followed_by(chars, i, '=') {
            (Found::Token(TokenVariant::EqualEqual), i + 2)
        } else {
            (Found::Token(TokenVariant::Equal), i + 1)
        }
    } else if c == '<' {
        if is_followed_by(chars, i, '=') {
            (Found::Token(TokenVariant::LessEqual), i + 2)
        } else {
            (Found::Token(TokenVariant::Less), i + 1)
        }
    } else if c == '>' {
        if is_followed_by(chars, i, '=') {
            (Found::Token(TokenVariant::GreaterEqual), i + 2)
        } else {
            (Found::Token(TokenVariant::Greater), i + 1)
        }
    } else if c == '-' {
        if is_followed_by(chars, i, '>') {
            (Found::Token(TokenVariant::RightArrow), i + 2)
        } else {
            (Found::Token(TokenVariant::Minus), i + 1)
        }
    } else if c == '&' {
        if is_followed_by(chars, i, '&') {
            (Found::Token(TokenVariant::AmpersandAmpersand), i + 2)
        } else {
            (Found::Error(ParsingErrorVariant::UnexpectedCharacter(c)), i + 1)
        }
    } else if c == '|' {
        if is_followed_by(chars, i, '|') {
            (Found::Token(TokenVariant::BarBar), i + 2)
        } else {
            (Found::Error(ParsingErrorVariant::UnexpectedCharacter(c)), i + 1)
        }
    } else if char_is_digit(c) {
        let whole = run_end(chars, i + 1, CharClass::Digit);
        let end = if whole < chars.len() && chars[whole] == '.' {
            run_end(chars, whole + 1, CharClass::Digit)
        } else {
            whole
        };
        proof {
            lemma_number_is_numeral(chars@, i as int);
        }
        let text = RawString::from(string_of(chars, i, end));
        (Found::Token(TokenVariant::Number(Numeral::from_text(text))), end)
    } else if c == '"' {
        let closing = run_end(chars, i + 1, CharClass::Unquoted);
        if closing < chars.len() {
            let text = RawString::from(string_of(chars, i + 1, closing));
            (Found::Token(TokenVariant::String(text)), closing + 1)
        } else {
            (Found::Error(ParsingErrorVariant::UnterminatedString), closing)
        }
    } else if char_is_letter(c) || c == '_' {
        let end = run_end(chars, i + 1, CharClass::IdentifierPart);
        match keyword_of(chars, i, end) {
            Some(token) => (Found::Token(token), end),
            None => {
                let name = RawString::from(string_of(chars, i, end));
                (Found::Token(TokenVariant::Identifier(name)), end)
            },
        }
    } else {
        (Found::Error(ParsingErrorVariant::UnexpectedCharacter(c)), i + 1)
    }
}

/// A character's line and column are at most one more than its index.
pub proof fn lemma_position_bound(s: Seq<char>, i: int)
    requires
        0 <= i,
    ensures
        1 <= line_at(s, i) <= i + 1,
        1 <= col_at(s, i) <= i + 1,
    decreases i,
{
    if i > 0 {
        lemma_position_bound(s, i - 1);
    }
}

/// Another handle on the same file identity.
fn share_file(file: &Option<BriseFile>) -> (r: Option<BriseFile>)
    ensures
        r == *file,
{
    match file {
        Some(f) => Some(f.clone()),
        None => None,
    }
}

/// Cuts the text `chars` of `file` into tokens, and collects the lexical
/// errors met on the way. Scanning goes on after an error.
pub fn tokenize(chars: &Vec<char>, file: &Option<BriseFile>) -> (r: (
    Vec<Token>,
    Vec<ParsingError>,
))
    ensures
        r.0.deep_view() == lex_from(chars@, 0, file_view(*file)).tokens,
        r.1.deep_view() == lex_from(chars@, 0, file_view(*file)).errors,
{
    let ghost s = chars@;
    let ghost f = file_view(*file);
    let mut tokens: Vec<Token> = Vec::new();
    let mut errors: Vec<ParsingError> = Vec::new();
    let mut line = Line::default();
    let mut col = Column::default();
    let mut i: usize = 0;
    while i < chars.len()
        invariant
            i <= chars.len(),
            s == chars@,
            f == file_view(*file),
            line@ == saturate(line_at(s, i as int)),
            col@ == saturate(col_at(s, i as int)),
            lex_from(s, 0, f).tokens == tokens.deep_view() + lex_from(s, i as int, f).tokens,
            lex_from(s, 0, f).errors == errors.deep_view() + lex_from(s, i as int, f).errors,
        decreases chars.len() - i,
    {
        let (found, end) = scan_at(chars, i);
        proof {
            lemma_position_bound(s, i as int);
        }
        match found {
            Found::Blank => {},
            Found::Token(variant) => {
                let context = BriseContext::new(share_file(file), line, col);
                tokens.push(Token::new(variant, context));
            },
            Found::Error(variant) => {
                let context = BriseContext::new(share_file(file), line, col);
                errors.push(ParsingError::new(variant, context));
            },
        }
        while i < end
            invariant
                i <= end <= chars.len(),
                s == chars@,
                line@ == saturate(line_at(s, i as int)),
                col@ == saturate(col_at(s, i as int)),
            decreases end - i,
        {
            if chars[i] == '\n' {
                line = line + 1;
                col = Column::default();
            } else {
                col = col + 1;
            }
            i += 1;
        }
    }
    (tokens, errors)
}

/// The lexer.
pub struct TokenParser;

impl TokenParser {
    /// Cuts a source text of no known file into tokens.
    ///
    /// Gives all the tokens of `input`, in order, where it holds no lexical
    /// error, and else all its lexical errors, in order. The tokens hold no
    /// formatted string, so the expression parser takes them.
    pub fn parse(input: String) -> (r: Result<Vec<Token>, ParserError>)
        ensures
            match lex(input@, None) {
                Ok(tokens) => r matches Ok(found) && found.deep_view() == tokens,
                Err(errors) => r matches Err(e) && e@ == ParserErrorView::Parsing(errors),
            },
            r matches Ok(found) ==> parseable(found.deep_view()),
    {
        Self::parse_with_file(input, None)
    }

    /// Cuts the source text of `file` into tokens; every position names
    /// `file`.
    ///
    /// Gives all the tokens of `input`, in order, where it holds no lexical
    /// error, and else all its lexical errors, in order. The tokens hold no
    /// formatted string, so the expression parser takes them.
    pub fn parse_with_file(input: String, file: Option<BriseFile>) -> (r: Result<
        Vec<Token>,
        ParserError,
    >)
        ensures
            match lex(input@, file_view(file)) {
                Ok(tokens) => r matches Ok(found) && found.deep_view() == tokens,
                Err(errors) => r matches Err(e) && e@ == ParserErrorView::Parsing(errors),
            },
            r matches Ok(found) ==> parseable(found.deep_view()),
    {
        let chars = chars_of(input.as_str());
        let (tokens, errors) = tokenize(&chars, &file);
        proof {
            laws::lemma_lexed_is_parseable(chars@, 0, file_view(file));
        }
        if errors.len() > 0 {
            Err(ParserError::Parsing(ParsingErrors::from(errors)))
        } else {
            Ok(tokens)
        }
    }
}

} // verus!
