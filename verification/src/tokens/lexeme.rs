//! The lexical grammar: which characters form which token, and where each
//! character of a text stands.
use crate::token::numeral::is_digit;
use crate::token::{ContextView, TokenVariantView, TokenView};
use crate::tokens::error::{ParsingErrorVariant, ParsingErrorView};
use vstd::prelude::*;

verus! {

/// The letters `a` to `z` and `A` to `Z`.
pub open spec fn is_letter(c: char) -> bool {
    ('a' <= c <= 'z') || ('A' <= c <= 'Z')
}

/// Space, tab, carriage return and newline separate tokens and form none.
pub open spec fn is_blank(c: char) -> bool {
    c == ' ' || c == '\t' || c == '\r' || c == '\n'
}

/// The sets of characters that the lexer collects in runs.
#[derive(Debug, PartialEq, Eq, Clone, Copy, Structural)]
pub enum CharClass {
    /// The decimal digits.
    Digit,
    /// What an identifier holds after its first character: letters, digits
    /// and `_`.
    IdentifierPart,
    /// What a string literal holds: everything but `"`.
    Unquoted,
}

impl CharClass {
    /// Whether `c` belongs to the class.
    pub open spec fn holds(self, c: char) -> bool {
        match self {
            CharClass::Digit => is_digit(c),
            CharClass::IdentifierPart => is_letter(c) || is_digit(c) || c == '_',
            CharClass::Unquoted => c != '"',
        }
    }
}

/// The length of the longest run of characters of `class` that starts at
/// index `i` of `s`.
pub open spec fn run_len(s: Seq<char>, i: int, class: CharClass) -> nat
    decreases s.len() - i,
{
    if 0 <= i < s.len() && class.holds(s[i]) {
        1 + run_len(s, i + 1, class)
    } else {
        0
    }
}

/// The length of the number literal whose first digit is at index `i`: the
/// digits from there on and, where a `.` follows them, that `.` and the
/// digits behind it. A second `.` is not part of the literal.
pub open spec fn number_len(s: Seq<char>, i: int) -> nat {
    let whole = 1 + run_len(s, i + 1, CharClass::Digit);
    if i + whole < s.len() && s[i + whole] == '.' {
        whole + 1 + run_len(s, i + whole + 1, CharClass::Digit)
    } else {
        whole
    }
}

/// The token that a word stands for where it is reserved.
pub open spec fn keyword(word: Seq<char>) -> Option<TokenVariantView> {
    if word == "if"@ {
        Some(TokenVariantView::If)
    } else if word == "else"@ {
        Some(TokenVariantView::Else)
    } else if word == "loop"@ {
        Some(TokenVariantView::Loop)
    } else if word == "while"@ {
        Some(TokenVariantView::While)
    } else if word == "for"@ {
        Some(TokenVariantView::For)
    } else if word == "fn"@ {
        Some(TokenVariantView::Fn)
    } else if word == "self"@ {
        Some(TokenVariantView::BriseSelf)
    } else if word == "let"@ {
        Some(TokenVariantView::Let)
    } else if word == "true"@ {
        Some(TokenVariantView::True)
    } else if word == "false"@ {
        Some(TokenVariantView::False)
    } else if word == "break"@ {
        Some(TokenVariantView::Break)
    } else if word == "continue"@ {
        Some(TokenVariantView::Continue)
    } else if word == "return"@ {
        Some(TokenVariantView::Return)
    } else {
        None
    }
}

/// The token that a word stands for: its keyword, or an identifier of that
/// name.
pub open spec fn word_token(word: Seq<char>) -> TokenVariantView {
    match keyword(word) {
        Some(token) => token,
        None => TokenVariantView::Identifier(word),
    }
}

/// What the lexer finds at one place of the text.
pub enum Lexeme {
    /// Blank space: nothing is produced.
    Blank,
    /// A token.
    Token(TokenVariantView),
    /// A lexical error.
    Error(ParsingErrorVariant),
}

/// What the lexer finds at one place of the text, and how many characters
/// it takes up.
pub struct Scan {
    pub lexeme: Lexeme,
    pub len: nat,
}

/// Whether the character after index `i` is `c`.
pub open spec fn followed_by(s: Seq<char>, i: int, c: char) -> bool {
    i + 1 < s.len() && s[i + 1] == c
}

/// A token of one character.
pub open spec fn one(token: TokenVariantView) -> Scan {
    Scan { lexeme: Lexeme::Token(token), len: 1 }
}

/// A token of two characters.
pub open spec fn two(token: TokenVariantView) -> Scan {
    Scan { lexeme: Lexeme::Token(token), len: 2 }
}

/// What stands at index `i` of `s`, for `0 <= i < s.len()`.
///
/// Blank characters are skipped one by one. An operator of two characters
/// wins over the operator that its first character forms alone. A digit
/// starts a number, a letter or `_` a word, `"` a string that ends at the next
/// `"`; without one, the rest of the text is an unterminated string. A
/// character that starts nothing is an error of its own.
pub open spec fn scan(s: Seq<char>, i: int) -> Scan {
    let c = s[i];
    if is_blank(c) {
        Scan { lexeme: Lexeme::Blank, len: 1 }
    } else if c == '(' {
        one(TokenVariantView::LeftParen)
    } else if c == ')' {
        one(TokenVariantView::RightParen)
    } else if c == '{' {
        one(TokenVariantView::LeftBrace)
    } else if c == '}' {
        one(TokenVariantView::RightBrace)
    } else if c == '[' {
        one(TokenVariantView::LeftBracket)
    } else if c == ']' {
        one(TokenVariantView::RightBracket)
    } else if c == ',' {
        one(TokenVariantView::Comma)
    } else if c == '.' {
        one(TokenVariantView::Dot)
    } else if c == '+' {
        one(TokenVariantView::Plus)
    } else if c == ';' {
        one(TokenVariantView::Semicolon)
    } else if c == '/' {
        one(TokenVariantView::Slash)
    } else if c == '*' {
        one(TokenVariantView::Star)
    } else if c == '?' {
        one(TokenVariantView::QuestionMark)
    } else if c == ':' {
        one(TokenVariantView::Colon)
    } else if c == '!' {
        if followed_by(s, i, '=') {
            two(TokenVariantView::BangEqual)
        } else if followed_by(s, i, '>') {
            two(TokenVariantView::BangRightChevron)
        } else {
            one(TokenVariantView::Bang)
        }
    } else if c == '=' {
        if followed_by(s, i, '=') {
            two(TokenVariantView::EqualEqual)
        } else {
            one(TokenVariantView::Equal)
        }
    } else if c == '<' {
        if followed_by(s, i, '=') {
            two(TokenVariantView::LessEqual)
        } else {
            one(TokenVariantView::Less)
        }
    } else if c == '>' {
        if followed_by(s, i, '=') {
            two(TokenVariantView::GreaterEqual)
        } else {
            one(TokenVariantView::Greater)
        }
    } else if c == '-' {
        if followed_by(s, i, '>') {
            two(TokenVariantView::RightArrow)
        } else {
            one(TokenVariantView::Minus)
        }
    } else if c == '&' {
        if followed_by(s, i, '&') {
            two(TokenVariantView::AmpersandAmpersand)
        } else {
            Scan { lexeme: Lexeme::Error(ParsingErrorVariant::UnexpectedCharacter(c)), len: 1 }
        }
    } else if c == '|' {
        if followed_by(s, i, '|') {
            two(TokenVariantView::BarBar)
        } else {
            Scan { lexeme: Lexeme::Error(ParsingErrorVariant::UnexpectedCharacter(c)), len: 1 }
        }
    } else if is_digit(c) {
        let len = number_len(s, i);
        Scan { lexeme: Lexeme::Token(TokenVariantView::Number(s.subrange(i, i + len))), len }
    } else if c == '"' {
        let inside = run_len(s, i + 1, CharClass::Unquoted);
        if i + 1 + inside < s.len() {
            Scan {
                lexeme: Lexeme::Token(TokenVariantView::String(s.subrange(i + 1, i + 1 + inside))),
                len: inside + 2,
            }
        } else {
            Scan { lexeme: Lexeme::Error(ParsingErrorVariant::UnterminatedString), len: inside + 1 }
        }
    } else if is_letter(c) || c == '_' {
        let len = 1 + run_len(s, i + 1, CharClass::IdentifierPart);
        Scan { lexeme: Lexeme::Token(word_token(s.subrange(i, i + len))), len }
    } else {
        Scan { lexeme: Lexeme::Error(ParsingErrorVariant::UnexpectedCharacter(c)), len: 1 }
    }
}

/// A run stays within the text.
pub proof fn lemma_run_within(s: Seq<char>, i: int, class: CharClass)
    requires
        0 <= i <= s.len(),
    ensures
        i + run_len(s, i, class) <= s.len(),
    decreases s.len() - i,
{
    if i < s.len() && class.holds(s[i]) {
        lemma_run_within(s, i + 1, class);
    }
}

/// Whatever stands at an index of the text takes up at least one character
/// and none beyond the end of the text.
pub proof fn lemma_scan_within(s: Seq<char>, i: int)
    requires
        0 <= i < s.len(),
    ensures
        1 <= scan(s, i).len,
        i + scan(s, i).len <= s.len(),
{
    lemma_run_within(s, i + 1, CharClass::Digit);
    lemma_run_within(s, i + 1, CharClass::Unquoted);
    lemma_run_within(s, i + 1, CharClass::IdentifierPart);
    let whole = 1 + run_len(s, i + 1, CharClass::Digit);
    if i + whole < s.len() {
        lemma_run_within(s, i + whole + 1, CharClass::Digit);
    }
}

/// The line of the character at index `i` of `s`: one more than the number
/// of newlines before it.
pub open spec fn line_at(s: Seq<char>, i: int) -> nat
    decreases i,
{
    if i <= 0 {
        1
    } else if s[i - 1] == '\n' {
        line_at(s, i - 1) + 1
    } else {
        line_at(s, i - 1)
    }
}

/// The column of the character at index `i` of `s`: one more than the number
/// of characters between it and the newline before it, or the start of the
/// text. Every character but a newline, a tab too, is one column wide.
pub open spec fn col_at(s: Seq<char>, i: int) -> nat
    decreases i,
{
    if i <= 0 || s[i - 1] == '\n' {
        1
    } else {
        col_at(s, i - 1) + 1
    }
}

/// The position of the character at index `i` of the text `s` of `file`.
pub open spec fn context_at(s: Seq<char>, i: int, file: Option<Seq<char>>) -> ContextView {
    ContextView { file, line: line_at(s, i), col: col_at(s, i) }
}

/// The tokens and the errors of a text, each in the order of the text.
pub struct Lexed {
    pub tokens: Seq<TokenView>,
    pub errors: Seq<ParsingErrorView>,
}

/// The tokens and errors of `s` from index `i` on. Each is positioned at its
/// first character; an unterminated string at its opening quote.
pub open spec fn lex_from(s: Seq<char>, i: int, file: Option<Seq<char>>) -> Lexed
    decreases s.len() - i,
    via lex_from_decreases
{
    if i < 0 || i >= s.len() {
        Lexed { tokens: Seq::empty(), errors: Seq::empty() }
    } else {
        let found = scan(s, i);
        let rest = lex_from(s, i + found.len, file);
        match found.lexeme {
            Lexeme::Blank => rest,
            Lexeme::Token(variant) => Lexed {
                tokens: seq![TokenView { variant, context: context_at(s, i, file) }] + rest.tokens,
                errors: rest.errors,
            },
            Lexeme::Error(variant) => Lexed {
                tokens: rest.tokens,
                errors: seq![ParsingErrorView { variant, context: context_at(s, i, file) }]
                    + rest.errors,
            },
        }
    }
}

#[via_fn]
proof fn lex_from_decreases(s: Seq<char>, i: int, file: Option<Seq<char>>) {
    if 0 <= i < s.len() {
        lemma_scan_within(s, i);
    }
}

/// What lexing the text `s` of `file` gives: all its tokens where it holds no
/// lexical error, and else all its errors.
pub open spec fn lex(s: Seq<char>, file: Option<Seq<char>>) -> Result<
    Seq<TokenView>,
    Seq<ParsingErrorView>,
> {
    let all = lex_from(s, 0, file);
    if all.errors.len() > 0 {
        Err(all.errors)
    } else {
        Ok(all.tokens)
    }
}

} // verus!
