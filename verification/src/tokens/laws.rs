//! What holds of the lexical grammar, proved from its definition.
use crate::expr::parseable;
use crate::token::numeral::{is_digit, is_numeral_text};
use crate::token::{variant_text, ContextView, TokenVariantView, TokenView};
use crate::tokens::error::{ParsingErrorVariant, ParsingErrorView};
use crate::tokens::lexeme::{
    col_at, is_letter, keyword, lemma_scan_within, lex, lex_from, line_at, number_len, run_len,
    scan, word_token, CharClass, Lexed, Lexeme, Scan,
};
use vstd::prelude::*;

verus! {

/// The position of the first character of the text of `file`.
pub open spec fn start_of(file: Option<Seq<char>>) -> ContextView {
    ContextView { file, line: 1, col: 1 }
}

/// What lexing gives for a text that is one token of kind `variant`.
pub open spec fn only(variant: TokenVariantView, file: Option<Seq<char>>) -> Result<
    Seq<TokenView>,
    Seq<ParsingErrorView>,
> {
    Ok(seq![TokenView { variant, context: start_of(file) }])
}

/// What lexing gives for a text that is one lexical error of kind `variant`.
pub open spec fn only_error(variant: ParsingErrorVariant, file: Option<Seq<char>>) -> Result<
    Seq<TokenView>,
    Seq<ParsingErrorView>,
> {
    Err(seq![ParsingErrorView { variant, context: start_of(file) }])
}

/// A run ends where the first character outside its class stands, or at the
/// end of the text.
pub proof fn lemma_run_exact(s: Seq<char>, i: int, j: int, class: CharClass)
    requires
        0 <= i <= j <= s.len(),
        forall|k: int| i <= k < j ==> class.holds(#[trigger] s[k]),
        j == s.len() || !class.holds(s[j]),
    ensures
        run_len(s, i, class) == j - i,
    decreases j - i,
{
    if i < j {
        lemma_run_exact(s, i + 1, j, class);
    }
}

/// Behind a run stands a character outside its class, or nothing.
pub proof fn lemma_run_stops(s: Seq<char>, i: int, class: CharClass)
    requires
        0 <= i,
    ensures
        i + run_len(s, i, class) < s.len() ==> !class.holds(s[i + run_len(s, i, class)]),
    decreases s.len() - i,
{
    if i < s.len() && class.holds(s[i]) {
        lemma_run_stops(s, i + 1, class);
    }
}

/// A text that is one lexeme from its first to its last character gives
/// that lexeme and nothing else.
proof fn lemma_single(s: Seq<char>, file: Option<Seq<char>>)
    requires
        s.len() > 0,
        scan(s, 0).len == s.len(),
    ensures
        lex_from(s, 0, file) == match scan(s, 0).lexeme {
            Lexeme::Blank => Lexed { tokens: Seq::empty(), errors: Seq::empty() },
            Lexeme::Token(variant) => Lexed {
                tokens: seq![TokenView { variant, context: start_of(file) }],
                errors: Seq::empty(),
            },
            Lexeme::Error(variant) => Lexed {
                tokens: Seq::empty(),
                errors: seq![ParsingErrorView { variant, context: start_of(file) }],
            },
        },
{
    let rest = lex_from(s, s.len() as int, file);
    assert(rest.tokens.len() == 0 && rest.errors.len() == 0);
}

/// A number, lexed alone, is one number token that holds the digits as
/// they are written and stands at the start of the text.
pub proof fn lemma_number_lexes_alone(text: Seq<char>, file: Option<Seq<char>>)
    requires
        is_numeral_text(text),
    ensures
        lex(text, file) == only(TokenVariantView::Number(text), file),
{
    let len = text.len() as int;
    if exists|d: int| 0 <= d < len && text[d] == '.' {
        let d = choose|d: int| 0 <= d < len && text[d] == '.';
        assert forall|k: int| 0 <= k < len && k != d implies is_digit(#[trigger] text[k]) by {}
        lemma_run_exact(text, 1, d, CharClass::Digit);
        lemma_run_exact(text, d + 1, len, CharClass::Digit);
    } else {
        assert forall|k: int| 0 <= k < len implies is_digit(#[trigger] text[k]) by {}
        lemma_run_exact(text, 1, len, CharClass::Digit);
    }
    assert(text.subrange(0, len) =~= text);
    lemma_single(text, file);
}

/// The text `text` between double quotes.
pub open spec fn quoted(text: Seq<char>) -> Seq<char> {
    seq!['"'] + text + seq!['"']
}

/// A text without `"`, put between double quotes and lexed alone, is one
/// string token that holds exactly that text and stands at the start.
pub proof fn lemma_string_lexes_alone(text: Seq<char>, file: Option<Seq<char>>)
    requires
        forall|i: int| 0 <= i < text.len() ==> #[trigger] text[i] != '"',
    ensures
        lex(quoted(text), file) == only(TokenVariantView::String(text), file),
{
    let q = quoted(text);
    let len = text.len() as int;
    assert forall|k: int| 1 <= k < len + 1 implies CharClass::Unquoted.holds(#[trigger] q[k]) by {}
    lemma_run_exact(q, 1, len + 1, CharClass::Unquoted);
    assert(q.subrange(1, 1 + len) =~= text);
    lemma_single(q, file);
}

/// A string literal without its closing quote is one error, reported at
/// the opening quote; the lexer gives no token for it.
pub proof fn lemma_unterminated_string(text: Seq<char>, file: Option<Seq<char>>)
    requires
        forall|i: int| 0 <= i < text.len() ==> #[trigger] text[i] != '"',
    ensures
        lex(seq!['"'] + text, file) == only_error(ParsingErrorVariant::UnterminatedString, file),
{
    let q = seq!['"'] + text;
    let len = text.len() as int;
    assert forall|k: int| 1 <= k < len + 1 implies CharClass::Unquoted.holds(#[trigger] q[k]) by {}
    lemma_run_exact(q, 1, len + 1, CharClass::Unquoted);
    lemma_single(q, file);
}

/// Words: a letter or `_`, then letters, digits and `_`.
pub open spec fn is_word(text: Seq<char>) -> bool {
    &&& text.len() > 0
    &&& is_letter(text[0]) || text[0] == '_'
    &&& forall|i: int| 0 <= i < text.len() ==> CharClass::IdentifierPart.holds(#[trigger] text[i])
}

/// A word, lexed alone, is one token at the start of the text: its keyword
/// where it is reserved, and else the identifier of that name.
pub proof fn lemma_word_lexes_alone(text: Seq<char>, file: Option<Seq<char>>)
    requires
        is_word(text),
    ensures
        lex(text, file) == only(word_token(text), file),
{
    let len = text.len() as int;
    lemma_run_exact(text, 1, len, CharClass::IdentifierPart);
    assert(text.subrange(0, len) =~= text);
    lemma_single(text, file);
}

/// The reserved words.
pub open spec fn is_keyword_token(token: TokenVariantView) -> bool {
    token is If || token is Else || token is Loop || token is While || token is For || token is Fn
        || token is BriseSelf || token is Let || token is True || token is False || token is Break
        || token is Continue || token is Return
}

/// The text of a keyword is a word, and the keyword table gives the keyword
/// back for it.
pub proof fn lemma_keyword_text(token: TokenVariantView)
    requires
        is_keyword_token(token),
    ensures
        is_word(variant_text(token)),
        keyword(variant_text(token)) == Some(token),
{
    reveal_strlit("if");
    reveal_strlit("else");
    reveal_strlit("loop");
    reveal_strlit("while");
    reveal_strlit("for");
    reveal_strlit("fn");
    reveal_strlit("self");
    reveal_strlit("let");
    reveal_strlit("true");
    reveal_strlit("false");
    reveal_strlit("break");
    reveal_strlit("continue");
    reveal_strlit("return");
    let text = variant_text(token);
    assert forall|i: int| 0 <= i < text.len() implies CharClass::IdentifierPart.holds(
        #[trigger] text[i],
    ) by {
        assert(i == 0 || i == 1 || i == 2 || i == 3 || i == 4 || i == 5 || i == 6 || i == 7);
    }
}

/// Every keyword, lexed alone, is its keyword token, never an identifier.
pub proof fn lemma_keyword_lexes_to_itself(token: TokenVariantView, file: Option<Seq<char>>)
    requires
        is_keyword_token(token),
    ensures
        lex(variant_text(token), file) == only(token, file),
{
    lemma_keyword_text(token);
    lemma_word_lexes_alone(variant_text(token), file);
}

/// After `k` characters without a newline the line is the same and the
/// column `k` further right.
pub proof fn lemma_same_line(s: Seq<char>, i: int, k: nat)
    requires
        0 <= i,
        forall|j: int| i <= j < i + k ==> #[trigger] s[j] != '\n',
    ensures
        line_at(s, i + k) == line_at(s, i),
        col_at(s, i + k) == col_at(s, i) + k,
    decreases k,
{
    if k > 0 {
        lemma_same_line(s, i, (k - 1) as nat);
    }
}

/// The number of newlines among the `k` characters from index `i` on.
pub open spec fn newlines(s: Seq<char>, i: int, k: nat) -> nat
    decreases k,
{
    if k == 0 {
        0
    } else if s[i + k - 1] == '\n' {
        newlines(s, i, (k - 1) as nat) + 1
    } else {
        newlines(s, i, (k - 1) as nat)
    }
}

/// Each newline moves one line down.
pub proof fn lemma_lines(s: Seq<char>, i: int, k: nat)
    requires
        0 <= i,
    ensures
        line_at(s, i + k) == line_at(s, i) + newlines(s, i, k),
    decreases k,
{
    if k > 0 {
        lemma_lines(s, i, (k - 1) as nat);
    }
}

/// The character that stands `k` characters behind a newline, with no other
/// newline between, is in column `k`.
pub proof fn lemma_column_after_newline(s: Seq<char>, i: int, k: nat)
    requires
        0 <= i,
        k >= 1,
        s[i] == '\n',
        forall|j: int| i < j < i + k ==> #[trigger] s[j] != '\n',
    ensures
        col_at(s, i + k) == k,
{
    lemma_same_line(s, i + 1, (k - 1) as nat);
}

/// The string literal whose opening quote is at index `i` and whose text is
/// `n` characters long.
pub open spec fn string_at(s: Seq<char>, i: int, n: nat) -> Scan {
    Scan {
        lexeme: Lexeme::Token(TokenVariantView::String(s.subrange(i + 1, i + 1 + n))),
        len: n + 2,
    }
}

/// A string literal that holds no newline moves the column by the length of
/// its text and two more, for its quotes.
pub proof fn lemma_after_string_on_one_line(s: Seq<char>, i: int, n: nat)
    requires
        0 <= i,
        i + n + 1 < s.len(),
        s[i] == '"',
        s[i + n + 1] == '"',
        forall|j: int| i < j <= i + n ==> #[trigger] s[j] != '"' && s[j] != '\n',
    ensures
        scan(s, i) == string_at(s, i, n),
        line_at(s, i + n + 2) == line_at(s, i),
        col_at(s, i + n + 2) == col_at(s, i) + n + 2,
{
    lemma_run_exact(s, i + 1, i + n + 1, CharClass::Unquoted);
    lemma_same_line(s, i, n + 2);
}

/// A string literal that holds newlines moves the line by their number;
/// what follows it stands one column behind its closing quote, counted from
/// the last newline, which is at index `last`.
pub proof fn lemma_after_string_on_many_lines(s: Seq<char>, i: int, n: nat, last: int)
    requires
        0 <= i,
        i + n + 1 < s.len(),
        s[i] == '"',
        s[i + n + 1] == '"',
        forall|j: int| i < j <= i + n ==> #[trigger] s[j] != '"',
        i < last <= i + n,
        s[last] == '\n',
        forall|j: int| last < j <= i + n ==> #[trigger] s[j] != '\n',
    ensures
        scan(s, i) == string_at(s, i, n),
        line_at(s, i + n + 2) == line_at(s, i) + newlines(s, i + 1, n),
        col_at(s, i + n + 2) == i + n + 2 - last,
{
    lemma_run_exact(s, i + 1, i + n + 1, CharClass::Unquoted);
    lemma_lines(s, i, 1);
    lemma_lines(s, i + 1, n);
    lemma_lines(s, i + 1 + n, 1);
    assert(newlines(s, i, 1) == 0);
    assert(newlines(s, i + 1 + n, 1) == 0);
    lemma_column_after_newline(s, last, (i + n + 2 - last) as nat);
}

/// A token is written as the piece of text that it was read from.
pub proof fn lemma_token_is_written_as_read(s: Seq<char>, i: int)
    requires
        0 <= i < s.len(),
        scan(s, i).lexeme is Token,
    ensures
        i + scan(s, i).len <= s.len(),
        variant_text(scan(s, i).lexeme->Token_0) == s.subrange(i, i + scan(s, i).len),
{
    reveal_strlit("(");
    reveal_strlit(")");
    reveal_strlit("{");
    reveal_strlit("}");
    reveal_strlit("[");
    reveal_strlit("]");
    reveal_strlit(",");
    reveal_strlit(".");
    reveal_strlit("-");
    reveal_strlit("+");
    reveal_strlit(";");
    reveal_strlit("/");
    reveal_strlit("*");
    reveal_strlit("!");
    reveal_strlit("!=");
    reveal_strlit("=");
    reveal_strlit("==");
    reveal_strlit(">");
    reveal_strlit(">=");
    reveal_strlit("<");
    reveal_strlit("<=");
    reveal_strlit("&&");
    reveal_strlit("||");
    reveal_strlit("!>");
    reveal_strlit("?");
    reveal_strlit(":");
    reveal_strlit("->");
    lemma_scan_within(s, i);
    let found = scan(s, i);
    let text = s.subrange(i, i + found.len);
    let c = s[i];
    if c == '"' {
        lemma_run_stops(s, i + 1, CharClass::Unquoted);
        assert(variant_text(found.lexeme->Token_0) =~= text);
    } else if is_letter(c) || c == '_' {
        assert(variant_text(word_token(text)) == text);
    } else if !is_digit(c) {
        assert(variant_text(found.lexeme->Token_0) =~= text);
    }
}

/// The lexer gives no formatted string: the expression parser takes
/// whatever the lexer gives.
pub proof fn lemma_lexed_is_parseable(s: Seq<char>, i: int, file: Option<Seq<char>>)
    requires
        0 <= i,
    ensures
        parseable(lex_from(s, i, file).tokens),
    decreases s.len() - i,
{
    if i < s.len() {
        lemma_scan_within(s, i);
        let found = scan(s, i);
        lemma_lexed_is_parseable(s, i + found.len, file);
        let tokens = lex_from(s, i, file).tokens;
        assert forall|k: int| 0 <= k < tokens.len() implies !(
        #[trigger] tokens[k].variant is FormattedString) by {}
    }
}

} // verus!
