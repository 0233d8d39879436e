//! Tokens: the lexical units of Brise source text and where they were found.
pub mod context;
pub mod numeral;
pub mod raw_string;

pub use context::{BriseContext, BriseFile, Column, ContextView, Line};
pub use numeral::Numeral;
pub use raw_string::RawString;

use context::context_text;
use vstd::prelude::*;
use vstd::std_specs::convert::FromSpecImpl;
use vstd::string::StringExecFns;

verus! {

/// The kind of a token, with the text it carries where it carries any.
#[derive(Debug, PartialEq, Hash)]
pub enum TokenVariant {
    /// `(`
    LeftParen,
    /// `)`
    RightParen,
    /// `{`
    LeftBrace,
    /// `}`
    RightBrace,
    /// `[`
    LeftBracket,
    /// `]`
    RightBracket,
    /// `,`
    Comma,
    /// `.`
    Dot,
    /// `-`
    Minus,
    /// `+`
    Plus,
    /// `;`
    Semicolon,
    /// `/`
    Slash,
    /// `*`
    Star,
    /// `!`
    Bang,
    /// `!=`
    BangEqual,
    /// `=`
    Equal,
    /// `==`
    EqualEqual,
    /// `>`
    Greater,
    /// `>=`
    GreaterEqual,
    /// `<`
    Less,
    /// `<=`
    LessEqual,
    Identifier(RawString),
    /// `"..."`
    String(RawString),
    /// ``` $"`{}`" ```
    FormattedString(Vec<(RawString, Vec<Token>)>),
    Number(Numeral),
    /// `&&`
    AmpersandAmpersand,
    /// `||`
    BarBar,
    /// `!>`
    BangRightChevron,
    /// `return`
    Return,
    /// `if`
    If,
    /// `else`
    Else,
    /// `while`
    While,
    /// `loop`
    Loop,
    /// `for`
    For,
    /// `self`
    BriseSelf,
    /// `let`
    Let,
    /// `true`
    True,
    /// `false`
    False,
    /// `?`
    QuestionMark,
    /// `:`
    Colon,
    /// `break`
    Break,
    /// `continue`
    Continue,
    /// `fn`
    Fn,
    /// `->`
    RightArrow,
}

/// A lexical unit and the position of its first character.
#[derive(Debug, PartialEq, Hash)]
pub struct Token {
    variant: TokenVariant,
    context: BriseContext,
}

/// What a token kind is, as plain values.
pub enum TokenVariantView {
    LeftParen,
    RightParen,
    LeftBrace,
    RightBrace,
    LeftBracket,
    RightBracket,
    Comma,
    Dot,
    Minus,
    Plus,
    Semicolon,
    Slash,
    Star,
    Bang,
    BangEqual,
    Equal,
    EqualEqual,
    Greater,
    GreaterEqual,
    Less,
    LessEqual,
    Identifier(Seq<char>),
    String(Seq<char>),
    FormattedString(Seq<(Seq<char>, Seq<TokenView>)>),
    Number(Seq<char>),
    AmpersandAmpersand,
    BarBar,
    BangRightChevron,
    Return,
    If,
    Else,
    While,
    Loop,
    For,
    BriseSelf,
    Let,
    True,
    False,
    QuestionMark,
    Colon,
    Break,
    Continue,
    Fn,
    RightArrow,
}

/// What a token is, as plain values.
pub struct TokenView {
    pub variant: TokenVariantView,
    pub context: ContextView,
}

/// The view of a token kind. The parts of a formatted string are viewed one
/// by one, each with the tokens that follow its text.
pub open spec fn variant_view(v: TokenVariant) -> TokenVariantView
    decreases v,
{
    match v {
        TokenVariant::Identifier(name) => TokenVariantView::Identifier(name@),
        TokenVariant::String(text) => TokenVariantView::String(text@),
        TokenVariant::Number(numeral) => TokenVariantView::Number(numeral@),
        TokenVariant::FormattedString(parts) => TokenVariantView::FormattedString(
            Seq::new(
                parts.len() as nat,
                |i: int|
                    if 0 <= i < parts.len() {
                        (
                            parts[i].0@,
                            Seq::new(
                                parts[i].1.len() as nat,
                                |j: int|
                                    if 0 <= j < parts[i].1.len() {
                                        token_view(parts[i].1[j])
                                    } else {
                                        arbitrary()
                                    },
                            ),
                        )
                    } else {
                        arbitrary()
                    },
            ),
        ),
        TokenVariant::LeftParen => TokenVariantView::LeftParen,
        TokenVariant::RightParen => TokenVariantView::RightParen,
        TokenVariant::LeftBrace => TokenVariantView::LeftBrace,
        TokenVariant::RightBrace => TokenVariantView::RightBrace,
        TokenVariant::LeftBracket => TokenVariantView::LeftBracket,
        TokenVariant::RightBracket => TokenVariantView::RightBracket,
        TokenVariant::Comma => TokenVariantView::Comma,
        TokenVariant::Dot => TokenVariantView::Dot,
        TokenVariant::Minus => TokenVariantView::Minus,
        TokenVariant::Plus => TokenVariantView::Plus,
        TokenVariant::Semicolon => TokenVariantView::Semicolon,
        TokenVariant::Slash => TokenVariantView::Slash,
        TokenVariant::Star => TokenVariantView::Star,
        TokenVariant::Bang => TokenVariantView::Bang,
        TokenVariant::BangEqual => TokenVariantView::BangEqual,
        TokenVariant::Equal => TokenVariantView::Equal,
        TokenVariant::EqualEqual => TokenVariantView::EqualEqual,
        TokenVariant::Greater => TokenVariantView::Greater,
        TokenVariant::GreaterEqual => TokenVariantView::GreaterEqual,
        TokenVariant::Less => TokenVariantView::Less,
        TokenVariant::LessEqual => TokenVariantView::LessEqual,
        TokenVariant::AmpersandAmpersand => TokenVariantView::AmpersandAmpersand,
        TokenVariant::BarBar => TokenVariantView::BarBar,
        TokenVariant::BangRightChevron => TokenVariantView::BangRightChevron,
        TokenVariant::Return => TokenVariantView::Return,
        TokenVariant::If => TokenVariantView::If,
        TokenVariant::Else => TokenVariantView::Else,
        TokenVariant::While => TokenVariantView::While,
        TokenVariant::Loop => TokenVariantView::Loop,
        TokenVariant::For => TokenVariantView::For,
        TokenVariant::BriseSelf => TokenVariantView::BriseSelf,
        TokenVariant::Let => TokenVariantView::Let,
        TokenVariant::True => TokenVariantView::True,
        TokenVariant::False => TokenVariantView::False,
        TokenVariant::QuestionMark => TokenVariantView::QuestionMark,
        TokenVariant::Colon => TokenVariantView::Colon,
        TokenVariant::Break => TokenVariantView::Break,
        TokenVariant::Continue => TokenVariantView::Continue,
        TokenVariant::Fn => TokenVariantView::Fn,
        TokenVariant::RightArrow => TokenVariantView::RightArrow,
    }
}

/// The view of a token: the view of its kind and of its position.
pub closed spec fn token_view(t: Token) -> TokenView
    decreases t,
{
    TokenView { variant: variant_view(t.variant), context: t.context@ }
}

impl View for TokenVariant {
    type V = TokenVariantView;

    open spec fn view(&self) -> TokenVariantView {
        variant_view(*self)
    }
}

impl DeepView for TokenVariant {
    type V = TokenVariantView;

    open spec fn deep_view(&self) -> TokenVariantView {
        variant_view(*self)
    }
}

impl TokenVariantView {
    /// `==` and `!=`.
    pub open spec fn is_equality(self) -> bool {
        self is BangEqual || self is EqualEqual
    }

    /// `<`, `<=`, `>` and `>=`.
    pub open spec fn is_comparison(self) -> bool {
        self is Greater || self is GreaterEqual || self is Less || self is LessEqual
    }

    /// `+` and `-`.
    pub open spec fn is_term(self) -> bool {
        self is Plus || self is Minus
    }

    /// `*` and `/`.
    pub open spec fn is_factor(self) -> bool {
        self is Star || self is Slash
    }

    /// The prefix operators `!` and `-`.
    pub open spec fn is_unary(self) -> bool {
        self is Bang || self is Minus
    }

    /// Numbers, strings, formatted strings, `true`, `false` and `?`.
    pub open spec fn is_literal(self) -> bool {
        self is Number || self is String || self is FormattedString || self is False
            || self is True || self is QuestionMark
    }
}

/// The text of the tokens `tokens[..n]`, one after the other.
pub open spec fn tokens_text(tokens: Seq<TokenView>, n: nat) -> Seq<char>
    decreases tokens, n,
{
    if n == 0 || n > tokens.len() {
        Seq::empty()
    } else {
        tokens_text(tokens, (n - 1) as nat) + variant_text(tokens[n - 1].variant)
    }
}

/// The text of the parts `parts[..n]` of a formatted string: each part's own
/// text, then the text of its tokens.
pub open spec fn parts_text(parts: Seq<(Seq<char>, Seq<TokenView>)>, n: nat) -> Seq<char>
    decreases parts, n,
{
    if n == 0 || n > parts.len() {
        Seq::empty()
    } else {
        parts_text(parts, (n - 1) as nat) + parts[n - 1].0 + tokens_text(
            parts[n - 1].1,
            parts[n - 1].1.len(),
        )
    }
}

/// How a token kind is written in source text. An identifier is its name, a
/// number its digits, a string its text between double quotes, a formatted
/// string the text of its parts between backquotes.
pub open spec fn variant_text(v: TokenVariantView) -> Seq<char>
    decreases v,
{
    match v {
        TokenVariantView::Identifier(name) => name,
        TokenVariantView::Number(digits) => digits,
        TokenVariantView::String(text) => seq!['"'] + text + seq!['"'],
        TokenVariantView::FormattedString(parts) => seq!['`'] + parts_text(parts, parts.len())
            + seq!['`'],
        TokenVariantView::LeftParen => "("@,
        TokenVariantView::RightParen => ")"@,
        TokenVariantView::LeftBrace => "{"@,
        TokenVariantView::RightBrace => "}"@,
        TokenVariantView::LeftBracket => "["@,
        TokenVariantView::RightBracket => "]"@,
        TokenVariantView::Comma => ","@,
        TokenVariantView::Dot => "."@,
        TokenVariantView::Minus => "-"@,
        TokenVariantView::Plus => "+"@,
        TokenVariantView::Semicolon => ";"@,
        TokenVariantView::Slash => "/"@,
        TokenVariantView::Star => "*"@,
        TokenVariantView::Bang => "!"@,
        TokenVariantView::BangEqual => "!="@,
        TokenVariantView::Equal => "="@,
        TokenVariantView::EqualEqual => "=="@,
        TokenVariantView::Greater => ">"@,
        TokenVariantView::GreaterEqual => ">="@,
        TokenVariantView::Less => "<"@,
        TokenVariantView::LessEqual => "<="@,
        TokenVariantView::AmpersandAmpersand => "&&"@,
        TokenVariantView::BarBar => "||"@,
        TokenVariantView::BangRightChevron => "!>"@,
        TokenVariantView::Return => "return"@,
        TokenVariantView::If => "if"@,
        TokenVariantView::Else => "else"@,
        TokenVariantView::While => "while"@,
        TokenVariantView::Loop => "loop"@,
        TokenVariantView::For => "for"@,
        TokenVariantView::BriseSelf => "self"@,
        TokenVariantView::Let => "let"@,
        TokenVariantView::True => "true"@,
        TokenVariantView::False => "false"@,
        TokenVariantView::QuestionMark => "?"@,
        TokenVariantView::Colon => ":"@,
        TokenVariantView::Break => "break"@,
        TokenVariantView::Continue => "continue"@,
        TokenVariantView::Fn => "fn"@,
        TokenVariantView::RightArrow => "->"@,
    }
}

/// How a token is written in diagnostics: its text, ` - `, its position.
pub open spec fn token_text(t: TokenView) -> Seq<char> {
    variant_text(t.variant) + seq![' ', '-', ' '] + context_text(t.context)
}

impl View for Token {
    type V = TokenView;

    open spec fn view(&self) -> TokenView {
        token_view(*self)
    }
}

impl DeepView for Token {
    type V = TokenView;

    open spec fn deep_view(&self) -> TokenView {
        token_view(*self)
    }
}

impl TokenVariant {
    pub fn is_equality(&self) -> (r: bool)
        ensures
            r == self@.is_equality(),
    {
        matches!(self, Self::BangEqual | Self::EqualEqual)
    }

    pub fn is_comparison(&self) -> (r: bool)
        ensures
            r == self@.is_comparison(),
    {
        matches!(self, Self::Greater | Self::GreaterEqual | Self::Less | Self::LessEqual)
    }

    pub fn is_term(&self) -> (r: bool)
        ensures
            r == self@.is_term(),
    {
        matches!(self, Self::Plus | Self::Minus)
    }

    pub fn is_factor(&self) -> (r: bool)
        ensures
            r == self@.is_factor(),
    {
        matches!(self, Self::Star | Self::Slash)
    }

    pub fn is_unary(&self) -> (r: bool)
        ensures
            r == self@.is_unary(),
    {
        matches!(self, Self::Bang | Self::Minus)
    }

    pub fn is_literal(&self) -> (r: bool)
        ensures
            r == self@.is_literal(),
    {
        matches!(
            self,
            Self::Number(_) | Self::String(_) | Self::FormattedString(_) | Self::False
                | Self::True | Self::QuestionMark
        )
    }

    /// Writes the token kind as source text would.
    pub fn to_string(&self) -> (s: String)
        ensures
            s@ == variant_text(self@),
        decreases self,
    {
        match self {
            Self::Identifier(name) => name.to_string(),
            Self::Number(numeral) => numeral.text().to_string(),
            Self::String(text) => {
                let mut s = String::new();
                s.push('"');
                s.append(text.as_str());
                s.push('"');
                s
            },
            Self::FormattedString(parts) => {
                let ghost parts_view = self@->FormattedString_0;
                let mut s = String::new();
                s.push('`');
                let mut i: usize = 0;
                while i < parts.len()
                    invariant
                        i <= parts.len(),
                        *self == TokenVariant::FormattedString(*parts),
                        parts_view == self@->FormattedString_0,
                        parts_view.len() == parts.len(),
                        s@ == seq!['`'] + parts_text(parts_view, i as nat),
                    decreases parts.len() - i,
                {
                    let part = &parts[i];
                    s.append(part.0.as_str());
                    let ghost before = s@;
                    let ghost tokens = parts_view[i as int].1;
                    let mut j: usize = 0;
                    while j < part.1.len()
                        invariant
                            j <= part.1.len(),
                            i < parts.len(),
                            *self == TokenVariant::FormattedString(*parts),
                            *part == parts[i as int],
                            tokens.len() == part.1.len(),
                            forall|k: int|
                                0 <= k < part.1.len() ==> tokens[k] == token_view(
                                    #[trigger] part.1[k],
                                ),
                            s@ == before + tokens_text(tokens, j as nat),
                        decreases part.1.len() - j,
                    {
                        proof {
                            vstd::std_specs::vec::axiom_vec_index_decreases(*parts, i as int);
                            vstd::std_specs::vec::axiom_vec_index_decreases(part.1, j as int);
                            assert(decreases_to!(*self => self->FormattedString_0));
                        }
                        let text = part.1[j].variant.to_string();
                        s.append(text.as_str());
                        j += 1;
                    }
                    i += 1;
                }
                s.push('`');
                s
            },
            Self::LeftParen => String::from_str("("),
            Self::RightParen => String::from_str(")"),
            Self::LeftBrace => String::from_str("{"),
            Self::RightBrace => String::from_str("}"),
            Self::LeftBracket => String::from_str("["),
            Self::RightBracket => String::from_str("]"),
            Self::Comma => String::from_str(","),
            Self::Dot => String::from_str("."),
            Self::Minus => String::from_str("-"),
            Self::Plus => String::from_str("+"),
            Self::Semicolon => String::from_str(";"),
            Self::Slash => String::from_str("/"),
            Self::Star => String::from_str("*"),
            Self::Bang => String::from_str("!"),
            Self::BangEqual => String::from_str("!="),
            Self::Equal => String::from_str("="),
            Self::EqualEqual => String::from_str("=="),
            Self::Greater => String::from_str(">"),
            Self::GreaterEqual => String::from_str(">="),
            Self::Less => String::from_str("<"),
            Self::LessEqual => String::from_str("<="),
            Self::AmpersandAmpersand => String::from_str("&&"),
            Self::BarBar => String::from_str("||"),
            Self::BangRightChevron => String::from_str("!>"),
            Self::Return => String::from_str("return"),
            Self::If => String::from_str("if"),
            Self::Else => String::from_str("else"),
            Self::While => String::from_str("while"),
            Self::Loop => String::from_str("loop"),
            Self::For => String::from_str("for"),
            Self::BriseSelf => String::from_str("self"),
            Self::Let => String::from_str("let"),
            Self::True => String::from_str("true"),
            Self::False => String::from_str("false"),
            Self::QuestionMark => String::from_str("?"),
            Self::Colon => String::from_str(":"),
            Self::Break => String::from_str("break"),
            Self::Continue => String::from_str("continue"),
            Self::Fn => String::from_str("fn"),
            Self::RightArrow => String::from_str("->"),
        }
    }
}

impl Token {
    pub fn new(variant: TokenVariant, context: BriseContext) -> (r: Self)
        ensures
            r@ == (TokenView { variant: variant@, context: context@ }),
    {
        Self { variant, context }
    }

    pub fn variant(&self) -> (v: &TokenVariant)
        ensures
            v@ == self@.variant,
    {
        &self.variant
    }

    pub fn context(&self) -> (c: &BriseContext)
        ensures
            c@ == self@.context,
    {
        &self.context
    }

    pub fn is_equality(&self) -> (r: bool)
        ensures
            r == self@.variant.is_equality(),
    {
        self.variant.is_equality()
    }

    pub fn is_comparison(&self) -> (r: bool)
        ensures
            r == self@.variant.is_comparison(),
    {
        self.variant.is_comparison()
    }

    pub fn is_term(&self) -> (r: bool)
        ensures
            r == self@.variant.is_term(),
    {
        self.variant.is_term()
    }

    pub fn is_factor(&self) -> (r: bool)
        ensures
            r == self@.variant.is_factor(),
    {
        self.variant.is_factor()
    }

    pub fn is_unary(&self) -> (r: bool)
        ensures
            r == self@.variant.is_unary(),
    {
        self.variant.is_unary()
    }

    pub fn is_literal(&self) -> (r: bool)
        ensures
            r == self@.variant.is_literal(),
    {
        self.variant.is_literal()
    }

    /// Writes the token as diagnostics show it.
    pub fn to_string(&self) -> (s: String)
        ensures
            s@ == token_text(self@),
    {
        let mut s = self.variant.to_string();
        s.push(' ');
        s.push('-');
        s.push(' ');
        s.append(self.context.to_string().as_str());
        s
    }

    /// The token's kind, for contracts.
    pub closed spec fn spec_variant(self) -> TokenVariant {
        self.variant
    }

    /// The token's position, for contracts.
    pub closed spec fn spec_context(self) -> BriseContext {
        self.context
    }
}

impl From<Token> for TokenVariant {
    fn from(value: Token) -> (r: Self)
        ensures
            r@ == value@.variant,
    {
        value.variant
    }
}

impl FromSpecImpl<Token> for TokenVariant {
    open spec fn obeys_from_spec() -> bool {
        true
    }

    open spec fn from_spec(value: Token) -> Self {
        value.spec_variant()
    }
}

impl From<Token> for BriseContext {
    fn from(value: Token) -> (r: Self)
        ensures
            r@ == value@.context,
    {
        value.context
    }
}

impl FromSpecImpl<Token> for BriseContext {
    open spec fn obeys_from_spec() -> bool {
        true
    }

    open spec fn from_spec(value: Token) -> Self {
        value.spec_context()
    }
}

} // verus!
