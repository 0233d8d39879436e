//! What can go wrong while source text is cut into tokens.
use crate::token::context::context_text;
use crate::token::{BriseContext, ContextView};
use vstd::prelude::*;
use vstd::std_specs::convert::FromSpecImpl;
use vstd::string::StringExecFns;

verus! {

/// The kinds of lexical error.
#[derive(Debug, PartialEq, Eq, Clone, Copy, Structural)]
pub enum ParsingErrorVariant {
    /// A character that starts no token.
    UnexpectedCharacter(char),
    /// A string literal whose closing `"` is missing.
    UnterminatedString,
}

/// The message of a kind of lexical error.
pub open spec fn parsing_variant_text(v: ParsingErrorVariant) -> Seq<char> {
    match v {
        ParsingErrorVariant::UnexpectedCharacter(c) => "Unexpected character: "@.push(c),
        ParsingErrorVariant::UnterminatedString =>
            "Missing end of string `\"`, string started here but never end"@,
    }
}

impl ParsingErrorVariant {
    /// Writes the message of this kind of error.
    pub fn to_string(&self) -> (s: String)
        ensures
            s@ == parsing_variant_text(*self),
    {
        match self {
            ParsingErrorVariant::UnexpectedCharacter(c) => {
                let mut s = String::from_str("Unexpected character: ");
                s.push(*c);
                s
            },
            ParsingErrorVariant::UnterminatedString => String::from_str(
                "Missing end of string `\"`, string started here but never end",
            ),
        }
    }
}

/// A lexical error and the position where it was met.
#[derive(Debug, PartialEq, Eq)]
pub struct ParsingError {
    variant: ParsingErrorVariant,
    context: BriseContext,
}

/// What a lexical error is, as plain values.
pub struct ParsingErrorView {
    pub variant: ParsingErrorVariant,
    pub context: ContextView,
}

/// How a lexical error is written: its position, a space, its message.
pub open spec fn parsing_error_text(e: ParsingErrorView) -> Seq<char> {
    context_text(e.context) + seq![' '] + parsing_variant_text(e.variant)
}

impl View for ParsingError {
    type V = ParsingErrorView;

    closed spec fn view(&self) -> ParsingErrorView {
        ParsingErrorView { variant: self.variant, context: self.context@ }
    }
}

impl DeepView for ParsingError {
    type V = ParsingErrorView;

    open spec fn deep_view(&self) -> ParsingErrorView {
        self@
    }
}

impl ParsingError {
    pub fn new(variant: ParsingErrorVariant, context: BriseContext) -> (r: Self)
        ensures
            r@ == (ParsingErrorView { variant, context: context@ }),
    {
        Self { variant, context }
    }

    /// The kind of error.
    pub fn variant(&self) -> (variant: ParsingErrorVariant)
        ensures
            variant == self@.variant,
    {
        self.variant
    }

    /// Where the error was met.
    pub fn context(&self) -> (context: &BriseContext)
        ensures
            context@ == self@.context,
    {
        &self.context
    }

    /// Writes the error as diagnostics show it.
    pub fn to_string(&self) -> (s: String)
        ensures
            s@ == parsing_error_text(self@),
    {
        let mut s = self.context.to_string();
        s.push(' ');
        s.append(self.variant.to_string().as_str());
        s
    }
}

/// The lexical errors of one pass over a source text, in the order in which
/// they were met.
#[derive(Debug, PartialEq, Eq)]
pub struct ParsingErrors(Vec<ParsingError>);

/// The first `n` errors as diagnostics show them, one per line.
pub open spec fn parsing_errors_text(errors: Seq<ParsingErrorView>, n: nat) -> Seq<char>
    decreases n,
{
    if n == 0 || n > errors.len() {
        Seq::empty()
    } else if n == 1 {
        parsing_error_text(errors[0])
    } else {
        parsing_errors_text(errors, (n - 1) as nat) + seq!['\n'] + parsing_error_text(
            errors[n - 1],
        )
    }
}

impl View for ParsingErrors {
    type V = Seq<ParsingErrorView>;

    closed spec fn view(&self) -> Seq<ParsingErrorView> {
        self.0.deep_view()
    }
}

impl ParsingErrors {
    /// The collection that holds `errors`, for contracts.
    pub closed spec fn spec_new(errors: Vec<ParsingError>) -> Self {
        Self(errors)
    }

    /// The errors, in the order in which they were met.
    pub fn errors(&self) -> (errors: &Vec<ParsingError>)
        ensures
            errors.deep_view() == self@,
    {
        &self.0
    }

    /// Writes the errors as diagnostics show them, one per line.
    pub fn to_string(&self) -> (s: String)
        ensures
            s@ == parsing_errors_text(self@, self@.len()),
    {
        let mut s = String::new();
        let mut i: usize = 0;
        while i < self.0.len()
            invariant
                i <= self.0.len(),
                self@ == self.0.deep_view(),
                self@.len() == self.0.len(),
                s@ == parsing_errors_text(self@, i as nat),
            decreases self.0.len() - i,
        {
            if i > 0 {
                s.push('\n');
            }
            s.append(self.0[i].to_string().as_str());
            i += 1;
        }
        s
    }
}

impl From<ParsingError> for ParsingErrors {
    fn from(value: ParsingError) -> (r: Self)
        ensures
            r@ == seq![value@],
    {
        Self(vec![value])
    }
}

/// What `from` gives is stated over the view, in the contract of `from`
/// itself: a contract cannot build the vector that holds the error.
impl FromSpecImpl<ParsingError> for ParsingErrors {
    open spec fn obeys_from_spec() -> bool {
        false
    }

    open spec fn from_spec(value: ParsingError) -> Self {
        arbitrary()
    }
}

impl From<Vec<ParsingError>> for ParsingErrors {
    fn from(value: Vec<ParsingError>) -> (r: Self)
        ensures
            r@ == value.deep_view(),
    {
        Self(value)
    }
}

impl FromSpecImpl<Vec<ParsingError>> for ParsingErrors {
    open spec fn obeys_from_spec() -> bool {
        true
    }

    open spec fn from_spec(value: Vec<ParsingError>) -> Self {
        Self::spec_new(value)
    }
}

} // verus!
