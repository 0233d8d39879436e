//! Failure to read a token as an operator.
use crate::token::{token_text, Token, TokenView};
use vstd::prelude::*;
use vstd::string::StringExecFns;

verus! {

/// A token was asked to be an operator that it does not denote. The parser
/// never meets this: it looks at a token's kind before it converts it.
#[derive(Debug)]
pub enum TokenConversionError {
    BinaryOperator(Token),
    UnaryOperator(Token),
}

/// What a conversion error is, as plain values.
pub enum TokenConversionErrorView {
    BinaryOperator(TokenView),
    UnaryOperator(TokenView),
}

impl View for TokenConversionError {
    type V = TokenConversionErrorView;

    open spec fn view(&self) -> TokenConversionErrorView {
        match self {
            TokenConversionError::BinaryOperator(token) => TokenConversionErrorView::BinaryOperator(
                token@,
            ),
            TokenConversionError::UnaryOperator(token) => TokenConversionErrorView::UnaryOperator(
                token@,
            ),
        }
    }
}

/// The message of a conversion error.
pub open spec fn conversion_error_text(e: TokenConversionErrorView) -> Seq<char> {
    match e {
        TokenConversionErrorView::BinaryOperator(token) => "Can't convert token "@ + token_text(
            token,
        ) + " into a binary operator"@,
        TokenConversionErrorView::UnaryOperator(token) => "Can't convert token "@ + token_text(
            token,
        ) + " into an unary operator"@,
    }
}

impl TokenConversionError {
    /// Writes the error's message.
    pub fn to_string(&self) -> (s: String)
        ensures
            s@ == conversion_error_text(self@),
    {
        let mut s = String::from_str("Can't convert token ");
        match self {
            TokenConversionError::BinaryOperator(token) => {
                s.append(token.to_string().as_str());
                s.append(" into a binary operator");
            },
            TokenConversionError::UnaryOperator(token) => {
                s.append(token.to_string().as_str());
                s.append(" into an unary operator");
            },
        }
        s
    }
}

} // verus!
