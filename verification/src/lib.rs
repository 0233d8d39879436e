//! Front end of the Brise language: a lexer that turns source text into
//! position-tagged tokens, and a precedence-climbing parser that turns a token
//! sequence into an expression tree.
pub mod error;
pub mod expr;
pub mod syntax_tree;
pub mod text;
pub mod token;
pub mod tokens;

use error::{ParserError, ParserErrorView};
use expr::parseable;
use token::{BriseFile, Token};
use tokens::lexeme::lex;
use tokens::TokenParser;
use vstd::prelude::*;

verus! {

/// Cuts a source text of no known file into tokens.
///
/// Gives all the tokens of `input`, in order, where it holds no lexical error,
/// and else all its lexical errors, in order.
pub fn parse_tokens(input: String) -> (r: Result<Vec<Token>, ParserError>)
    ensures
        match lex(input@, None) {
            Ok(tokens) => r matches Ok(found) && found.deep_view() == tokens,
            Err(errors) => r matches Err(e) && e@ == ParserErrorView::Parsing(errors),
        },
        r matches Ok(found) ==> parseable(found.deep_view()),
{
    TokenParser::parse(input)
}

/// Cuts what was read from `file` into tokens, or reports that the file could
/// not be read.
///
/// `contents` is the outcome of reading the whole file as text: the text, or
/// the reason of the failure. A failure to read comes back unchanged beside
/// the file; a text is lexed as by [`parse_tokens`], with `file` in every
/// position.
pub fn parser_file_tokens(file: BriseFile, contents: Result<String, String>) -> (r: Result<
    Vec<Token>,
    ParserError,
>)
    ensures
        match contents {
            Ok(text) => match lex(text@, Some(file@)) {
                Ok(tokens) => r matches Ok(found) && found.deep_view() == tokens,
                Err(errors) => r matches Err(e) && e@ == ParserErrorView::Parsing(errors),
            },
            Err(reason) => r matches Err(e) && e@ == ParserErrorView::FailedToReadFile(
                file@,
                reason@,
            ),
        },
        r matches Ok(found) ==> parseable(found.deep_view()),
{
    match contents {
        Ok(text) => TokenParser::parse_with_file(text, Some(file)),
        Err(reason) => Err(ParserError::FailedToReadFile(file, reason)),
    }
}

} // verus!
