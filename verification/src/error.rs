//! The errors of the lexing entry points.
use crate::token::BriseFile;
use crate::tokens::error::{parsing_errors_text, ParsingErrorView, ParsingErrors};
use vstd::prelude::*;
use vstd::std_specs::convert::FromSpecImpl;
use vstd::string::StringExecFns;

verus! {

/// Why no tokens came out of a source.
#[derive(Debug)]
pub enum ParserError {
    /// The text holds lexical errors.
    Parsing(ParsingErrors),
    /// The file could not be read; the second field says why.
    FailedToReadFile(BriseFile, String),
}

/// What a lexing failure is, as plain values.
pub enum ParserErrorView {
    Parsing(Seq<ParsingErrorView>),
    FailedToReadFile(Seq<char>, Seq<char>),
}

/// How a lexing failure is written: the lexical errors one per line, or the
/// path of the unreadable file and the reason.
pub open spec fn parser_error_text(e: ParserErrorView) -> Seq<char> {
    match e {
        ParserErrorView::Parsing(errors) => parsing_errors_text(errors, errors.len()),
        ParserErrorView::FailedToReadFile(path, reason) => "Failed to read file: "@ + path
            + " - "@ + reason,
    }
}

impl View for ParserError {
    type V = ParserErrorView;

    open spec fn view(&self) -> ParserErrorView {
        match self {
            ParserError::Parsing(errors) => ParserErrorView::Parsing(errors@),
            ParserError::FailedToReadFile(file, reason) => ParserErrorView::FailedToReadFile(
                file@,
                reason@,
            ),
        }
    }
}

impl ParserError {
    /// Writes the failure as diagnostics show it.
    pub fn to_string(&self) -> (s: String)
        ensures
            s@ == parser_error_text(self@),
    {
        match self {
            ParserError::Parsing(errors) => errors.to_string(),
            ParserError::FailedToReadFile(file, reason) => {
                let mut s = String::from_str("Failed to read file: ");
                s.append(file.as_path());
                s.append(" - ");
                s.append(reason.as_str());
                s
            },
        }
    }
}

impl From<ParsingErrors> for ParserError {
    fn from(value: ParsingErrors) -> (r: Self)
        ensures
            r == ParserError::Parsing(value),
    {
        ParserError::Parsing(value)
    }
}

impl FromSpecImpl<ParsingErrors> for ParserError {
    open spec fn obeys_from_spec() -> bool {
        true
    }

    open spec fn from_spec(value: ParsingErrors) -> Self {
        ParserError::Parsing(value)
    }
}

} // verus!
