//! What can go wrong while tokens are read as an expression.
use crate::token::context::context_text;
use crate::token::{BriseContext, ContextView};
use vstd::prelude::*;
use vstd::string::StringExecFns;

verus! {

/// The kinds of structural error.
#[derive(Debug, PartialEq, Eq, Clone, Copy, Structural)]
pub enum ExprErrorVariant {
    UnclosedGrouping,
    ExpectedToken,
}

/// The message of a kind of structural error.
pub open spec fn expr_variant_text(v: ExprErrorVariant) -> Seq<char> {
    match v {
        ExprErrorVariant::UnclosedGrouping =>
            "A grouping expression was started here but was never closed"@,
        ExprErrorVariant::ExpectedToken => "A token was expected here"@,
    }
}

impl ExprErrorVariant {
    /// Writes the message of this kind of error.
    pub fn to_string(&self) -> (s: String)
        ensures
            s@ == expr_variant_text(*self),
    {
        match self {
            ExprErrorVariant::UnclosedGrouping => String::from_str(
                "A grouping expression was started here but was never closed",
            ),
            ExprErrorVariant::ExpectedToken => String::from_str("A token was expected here"),
        }
    }
}

/// A structural error and the position it is reported at.
#[derive(Debug, PartialEq, Eq)]
pub struct ExprError {
    variant: ExprErrorVariant,
    context: BriseContext,
}

/// What a structural error is, as plain values.
pub struct ExprErrorView {
    pub variant: ExprErrorVariant,
    pub context: ContextView,
}

/// How a structural error is written: its position, a space, its message.
pub open spec fn expr_error_text(e: ExprErrorView) -> Seq<char> {
    context_text(e.context) + seq![' '] + expr_variant_text(e.variant)
}

impl View for ExprError {
    type V = ExprErrorView;

    closed spec fn view(&self) -> ExprErrorView {
        ExprErrorView { variant: self.variant, context: self.context@ }
    }
}

impl ExprError {
    pub fn new(variant: ExprErrorVariant, context: BriseContext) -> (r: Self)
        ensures
            r@ == (ExprErrorView { variant, context: context@ }),
    {
        Self { variant, context }
    }

    /// The kind of error.
    pub fn variant(&self) -> (variant: ExprErrorVariant)
        ensures
            variant == self@.variant,
    {
        self.variant
    }

    /// The position the error is reported at.
    pub fn context(&self) -> (context: &BriseContext)
        ensures
            context@ == self@.context,
    {
        &self.context
    }

    /// Writes the error as diagnostics show it.
    pub fn to_string(&self) -> (s: String)
        ensures
            s@ == expr_error_text(self@),
    {
        let mut s = self.context.to_string();
        s.push(' ');
        s.append(self.variant.to_string().as_str());
        s
    }
}

} // verus!
