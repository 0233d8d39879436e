//! Names used as expressions.
use super::{Expr, ExprVariant, ExprView};
use crate::token::{BriseContext, ContextView, RawString};
use vstd::prelude::*;
use vstd::std_specs::convert::FromSpecImpl;

verus! {

/// A name and the position where it was read.
#[derive(Debug, PartialEq, Eq, Hash)]
pub struct Identifier {
    identity: RawString,
    context: BriseContext,
}

/// What an identifier is, as plain values.
pub struct IdentifierView {
    pub identity: Seq<char>,
    pub context: ContextView,
}

impl View for Identifier {
    type V = IdentifierView;

    closed spec fn view(&self) -> IdentifierView {
        IdentifierView { identity: self.identity@, context: self.context@ }
    }
}

impl Identifier {
    pub fn new(identity: RawString, context: BriseContext) -> (r: Self)
        ensures
            r@ == (IdentifierView { identity: identity@, context: context@ }),
    {
        Self { identity, context }
    }

    pub fn identity(&self) -> (identity: &RawString)
        ensures
            identity@ == self@.identity,
    {
        &self.identity
    }

    pub fn context(&self) -> (context: &BriseContext)
        ensures
            context@ == self@.context,
    {
        &self.context
    }
}

impl Clone for Identifier {
    fn clone(&self) -> (r: Self)
        ensures
            r == *self,
    {
        Self { identity: self.identity.clone(), context: self.context.clone() }
    }
}

impl From<Identifier> for Expr {
    fn from(value: Identifier) -> (r: Self)
        ensures
            r@ == ExprView::Identifier(value@),
    {
        Self::new(ExprVariant::Identifier(value))
    }
}

impl FromSpecImpl<Identifier> for Expr {
    open spec fn obeys_from_spec() -> bool {
        true
    }

    open spec fn from_spec(value: Identifier) -> Self {
        Expr::spec_new(ExprVariant::Identifier(value))
    }
}

} // verus!
