//! Expressions.
pub mod binary;
pub mod identifier;
pub mod literal;
pub mod unary;

use crate::text::rc_clone;
use binary::{binary_expr_view, BinaryExpr, BinaryExprView};
use identifier::{Identifier, IdentifierView};
use literal::{literal_view, Literal, LiteralView};
use std::rc::Rc;
use unary::{unary_expr_view, UnaryExpr, UnaryExprView};
use vstd::prelude::*;

verus! {

/// A node of the expression tree. Nodes are immutable once built; a subtree
/// is shared, not copied, when a node is cloned.
#[derive(Debug, PartialEq, Eq, Hash)]
pub struct Expr(Rc<ExprVariant>);

/// The five shapes of an expression.
#[derive(Debug, PartialEq, Eq, Hash)]
pub enum ExprVariant {
    Binary(BinaryExpr),
    Unary(UnaryExpr),
    Grouping(Expr),
    Literal(Literal),
    Identifier(Identifier),
}

/// What an expression is, as plain values.
pub enum ExprView {
    Binary(Box<BinaryExprView>),
    Unary(Box<UnaryExprView>),
    Grouping(Box<ExprView>),
    Literal(LiteralView),
    Identifier(IdentifierView),
}

/// The view of an expression: the view of its shape.
pub closed spec fn expr_view(e: Expr) -> ExprView
    decreases e,
{
    expr_variant_view(*e.0)
}

/// The view of an expression's shape.
pub open spec fn expr_variant_view(v: ExprVariant) -> ExprView
    decreases v,
{
    match v {
        ExprVariant::Binary(binary) => ExprView::Binary(Box::new(binary_expr_view(binary))),
        ExprVariant::Unary(unary) => ExprView::Unary(Box::new(unary_expr_view(unary))),
        ExprVariant::Grouping(inner) => ExprView::Grouping(Box::new(expr_view(inner))),
        ExprVariant::Literal(literal) => ExprView::Literal(literal_view(literal)),
        ExprVariant::Identifier(identifier) => ExprView::Identifier(identifier@),
    }
}

impl View for Expr {
    type V = ExprView;

    open spec fn view(&self) -> ExprView {
        expr_view(*self)
    }
}

impl View for ExprVariant {
    type V = ExprView;

    open spec fn view(&self) -> ExprView {
        expr_variant_view(*self)
    }
}

impl Expr {
    /// The node of the given shape, for contracts.
    pub closed spec fn spec_new(variant: ExprVariant) -> Self {
        Self(Rc::new(variant))
    }

    /// A node built from a shape has the view of that shape.
    pub broadcast proof fn lemma_spec_new(variant: ExprVariant)
        ensures
            #[trigger] Self::spec_new(variant)@ == variant@,
    {
    }

    pub fn new(variant: ExprVariant) -> (r: Self)
        ensures
            r == Self::spec_new(variant),
            r@ == variant@,
    {
        Self(Rc::new(variant))
    }

    pub fn variant(&self) -> (v: &ExprVariant)
        ensures
            v@ == self@,
    {
        &self.0
    }
}

impl Clone for ExprVariant {
    fn clone(&self) -> (r: Self)
        ensures
            r@ == self@,
    {
        match self {
            ExprVariant::Binary(binary) => ExprVariant::Binary(binary.clone()),
            ExprVariant::Unary(unary) => ExprVariant::Unary(unary.clone()),
            ExprVariant::Grouping(inner) => ExprVariant::Grouping(inner.clone()),
            ExprVariant::Literal(literal) => ExprVariant::Literal(literal.clone()),
            ExprVariant::Identifier(identifier) => ExprVariant::Identifier(identifier.clone()),
        }
    }
}

impl Clone for Expr {
    fn clone(&self) -> (r: Self)
        ensures
            r == *self,
    {
        Self(rc_clone(&self.0))
    }
}

} // verus!
