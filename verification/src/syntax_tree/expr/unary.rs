//! Prefix operators and the expressions they build.
use super::{expr_view, Expr, ExprVariant, ExprView};
use crate::syntax_tree::error::{TokenConversionError, TokenConversionErrorView};
use crate::token::{BriseContext, ContextView, Token, TokenVariant, TokenVariantView};
use vstd::prelude::*;
use vstd::std_specs::convert::FromSpecImpl;
use vstd::std_specs::convert::TryFromSpecImpl;

verus! {

/// The prefix operators.
#[derive(Debug, PartialEq, Eq, Hash, Clone, Copy, Structural)]
pub enum UnaryOperatorVariant {
    Bang,
    Minus,
}

/// A prefix operator and the position where it was read.
#[derive(Debug, PartialEq, Eq, Hash)]
pub struct UnaryOperator {
    variant: UnaryOperatorVariant,
    context: BriseContext,
}

/// What a prefix operator is, as plain values.
pub struct UnaryOperatorView {
    pub variant: UnaryOperatorVariant,
    pub context: ContextView,
}

impl View for UnaryOperator {
    type V = UnaryOperatorView;

    closed spec fn view(&self) -> UnaryOperatorView {
        UnaryOperatorView { variant: self.variant, context: self.context@ }
    }
}

/// The prefix operator that a token kind denotes, if it denotes one.
pub open spec fn unary_operator_of(v: TokenVariantView) -> Option<UnaryOperatorVariant> {
    match v {
        TokenVariantView::Bang => Some(UnaryOperatorVariant::Bang),
        TokenVariantView::Minus => Some(UnaryOperatorVariant::Minus),
        _ => None,
    }
}

impl UnaryOperator {
    /// The operator of the given kind at the given position, for contracts.
    pub closed spec fn spec_new(variant: UnaryOperatorVariant, context: BriseContext) -> Self {
        Self { variant, context }
    }

    pub fn new(variant: UnaryOperatorVariant, context: BriseContext) -> (r: Self)
        ensures
            r == Self::spec_new(variant, context),
            r@ == (UnaryOperatorView { variant, context: context@ }),
    {
        Self { variant, context }
    }

    pub fn variant(&self) -> (variant: UnaryOperatorVariant)
        ensures
            variant == self@.variant,
    {
        self.variant
    }

    pub fn context(&self) -> (context: &BriseContext)
        ensures
            context@ == self@.context,
    {
        &self.context
    }
}

impl Clone for UnaryOperator {
    fn clone(&self) -> (r: Self)
        ensures
            r == *self,
    {
        Self { variant: self.variant, context: self.context.clone() }
    }
}

impl TryFrom<Token> for UnaryOperator {
    type Error = TokenConversionError;

    /// Reads a token as a prefix operator: the operator keeps the token's
    /// position; a token of any other kind comes back in the error.
    fn try_from(value: Token) -> (r: Result<Self, TokenConversionError>)
        ensures
            match unary_operator_of(value@.variant) {
                Some(variant) => r matches Ok(operator) && operator@ == (UnaryOperatorView {
                    variant,
                    context: value@.context,
                }),
                None => r matches Err(error) && error@ == TokenConversionErrorView::UnaryOperator(
                    value@,
                ),
            },
    {
        let variant = match value.variant() {
            TokenVariant::Bang => UnaryOperatorVariant::Bang,
            TokenVariant::Minus => UnaryOperatorVariant::Minus,
            _ => return Err(TokenConversionError::UnaryOperator(value)),
        };
        Ok(Self::new(variant, BriseContext::from(value)))
    }
}

impl TryFromSpecImpl<Token> for UnaryOperator {
    open spec fn obeys_try_from_spec() -> bool {
        true
    }

    open spec fn try_from_spec(value: Token) -> Result<Self, TokenConversionError> {
        match unary_operator_of(value@.variant) {
            Some(variant) => Ok(Self::spec_new(variant, value.spec_context())),
            None => Err(TokenConversionError::UnaryOperator(value)),
        }
    }
}

/// An expression under a prefix operator.
#[derive(Debug, PartialEq, Eq, Hash)]
pub struct UnaryExpr {
    operator: UnaryOperator,
    expr: Expr,
}

/// What a unary expression is, as plain values.
pub struct UnaryExprView {
    pub operator: UnaryOperatorView,
    pub expr: ExprView,
}

/// The view of a unary expression: the views of its operator and operand.
pub closed spec fn unary_expr_view(u: UnaryExpr) -> UnaryExprView
    decreases u,
{
    UnaryExprView { operator: u.operator@, expr: expr_view(u.expr) }
}

impl View for UnaryExpr {
    type V = UnaryExprView;

    open spec fn view(&self) -> UnaryExprView {
        unary_expr_view(*self)
    }
}

impl UnaryExpr {
    pub fn new(operator: UnaryOperator, expr: Expr) -> (r: Self)
        ensures
            r@ == (UnaryExprView { operator: operator@, expr: expr@ }),
    {
        Self { operator, expr }
    }

    pub fn operator(&self) -> (operator: &UnaryOperator)
        ensures
            operator@ == self@.operator,
    {
        &self.operator
    }

    pub fn expr(&self) -> (expr: &Expr)
        ensures
            expr@ == self@.expr,
    {
        &self.expr
    }
}

impl Clone for UnaryExpr {
    fn clone(&self) -> (r: Self)
        ensures
            r == *self,
    {
        Self { operator: self.operator.clone(), expr: self.expr.clone() }
    }
}

impl From<UnaryExpr> for Expr {
    fn from(value: UnaryExpr) -> (r: Self)
        ensures
            r@ == ExprView::Unary(Box::new(value@)),
    {
        Self::new(ExprVariant::Unary(value))
    }
}

impl FromSpecImpl<UnaryExpr> for Expr {
    open spec fn obeys_from_spec() -> bool {
        true
    }

    open spec fn from_spec(value: UnaryExpr) -> Self {
        Expr::spec_new(ExprVariant::Unary(value))
    }
}

} // verus!
