//! Binary operators and the expressions they build.
use super::{expr_view, Expr, ExprVariant, ExprView};
use crate::syntax_tree::error::{TokenConversionError, TokenConversionErrorView};
use crate::token::{BriseContext, ContextView, Token, TokenVariant, TokenVariantView};
use vstd::prelude::*;
use vstd::std_specs::convert::FromSpecImpl;
use vstd::std_specs::convert::TryFromSpecImpl;

verus! {

/// The binary operators.
#[derive(Debug, PartialEq, Eq, Hash, Clone, Copy, Structural)]
pub enum BinaryOperatorVariant {
    EqualEqual,
    BangEqual,
    Less,
    LessEqual,
    Greater,
    GreaterEqual,
    Plus,
    Minus,
    Star,
    Slash,
    Or,
    And,
}

/// A binary operator and the position where it was read.
#[derive(Debug, PartialEq, Eq, Hash)]
pub struct BinaryOperator {
    variant: BinaryOperatorVariant,
    context: BriseContext,
}

/// What a binary operator is, as plain values.
pub struct BinaryOperatorView {
    pub variant: BinaryOperatorVariant,
    pub context: ContextView,
}

impl View for BinaryOperator {
    type V = BinaryOperatorView;

    closed spec fn view(&self) -> BinaryOperatorView {
        BinaryOperatorView { variant: self.variant, context: self.context@ }
    }
}

/// The binary operator that a token kind denotes, if it denotes one.
pub open spec fn binary_operator_of(v: TokenVariantView) -> Option<BinaryOperatorVariant> {
    match v {
        TokenVariantView::EqualEqual => Some(BinaryOperatorVariant::EqualEqual),
        TokenVariantView::BangEqual => Some(BinaryOperatorVariant::BangEqual),
        TokenVariantView::Less => Some(BinaryOperatorVariant::Less),
        TokenVariantView::LessEqual => Some(BinaryOperatorVariant::LessEqual),
        TokenVariantView::Greater => Some(BinaryOperatorVariant::Greater),
        TokenVariantView::GreaterEqual => Some(BinaryOperatorVariant::GreaterEqual),
        TokenVariantView::Plus => Some(BinaryOperatorVariant::Plus),
        TokenVariantView::Minus => Some(BinaryOperatorVariant::Minus),
        TokenVariantView::Star => Some(BinaryOperatorVariant::Star),
        TokenVariantView::Slash => Some(BinaryOperatorVariant::Slash),
        TokenVariantView::BarBar => Some(BinaryOperatorVariant::Or),
        TokenVariantView::AmpersandAmpersand => Some(BinaryOperatorVariant::And),
        _ => None,
    }
}

impl BinaryOperator {
    /// The operator of the given kind at the given position, for contracts.
    pub closed spec fn spec_new(variant: BinaryOperatorVariant, context: BriseContext) -> Self {
        Self { variant, context }
    }

    pub fn new(variant: BinaryOperatorVariant, context: BriseContext) -> (r: Self)
        ensures
            r == Self::spec_new(variant, context),
            r@ == (BinaryOperatorView { variant, context: context@ }),
    {
        Self { variant, context }
    }

    pub fn variant(&self) -> (variant: BinaryOperatorVariant)
        ensures
            variant == self@.variant,
    {
        self.variant
    }

    pub fn context(&self) -> (context: &BriseContext)
        ensures
            context@ == self@.context,
    {
        &self.context
    }
}

impl Clone for BinaryOperator {
    fn clone(&self) -> (r: Self)
        ensures
            r == *self,
    {
        Self { variant: self.variant, context: self.context.clone() }
    }
}

impl TryFrom<Token> for BinaryOperator {
    type Error = TokenConversionError;

    /// Reads a token as a binary operator: the operator keeps the token's
    /// position; a token of any other kind comes back in the error.
    fn try_from(value: Token) -> (r: Result<Self, TokenConversionError>)
        ensures
            match binary_operator_of(value@.variant) {
                Some(variant) => r matches Ok(operator) && operator@ == (BinaryOperatorView {
                    variant,
                    context: value@.context,
                }),
                None => r matches Err(error) && error@
                    == TokenConversionErrorView::BinaryOperator(value@),
            },
    {
        let variant = match value.variant() {
            TokenVariant::EqualEqual => BinaryOperatorVariant::EqualEqual,
            TokenVariant::BangEqual => BinaryOperatorVariant::BangEqual,
            TokenVariant::Less => BinaryOperatorVariant::Less,
            TokenVariant::LessEqual => BinaryOperatorVariant::LessEqual,
            TokenVariant::Greater => BinaryOperatorVariant::Greater,
            TokenVariant::GreaterEqual => BinaryOperatorVariant::GreaterEqual,
            TokenVariant::Plus => BinaryOperatorVariant::Plus,
            TokenVariant::Minus => BinaryOperatorVariant::Minus,
            TokenVariant::Star => BinaryOperatorVariant::Star,
            TokenVariant::Slash => BinaryOperatorVariant::Slash,
            TokenVariant::BarBar => BinaryOperatorVariant::Or,
            TokenVariant::AmpersandAmpersand => BinaryOperatorVariant::And,
            _ => return Err(TokenConversionError::BinaryOperator(value)),
        };
        Ok(Self { variant, context: BriseContext::from(value) })
    }
}

impl TryFromSpecImpl<Token> for BinaryOperator {
    open spec fn obeys_try_from_spec() -> bool {
        true
    }

    open spec fn try_from_spec(value: Token) -> Result<Self, TokenConversionError> {
        match binary_operator_of(value@.variant) {
            Some(variant) => Ok(Self::spec_new(variant, value.spec_context())),
            None => Err(TokenConversionError::BinaryOperator(value)),
        }
    }
}

/// Two expressions joined by a binary operator.
#[derive(Debug, PartialEq, Eq, Hash)]
pub struct BinaryExpr {
    left: Expr,
    operator: BinaryOperator,
    right: Expr,
}

/// What a binary expression is, as plain values.
pub struct BinaryExprView {
    pub left: ExprView,
    pub operator: BinaryOperatorView,
    pub right: ExprView,
}

/// The view of a binary expression: the views of its three parts.
pub closed spec fn binary_expr_view(b: BinaryExpr) -> BinaryExprView
    decreases b,
{
    BinaryExprView { left: expr_view(b.left), operator: b.operator@, right: expr_view(b.right) }
}

impl View for BinaryExpr {
    type V = BinaryExprView;

    open spec fn view(&self) -> BinaryExprView {
        binary_expr_view(*self)
    }
}

impl BinaryExpr {
    pub fn new(left: Expr, operator: BinaryOperator, right: Expr) -> (r: Self)
        ensures
            r@ == (BinaryExprView { left: left@, operator: operator@, right: right@ }),
    {
        Self { left, operator, right }
    }

    pub fn left(&self) -> (left: &Expr)
        ensures
            left@ == self@.left,
    {
        &self.left
    }

    pub fn operator(&self) -> (operator: &BinaryOperator)
        ensures
            operator@ == self@.operator,
    {
        &self.operator
    }

    pub fn right(&self) -> (right: &Expr)
        ensures
            right@ == self@.right,
    {
        &self.right
    }
}

impl Clone for BinaryExpr {
    fn clone(&self) -> (r: Self)
        ensures
            r == *self,
    {
        Self {
            left: self.left.clone(),
            operator: self.operator.clone(),
            right: self.right.clone(),
        }
    }
}

impl From<BinaryExpr> for Expr {
    fn from(value: BinaryExpr) -> (r: Self)
        ensures
            r@ == ExprView::Binary(Box::new(value@)),
    {
        Self::new(ExprVariant::Binary(value))
    }
}

impl FromSpecImpl<BinaryExpr> for Expr {
    open spec fn obeys_from_spec() -> bool {
        true
    }

    open spec fn from_spec(value: BinaryExpr) -> Self {
        Expr::spec_new(ExprVariant::Binary(value))
    }
}

} // verus!
