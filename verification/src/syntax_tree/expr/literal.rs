//! Literals: numbers, strings, booleans and the unknown value `?`.
use super::{expr_view, Expr, ExprVariant, ExprView};
use crate::token::{BriseContext, ContextView, Numeral, RawString};
use vstd::prelude::*;
use vstd::std_specs::cmp::PartialEqSpecImpl;
use vstd::std_specs::convert::FromSpecImpl;

verus! {

/// Trusted: hashing a `usize` feeds it to the hasher; nothing is claimed of
/// the hasher's state afterwards.
pub assume_specification<H: std::hash::Hasher>[ <usize as std::hash::Hash>::hash ](
    value: &usize,
    state: &mut H,
);

/// Hands out the identities of number literals: each call of
/// [`LiteralIds::fresh`] gives the next one.
#[derive(Debug, Clone, Copy)]
pub struct LiteralIds {
    next: usize,
}

/// The identity that follows `id`. Identities go up by one and start over
/// after the largest.
pub open spec fn next_id(id: usize) -> usize {
    if id == usize::MAX {
        0
    } else {
        (id + 1) as usize
    }
}

impl View for LiteralIds {
    type V = usize;

    closed spec fn view(&self) -> usize {
        self.next
    }
}

impl LiteralIds {
    /// A generator whose first identity is zero.
    pub fn new() -> (r: Self)
        ensures
            r@ == 0,
    {
        Self { next: 0 }
    }

    /// A generator whose first identity is `first`.
    pub fn starting_at(first: usize) -> (r: Self)
        ensures
            r@ == first,
    {
        Self { next: first }
    }

    /// The identity that the next call of [`LiteralIds::fresh`] will give.
    pub fn peek(&self) -> (id: usize)
        ensures
            id == self@,
    {
        self.next
    }

    /// Gives the next identity and moves on to the one after it.
    pub fn fresh(&mut self) -> (id: usize)
        ensures
            id == old(self)@,
            final(self)@ == next_id(old(self)@),
    {
        let id = self.next;
        self.next = if id == usize::MAX {
            0
        } else {
            id + 1
        };
        id
    }
}

impl Default for LiteralIds {
    fn default() -> (r: Self)
        ensures
            r@ == 0,
    {
        Self::new()
    }
}

/// A number literal: its written form and an identity that tells it from
/// every other occurrence, also from one with the same digits.
#[derive(Debug)]
pub struct NumberLiteral {
    value: Numeral,
    id: usize,
}

/// What a number literal is, as plain values.
pub struct NumberLiteralView {
    pub value: Seq<char>,
    pub id: usize,
}

impl View for NumberLiteral {
    type V = NumberLiteralView;

    closed spec fn view(&self) -> NumberLiteralView {
        NumberLiteralView { value: self.value@, id: self.id }
    }
}

impl NumberLiteral {
    /// The literal written as `value`, with the next identity of `ids`.
    pub fn new(value: Numeral, ids: &mut LiteralIds) -> (r: Self)
        ensures
            r@ == (NumberLiteralView { value: value@, id: old(ids)@ }),
            final(ids)@ == next_id(old(ids)@),
    {
        let id = ids.fresh();
        Self { value, id }
    }

    /// The literal written as `value`, with an identity chosen by the caller.
    pub fn new_with_custom_id(value: Numeral, id: usize) -> (r: Self)
        ensures
            r@ == (NumberLiteralView { value: value@, id }),
    {
        Self { value, id }
    }

    pub fn value(&self) -> (value: &Numeral)
        ensures
            value@ == self@.value,
    {
        &self.value
    }

    /// The literal's identity.
    pub fn id(&self) -> (id: usize)
        ensures
            id == self@.id,
    {
        self.id
    }
}

impl Clone for NumberLiteral {
    fn clone(&self) -> (r: Self)
        ensures
            r == *self,
    {
        Self { value: self.value.clone(), id: self.id }
    }
}

impl PartialEq for NumberLiteral {
    fn eq(&self, other: &Self) -> (r: bool) {
        self.id == other.id
    }
}

impl PartialEqSpecImpl for NumberLiteral {
    open spec fn obeys_eq_spec() -> bool {
        true
    }

    open spec fn eq_spec(&self, other: &Self) -> bool {
        self@.id == other@.id
    }
}

impl Eq for NumberLiteral {}

impl std::hash::Hash for NumberLiteral {
    fn hash<H: std::hash::Hasher>(&self, state: &mut H) {
        self.id.hash(state);
    }
}

/// The kinds of literal.
#[derive(Debug, PartialEq, Eq, Hash)]
pub enum LiteralVariant {
    Number(NumberLiteral),
    String(RawString),
    FormattedString(Vec<Expr>),
    True,
    False,
    Unknown,
}

/// What a kind of literal is, as plain values.
pub enum LiteralVariantView {
    Number(NumberLiteralView),
    String(Seq<char>),
    FormattedString(Seq<ExprView>),
    True,
    False,
    Unknown,
}

/// A literal and the position where it was read.
#[derive(Debug, PartialEq, Eq, Hash)]
pub struct Literal {
    variant: LiteralVariant,
    context: BriseContext,
}

/// What a literal is, as plain values.
pub struct LiteralView {
    pub variant: LiteralVariantView,
    pub context: ContextView,
}

/// The view of a kind of literal. The parts of a formatted string are viewed
/// one by one.
pub open spec fn literal_variant_view(v: LiteralVariant) -> LiteralVariantView
    decreases v,
{
    match v {
        LiteralVariant::Number(number) => LiteralVariantView::Number(number@),
        LiteralVariant::String(text) => LiteralVariantView::String(text@),
        LiteralVariant::FormattedString(parts) => LiteralVariantView::FormattedString(
            Seq::new(
                parts.len() as nat,
                |i: int|
                    if 0 <= i < parts.len() {
                        expr_view(parts[i])
                    } else {
                        arbitrary()
                    },
            ),
        ),
        LiteralVariant::True => LiteralVariantView::True,
        LiteralVariant::False => LiteralVariantView::False,
        LiteralVariant::Unknown => LiteralVariantView::Unknown,
    }
}

/// The view of a literal: the view of its kind and of its position.
pub closed spec fn literal_view(l: Literal) -> LiteralView
    decreases l,
{
    LiteralView { variant: literal_variant_view(l.variant), context: l.context@ }
}

impl View for LiteralVariant {
    type V = LiteralVariantView;

    open spec fn view(&self) -> LiteralVariantView {
        literal_variant_view(*self)
    }
}

impl View for Literal {
    type V = LiteralView;

    open spec fn view(&self) -> LiteralView {
        literal_view(*self)
    }
}

impl Clone for LiteralVariant {
    fn clone(&self) -> (r: Self)
        ensures
            r@ == self@,
    {
        match self {
            LiteralVariant::Number(number) => LiteralVariant::Number(number.clone()),
            LiteralVariant::String(text) => LiteralVariant::String(text.clone()),
            LiteralVariant::FormattedString(parts) => LiteralVariant::FormattedString(
                parts.clone(),
            ),
            LiteralVariant::True => LiteralVariant::True,
            LiteralVariant::False => LiteralVariant::False,
            LiteralVariant::Unknown => LiteralVariant::Unknown,
        }
    }
}

impl Clone for Literal {
    fn clone(&self) -> (r: Self)
        ensures
            r@ == self@,
    {
        Self { variant: self.variant.clone(), context: self.context.clone() }
    }
}

impl Literal {
    /// The literal of the given kind at the given position, for contracts.
    pub closed spec fn spec_new(variant: LiteralVariant, context: BriseContext) -> Self {
        Self { variant, context }
    }

    pub fn new(variant: LiteralVariant, context: BriseContext) -> (r: Self)
        ensures
            r == Self::spec_new(variant, context),
            r@ == (LiteralView { variant: variant@, context: context@ }),
    {
        Self { variant, context }
    }

    pub fn variant(&self) -> (variant: &LiteralVariant)
        ensures
            variant@ == self@.variant,
    {
        &self.variant
    }

    pub fn context(&self) -> (context: &BriseContext)
        ensures
            context@ == self@.context,
    {
        &self.context
    }
}

impl From<Literal> for Expr {
    fn from(value: Literal) -> (r: Self)
        ensures
            r@ == ExprView::Literal(value@),
    {
        Self::new(ExprVariant::Literal(value))
    }
}

impl FromSpecImpl<Literal> for Expr {
    open spec fn obeys_from_spec() -> bool {
        true
    }

    open spec fn from_spec(value: Literal) -> Self {
        Expr::spec_new(ExprVariant::Literal(value))
    }
}

} // verus!
