//! Immutable, cheaply shared text.
use crate::text::{rc_clone, rc_str_from};
use std::rc::Rc;
use vstd::prelude::*;
use vstd::std_specs::convert::FromSpecImpl;

verus! {

/// A piece of source text (an identifier, the inside of a string literal, a
/// file path) that is shared rather than copied when cloned.
#[derive(Debug, PartialEq, Eq, Hash)]
pub struct RawString(Rc<str>);

impl View for RawString {
    type V = Seq<char>;

    closed spec fn view(&self) -> Seq<char> {
        self.0@
    }
}

impl DeepView for RawString {
    type V = Seq<char>;

    open spec fn deep_view(&self) -> Seq<char> {
        self@
    }
}

impl RawString {
    pub fn new(raw_string: Rc<str>) -> (r: Self)
        ensures
            r@ == raw_string@,
    {
        Self(raw_string)
    }

    pub fn as_str(&self) -> (s: &str)
        ensures
            s@ == self@,
    {
        &self.0
    }

    /// The text as an owned string.
    pub fn to_string(&self) -> (s: String)
        ensures
            s@ == self@,
    {
        self.as_str().to_owned()
    }
}

impl Clone for RawString {
    fn clone(&self) -> (r: Self)
        ensures
            r == *self,
    {
        Self(rc_clone(&self.0))
    }
}

impl<'a> From<&'a str> for RawString {
    fn from(value: &'a str) -> (r: Self)
        ensures
            r@ == value@,
    {
        Self(rc_str_from(value))
    }
}

/// What `from` gives is stated over the view, in the contract of `from`
/// itself: a contract cannot build a value of this type from its text.
impl<'a> FromSpecImpl<&'a str> for RawString {
    open spec fn obeys_from_spec() -> bool {
        false
    }

    open spec fn from_spec(value: &'a str) -> Self {
        arbitrary()
    }
}

impl From<String> for RawString {
    fn from(value: String) -> (r: Self)
        ensures
            r@ == value@,
    {
        Self(rc_str_from(value.as_str()))
    }
}

/// What `from` gives is stated over the view, in the contract of `from`
/// itself: a contract cannot build a value of this type from its text.
impl FromSpecImpl<String> for RawString {
    open spec fn obeys_from_spec() -> bool {
        false
    }

    open spec fn from_spec(value: String) -> Self {
        arbitrary()
    }
}

} // verus!
