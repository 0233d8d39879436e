//! Number literals as they are written.
use crate::text::chars_of;
use crate::token::raw_string::RawString;
use vstd::prelude::*;

verus! {

/// The ten decimal digits.
pub open spec fn is_digit(c: char) -> bool {
    '0' <= c <= '9'
}

/// A number as Brise writes it: a run of decimal digits that starts with a
/// digit and holds at most one `.` anywhere after it.
pub open spec fn is_numeral_text(s: Seq<char>) -> bool {
    &&& s.len() > 0
    &&& is_digit(s[0])
    &&& forall|i: int| 0 <= i < s.len() ==> is_digit(#[trigger] s[i]) || s[i] == '.'
    &&& forall|i: int, j: int|
        0 <= i < j < s.len() && #[trigger] s[i] == '.' ==> #[trigger] s[j] != '.'
}

/// Whether `c` is one of the ten decimal digits.
pub fn char_is_digit(c: char) -> (r: bool)
    ensures
        r == is_digit(c),
{
    c >= '0' && c <= '9'
}

/// Whether `chars` is written as a number: see [`is_numeral_text`].
pub fn chars_are_numeral(chars: &Vec<char>) -> (r: bool)
    ensures
        r == is_numeral_text(chars@),
{
    if chars.len() == 0 || !char_is_digit(chars[0]) {
        return false;
    }
    let mut seen_dot = false;
    let mut i: usize = 0;
    while i < chars.len()
        invariant
            i <= chars.len(),
            forall|k: int| 0 <= k < i ==> is_digit(#[trigger] chars@[k]) || chars@[k] == '.',
            forall|k: int, j: int|
                0 <= k < j < i && #[trigger] chars@[k] == '.' ==> #[trigger] chars@[j] != '.',
            seen_dot <==> exists|k: int| 0 <= k < i && #[trigger] chars@[k] == '.',
        decreases chars.len() - i,
    {
        let c = chars[i];
        if c == '.' {
            if seen_dot {
                return false;
            }
            seen_dot = true;
        } else if !char_is_digit(c) {
            return false;
        }
        i += 1;
    }
    true
}

/// The written form of a number literal, kept as text so that no precision
/// is lost: a value of this type always satisfies [`is_numeral_text`].
#[derive(Debug, PartialEq, Eq, Hash)]
pub struct Numeral {
    text: RawString,
}

impl View for Numeral {
    type V = Seq<char>;

    closed spec fn view(&self) -> Seq<char> {
        self.text@
    }
}

impl Numeral {
    #[verifier::type_invariant]
    spec fn well_written(self) -> bool {
        is_numeral_text(self.text@)
    }

    /// The numeral written as `text`, or `None` where `text` is not written
    /// as a number.
    pub fn new(text: &str) -> (r: Option<Self>)
        ensures
            r is Some <==> is_numeral_text(text@),
            r matches Some(n) ==> n@ == text@,
    {
        let chars = chars_of(text);
        if chars_are_numeral(&chars) {
            Some(Self { text: RawString::from(text) })
        } else {
            None
        }
    }

    /// The numeral that holds `text`, which is known to be written as a
    /// number.
    pub(crate) fn from_text(text: RawString) -> (r: Self)
        requires
            is_numeral_text(text@),
        ensures
            r@ == text@,
    {
        Self { text }
    }

    /// The digits as they were written.
    pub fn as_str(&self) -> (s: &str)
        ensures
            s@ == self@,
            is_numeral_text(s@),
    {
        proof {
            use_type_invariant(self);
        }
        self.text.as_str()
    }

    /// The digits as they were written, as shared text.
    pub fn text(&self) -> (text: &RawString)
        ensures
            text@ == self@,
            is_numeral_text(text@),
    {
        proof {
            use_type_invariant(self);
        }
        &self.text
    }
}

impl Clone for Numeral {
    fn clone(&self) -> (r: Self)
        ensures
            r == *self,
    {
        proof {
            use_type_invariant(self);
        }
        Self { text: self.text.clone() }
    }
}

} // verus!
