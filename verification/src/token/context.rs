//! Source positions: a line, a column and, where known, the file they are in.
use crate::text::{push_decimal, rc_clone, rc_str_from};
use std::ops::Add;
use std::ops::AddAssign;
use std::rc::Rc;
use vstd::prelude::*;
use vstd::std_specs::convert::FromSpecImpl;
use vstd::std_specs::ops::AddSpecImpl;
use vstd::string::StringExecFns;

verus! {

/// `n` as a line or column number: `n` itself, or the largest number that can
/// be represented where `n` is beyond it. Sums that would pass it stay there.
pub open spec fn saturate(n: nat) -> nat {
    if n > usize::MAX {
        usize::MAX as nat
    } else {
        n
    }
}

/// A one-based line number.
#[derive(Debug, PartialEq, Eq, PartialOrd, Ord, Hash, Clone, Copy)]
pub struct Line(usize);

impl View for Line {
    type V = nat;

    closed spec fn view(&self) -> nat {
        self.0 as nat
    }
}

impl Line {
    #[verifier::type_invariant]
    spec fn positive(self) -> bool {
        self.0 >= 1
    }

    /// The line with the given number, which is `None` for zero: lines are
    /// counted from one.
    pub fn new(value: usize) -> (r: Option<Self>)
        ensures
            value == 0 <==> r is None,
            r matches Some(line) ==> line@ == value,
    {
        if value == 0 {
            None
        } else {
            Some(Self(value))
        }
    }

    /// The line's number, which is never zero.
    pub fn get(self) -> (n: usize)
        ensures
            n == self@,
            n >= 1,
    {
        proof {
            use_type_invariant(&self);
        }
        self.0
    }

    /// The line `n` lines further down, for contracts.
    pub closed spec fn plus(self, n: nat) -> Self {
        Self(saturate(self.0 as nat + n) as usize)
    }

    /// `plus` adds to the line number and stops at the largest one.
    pub broadcast proof fn lemma_plus(self, n: nat)
        ensures
            #[trigger] self.plus(n)@ == saturate(self@ + n),
    {
    }
}

impl Default for Line {
    fn default() -> (r: Self)
        ensures
            r@ == 1,
    {
        Self(1)
    }
}

impl Add<usize> for Line {
    type Output = Line;

    fn add(self, rhs: usize) -> (r: Line)
        ensures
            r@ == saturate(self@ + rhs as nat),
    {
        proof {
            use_type_invariant(&self);
        }
        Self(self.0.saturating_add(rhs))
    }
}

impl AddSpecImpl<usize> for Line {
    open spec fn obeys_add_spec() -> bool {
        true
    }

    open spec fn add_req(self, rhs: usize) -> bool {
        true
    }

    open spec fn add_spec(self, rhs: usize) -> Line {
        self.plus(rhs as nat)
    }
}

impl Add<Line> for Line {
    type Output = Line;

    fn add(self, rhs: Line) -> (r: Line)
        ensures
            r@ == saturate(self@ + rhs@),
    {
        self + rhs.get()
    }
}

impl AddSpecImpl<Line> for Line {
    open spec fn obeys_add_spec() -> bool {
        true
    }

    open spec fn add_req(self, rhs: Line) -> bool {
        true
    }

    open spec fn add_spec(self, rhs: Line) -> Line {
        self.plus(rhs@)
    }
}

impl AddAssign<usize> for Line {
    fn add_assign(&mut self, rhs: usize)
        ensures
            final(self)@ == saturate(old(self)@ + rhs as nat),
    {
        *self = *self + rhs;
    }
}

impl AddAssign<Line> for Line {
    fn add_assign(&mut self, rhs: Line)
        ensures
            final(self)@ == saturate(old(self)@ + rhs@),
    {
        *self = *self + rhs;
    }
}

/// A one-based column number, counted in characters.
#[derive(Debug, PartialEq, Eq, PartialOrd, Ord, Hash, Clone, Copy)]
pub struct Column(usize);

impl View for Column {
    type V = nat;

    closed spec fn view(&self) -> nat {
        self.0 as nat
    }
}

impl Column {
    #[verifier::type_invariant]
    spec fn positive(self) -> bool {
        self.0 >= 1
    }

    /// The column with the given number, which is `None` for zero: columns
    /// are counted from one.
    pub fn new(value: usize) -> (r: Option<Self>)
        ensures
            value == 0 <==> r is None,
            r matches Some(col) ==> col@ == value,
    {
        if value == 0 {
            None
        } else {
            Some(Self(value))
        }
    }

    /// The column's number, which is never zero.
    pub fn get(self) -> (n: usize)
        ensures
            n == self@,
            n >= 1,
    {
        proof {
            use_type_invariant(&self);
        }
        self.0
    }

    /// The column `n` characters further right, for contracts.
    pub closed spec fn plus(self, n: nat) -> Self {
        Self(saturate(self.0 as nat + n) as usize)
    }

    /// `plus` adds to the column number and stops at the largest one.
    pub broadcast proof fn lemma_plus(self, n: nat)
        ensures
            #[trigger] self.plus(n)@ == saturate(self@ + n),
    {
    }
}

impl Default for Column {
    fn default() -> (r: Self)
        ensures
            r@ == 1,
    {
        Self(1)
    }
}

impl Add<usize> for Column {
    type Output = Column;

    fn add(self, rhs: usize) -> (r: Column)
        ensures
            r@ == saturate(self@ + rhs as nat),
    {
        proof {
            use_type_invariant(&self);
        }
        Self(self.0.saturating_add(rhs))
    }
}

impl AddSpecImpl<usize> for Column {
    open spec fn obeys_add_spec() -> bool {
        true
    }

    open spec fn add_req(self, rhs: usize) -> bool {
        true
    }

    open spec fn add_spec(self, rhs: usize) -> Column {
        self.plus(rhs as nat)
    }
}

impl Add<Column> for Column {
    type Output = Column;

    fn add(self, rhs: Column) -> (r: Column)
        ensures
            r@ == saturate(self@ + rhs@),
    {
        self + rhs.get()
    }
}

impl AddSpecImpl<Column> for Column {
    open spec fn obeys_add_spec() -> bool {
        true
    }

    open spec fn add_req(self, rhs: Column) -> bool {
        true
    }

    open spec fn add_spec(self, rhs: Column) -> Column {
        self.plus(rhs@)
    }
}

impl AddAssign<usize> for Column {
    fn add_assign(&mut self, rhs: usize)
        ensures
            final(self)@ == saturate(old(self)@ + rhs as nat),
    {
        *self = *self + rhs;
    }
}

impl AddAssign<Column> for Column {
    fn add_assign(&mut self, rhs: Column)
        ensures
            final(self)@ == saturate(old(self)@ + rhs@),
    {
        *self = *self + rhs;
    }
}

/// The identity of a source file: the text of its path.
#[derive(Debug, PartialEq, Eq, PartialOrd, Ord, Hash)]
pub struct BriseFile(Rc<str>);

impl View for BriseFile {
    type V = Seq<char>;

    closed spec fn view(&self) -> Seq<char> {
        self.0@
    }
}

impl BriseFile {
    /// The path of the file, as it was given.
    pub fn as_path(&self) -> (path: &str)
        ensures
            path@ == self@,
    {
        &self.0
    }
}

impl Clone for BriseFile {
    fn clone(&self) -> (r: Self)
        ensures
            r == *self,
    {
        Self(rc_clone(&self.0))
    }
}

impl<'a> From<&'a str> for BriseFile {
    fn from(value: &'a str) -> (r: Self)
        ensures
            r@ == value@,
    {
        Self(rc_str_from(value))
    }
}

/// What `from` gives is stated over the view, in the contract of `from`
/// itself: a contract cannot build a value of this type from its text.
impl<'a> FromSpecImpl<&'a str> for BriseFile {
    open spec fn obeys_from_spec() -> bool {
        false
    }

    open spec fn from_spec(value: &'a str) -> Self {
        arbitrary()
    }
}

impl From<String> for BriseFile {
    fn from(value: String) -> (r: Self)
        ensures
            r@ == value@,
    {
        Self(rc_str_from(value.as_str()))
    }
}

/// What `from` gives is stated over the view, in the contract of `from`
/// itself: a contract cannot build a value of this type from its text.
impl FromSpecImpl<String> for BriseFile {
    open spec fn obeys_from_spec() -> bool {
        false
    }

    open spec fn from_spec(value: String) -> Self {
        arbitrary()
    }
}

/// What a position is, as plain values.
pub struct ContextView {
    pub file: Option<Seq<char>>,
    pub line: nat,
    pub col: nat,
}

/// The view of an optional file identity.
pub open spec fn file_view(file: Option<BriseFile>) -> Option<Seq<char>> {
    match file {
        Some(f) => Some(f@),
        None => None,
    }
}

/// How a position is written in diagnostics: `[file, line:col]`, or
/// `[line:col]` where the file is unknown.
pub open spec fn context_text(c: ContextView) -> Seq<char> {
    let place = crate::text::decimal(c.line) + seq![':'] + crate::text::decimal(c.col) + seq![']'];
    match c.file {
        Some(path) => seq!['['] + path + seq![',', ' '] + place,
        None => seq!['['] + place,
    }
}

/// A position in source text.
#[derive(Debug, PartialEq, Eq, Hash)]
pub struct BriseContext {
    line: Line,
    col: Column,
    file: Option<BriseFile>,
}

impl View for BriseContext {
    type V = ContextView;

    closed spec fn view(&self) -> ContextView {
        ContextView { file: file_view(self.file), line: self.line@, col: self.col@ }
    }
}

impl Default for BriseContext {
    fn default() -> (r: Self)
        ensures
            r@ == (ContextView { file: None, line: 1, col: 1 }),
    {
        Self { line: Line::default(), col: Column::default(), file: None }
    }
}

impl Clone for BriseContext {
    fn clone(&self) -> (r: Self)
        ensures
            r == *self,
    {
        let file = match &self.file {
            Some(f) => Some(f.clone()),
            None => None,
        };
        Self { line: self.line, col: self.col, file }
    }
}

impl BriseContext {
    pub fn new(file: Option<BriseFile>, line: Line, col: Column) -> (r: Self)
        ensures
            r@ == (ContextView { file: file_view(file), line: line@, col: col@ }),
    {
        Self { file, line, col }
    }

    pub fn line(&self) -> (line: Line)
        ensures
            line@ == self@.line,
    {
        self.line
    }

    pub fn col(&self) -> (col: Column)
        ensures
            col@ == self@.col,
    {
        self.col
    }

    pub fn file(&self) -> (file: &Option<BriseFile>)
        ensures
            file_view(*file) == self@.file,
    {
        &self.file
    }

    /// Writes the position as diagnostics show it.
    pub fn to_string(&self) -> (s: String)
        ensures
            s@ == context_text(self@),
    {
        let mut s = String::new();
        s.push('[');
        match &self.file {
            Some(f) => {
                s.append(f.as_path());
                s.push(',');
                s.push(' ');
            },
            None => {},
        }
        push_decimal(&mut s, self.line.get());
        s.push(':');
        push_decimal(&mut s, self.col.get());
        s.push(']');
        s
    }
}

} // verus!
