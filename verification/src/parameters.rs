//! Small named parameters read from scenario text: rotation axes, tuple and
//! colour components, and the arithmetic operators.
use vstd::prelude::*;

use crate::text::{chars_of, string_from_chars};

verus! {

/// A coordinate axis to rotate about.
#[derive(Debug, Copy, Clone, PartialEq, Eq, Structural)]
pub enum RotationAxis {
    X,
    Y,
    Z,
}

/// A parameter that stands for a single value.
pub trait SingleValue<T> {
    /// The value the parameter stands for.
    fn val(&self) -> T;
}

/// Whether two character sequences are equal.
fn same_chars(a: &Vec<char>, b: &Vec<char>) -> (same: bool)
    ensures
        same == (a@ == b@),
{
    if a.len() != b.len() {
        return false;
    }
    let mut i: usize = 0;
    while i < a.len()
        invariant
            a@.len() == b@.len(),
            i <= a@.len(),
            forall|k: int| 0 <= k < i ==> a@[k] == b@[k],
        decreases a@.len() - i,
    {
        if a[i] != b[i] {
            return false;
        }
        i += 1;
    }
    assert(a@ =~= b@);
    true
}

/// Whether `s` is exactly the text `word`.
fn is_word(s: &str, word: Vec<char>) -> (b: bool)
    ensures
        b == (s@ == word@),
{
    let chars = chars_of(s);
    same_chars(&chars, &word)
}

/// Whether `s` is exactly the one-character text `c`.
fn is_char(s: &str, c: char) -> (b: bool)
    ensures
        b == (s@ == seq![c]),
{
    let word = vec![c];
    assert(word@ =~= seq![c]);
    is_word(s, word)
}

/// The one-character string `c`.
fn char_string(c: char) -> (s: String)
    ensures
        s@ == seq![c],
{
    let word = vec![c];
    assert(word@ =~= seq![c]);
    string_from_chars(&word)
}

/// An axis named in text: `x`, `y` or `z`.
#[derive(Debug, Copy, Clone, PartialEq, Eq, Structural)]
pub struct Axis(RotationAxis);

/// The axis that a one-letter name stands for.
pub open spec fn axis_named(s: Seq<char>) -> Option<RotationAxis> {
    if s == seq!['x'] {
        Some(RotationAxis::X)
    } else if s == seq!['y'] {
        Some(RotationAxis::Y)
    } else if s == seq!['z'] {
        Some(RotationAxis::Z)
    } else {
        None
    }
}

impl Axis {
    /// The axis this parameter names.
    pub closed spec fn axis(self) -> RotationAxis {
        self.0
    }

    /// Reads `x`, `y` or `z`.
    pub fn from_str(s: &str) -> (r: Result<Axis, core::convert::Infallible>)
        requires
            axis_named(s@) is Some,
        ensures
            r matches Ok(a) && Some(a.axis()) == axis_named(s@),
    {
        if is_char(s, 'x') {
            Ok(Axis(RotationAxis::X))
        } else if is_char(s, 'y') {
            Ok(Axis(RotationAxis::Y))
        } else {
            assert(s@ == seq!['z']);
            Ok(Axis(RotationAxis::Z))
        }
    }
}

impl SingleValue<RotationAxis> for Axis {
    fn val(&self) -> (r: RotationAxis)
        ensures
            r == self.axis(),
    {
        self.0
    }
}

/// One of the four components of a tuple.
#[derive(Debug, Copy, Clone, PartialEq, Eq, Structural)]
pub enum TupleProperty {
    X,
    Y,
    Z,
    W,
}

/// The tuple component that a one-letter name stands for.
pub open spec fn tuple_property_named(s: Seq<char>) -> Option<TupleProperty> {
    if s == seq!['x'] {
        Some(TupleProperty::X)
    } else if s == seq!['y'] {
        Some(TupleProperty::Y)
    } else if s == seq!['z'] {
        Some(TupleProperty::Z)
    } else if s == seq!['w'] {
        Some(TupleProperty::W)
    } else {
        None
    }
}

impl TupleProperty {
    /// Reads `x`, `y`, `z` or `w`.
    pub fn from_str(s: &str) -> (r: Result<TupleProperty, core::convert::Infallible>)
        requires
            tuple_property_named(s@) is Some,
        ensures
            r matches Ok(p) && Some(p) == tuple_property_named(s@),
    {
        if is_char(s, 'x') {
            Ok(TupleProperty::X)
        } else if is_char(s, 'y') {
            Ok(TupleProperty::Y)
        } else if is_char(s, 'z') {
            Ok(TupleProperty::Z)
        } else {
            assert(s@ == seq!['w']);
            Ok(TupleProperty::W)
        }
    }
}

/// One of the three channels of a colour.
#[derive(Debug, Copy, Clone, PartialEq, Eq, Structural)]
pub enum ColorProperty {
    Red,
    Green,
    Blue,
}

/// The colour channel that a name stands for.
pub open spec fn color_property_named(s: Seq<char>) -> Option<ColorProperty> {
    if s == seq!['r', 'e', 'd'] {
        Some(ColorProperty::Red)
    } else if s == seq!['g', 'r', 'e', 'e', 'n'] {
        Some(ColorProperty::Green)
    } else if s == seq!['b', 'l', 'u', 'e'] {
        Some(ColorProperty::Blue)
    } else {
        None
    }
}

impl ColorProperty {
    /// Reads `red`, `green` or `blue`.
    pub fn from_str(s: &str) -> (r: Result<ColorProperty, core::convert::Infallible>)
        requires
            color_property_named(s@) is Some,
        ensures
            r matches Ok(p) && Some(p) == color_property_named(s@),
    {
        let red = vec!['r', 'e', 'd'];
        let green = vec!['g', 'r', 'e', 'e', 'n'];
        assert(red@ =~= seq!['r', 'e', 'd']);
        assert(green@ =~= seq!['g', 'r', 'e', 'e', 'n']);
        if is_word(s, red) {
            Ok(ColorProperty::Red)
        } else if is_word(s, green) {
            Ok(ColorProperty::Green)
        } else {
            Ok(ColorProperty::Blue)
        }
    }
}

/// Addition or subtraction.
#[derive(Debug, Copy, Clone, PartialEq, Eq, Structural)]
pub enum AddSub {
    Add,
    Sub,
}

/// The operator that a symbol stands for.
pub open spec fn add_sub_named(s: Seq<char>) -> Option<AddSub> {
    if s == seq!['+'] {
        Some(AddSub::Add)
    } else if s == seq!['-'] {
        Some(AddSub::Sub)
    } else {
        None
    }
}

impl AddSub {
    /// Reads `+` or `-`.
    pub fn from_str(s: &str) -> (r: Result<AddSub, core::convert::Infallible>)
        requires
            add_sub_named(s@) is Some,
        ensures
            r matches Ok(op) && Some(op) == add_sub_named(s@),
    {
        if is_char(s, '+') {
            Ok(AddSub::Add)
        } else {
            Ok(AddSub::Sub)
        }
    }

    /// The operator's symbol.
    pub fn to_string(&self) -> (s: String)
        ensures
            add_sub_named(s@) == Some(*self),
    {
        match self {
            AddSub::Add => char_string('+'),
            AddSub::Sub => {
                let s = char_string('-');
                assert(s@[0] != seq!['+'][0]);
                s
            },
        }
    }
}

/// Multiplication or division.
#[derive(Debug, Copy, Clone, PartialEq, Eq, Structural)]
pub enum MulDiv {
    Mul,
    Div,
}

/// The operator that a symbol stands for.
pub open spec fn mul_div_named(s: Seq<char>) -> Option<MulDiv> {
    if s == seq!['*'] {
        Some(MulDiv::Mul)
    } else if s == seq!['/'] {
        Some(MulDiv::Div)
    } else {
        None
    }
}

impl MulDiv {
    /// Reads `*` or `/`.
    pub fn from_str(s: &str) -> (r: Result<MulDiv, core::convert::Infallible>)
        requires
            mul_div_named(s@) is Some,
        ensures
            r matches Ok(op) && Some(op) == mul_div_named(s@),
    {
        if is_char(s, '*') {
            Ok(MulDiv::Mul)
        } else {
            Ok(MulDiv::Div)
        }
    }

    /// The operator's symbol.
    pub fn to_string(&self) -> (s: String)
        ensures
            mul_div_named(s@) == Some(*self),
    {
        match self {
            MulDiv::Mul => char_string('*'),
            MulDiv::Div => {
                let s = char_string('/');
                assert(s@[0] != seq!['*'][0]);
                s
            },
        }
    }
}

} // verus!
