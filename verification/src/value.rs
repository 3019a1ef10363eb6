//! The dynamic value model exchanged with callers.

use vstd::prelude::*;

verus! {

/// A number in one of its two representations, which exclude each other.
///
/// A real number is carried as the 64 bits of its IEEE 754 double precision
/// form, so that it passes through unchanged.
#[derive(Clone, Copy, Debug, PartialEq, Eq, Structural)]
pub enum Number {
    /// An integer that fits 64 signed bits.
    Integer(i64),
    /// A double precision number, by its bits.
    Real(u64),
}

/// A loosely typed value: null, a boolean, a number or a text.
///
/// Binary data has no variant of its own: it travels as `Text` in base64.
/// `Other` stands for every shape that the bridge does not handle, such as a
/// nested structure.
#[derive(Clone, Debug, PartialEq, Eq)]
pub enum DynValue {
    Null,
    Bool(bool),
    Number(Number),
    Text(String),
    Other,
}

/// The mathematical value of a [`DynValue`].
pub enum DynValueView {
    Null,
    Bool(bool),
    Number(Number),
    Text(Seq<char>),
    Other,
}

impl View for DynValue {
    type V = DynValueView;

    open spec fn view(&self) -> DynValueView {
        match *self {
            DynValue::Null => DynValueView::Null,
            DynValue::Bool(b) => DynValueView::Bool(b),
            DynValue::Number(n) => DynValueView::Number(n),
            DynValue::Text(s) => DynValueView::Text(s@),
            DynValue::Other => DynValueView::Other,
        }
    }
}

/// The value of a number of which the integer reading is `as_integer` and the
/// double precision reading is `real_bits`: the integer is preferred, and a
/// number with neither reading is a shape that the bridge does not handle.
pub open spec fn number_of(as_integer: Option<i64>, real_bits: Option<u64>) -> DynValueView {
    match as_integer {
        Some(i) => DynValueView::Number(Number::Integer(i)),
        None => match real_bits {
            Some(bits) => DynValueView::Number(Number::Real(bits)),
            None => DynValueView::Other,
        },
    }
}

/// The views of a sequence of values, in order.
pub open spec fn views_of(values: Seq<DynValue>) -> Seq<DynValueView> {
    values.map_values(|v: DynValue| v@)
}

impl DynValue {
    /// Builds a number from its two readings, preferring the integer one, so
    /// that a number that looks like an integer stays an integer.
    pub fn from_number(as_integer: Option<i64>, real_bits: Option<u64>) -> (value: DynValue)
        ensures
            value@ == number_of(as_integer, real_bits),
    {
        match as_integer {
            Some(i) => DynValue::Number(Number::Integer(i)),
            None => match real_bits {
                Some(bits) => DynValue::Number(Number::Real(bits)),
                None => DynValue::Other,
            },
        }
    }
}

} // verus!
