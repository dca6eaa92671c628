//! A decoded JSON value as the tabular responses hold it in their cells.

use vstd::prelude::*;

verus! {

/// One cell of a tabular response.
#[derive(Debug, Clone)]
pub enum JsonCell {
    /// `null`.
    Null,
    /// `true` or `false`.
    Bool(bool),
    /// A number that is a non-negative integer.
    PosInt(u64),
    /// A number that is a negative integer.
    NegInt(i64),
    /// A number with a fraction or an exponent, as its JSON text.
    Float(String),
    /// A string.
    Str(String),
    /// An array or an object, as its JSON text.
    Composite(String),
}

/// The cell as an unsigned integer, where it is one.
pub open spec fn cell_u64(c: JsonCell) -> Option<u64> {
    match c {
        JsonCell::PosInt(u) => Some(u),
        _ => None,
    }
}

/// The cell as a signed integer, where it is one that fits.
pub open spec fn cell_i64(c: JsonCell) -> Option<i64> {
    match c {
        JsonCell::PosInt(u) => if u <= i64::MAX {
            Some(u as i64)
        } else {
            None
        },
        JsonCell::NegInt(i) => Some(i),
        _ => None,
    }
}

/// The cell's text, where it is a string.
pub open spec fn cell_text(c: JsonCell) -> Option<Seq<char>> {
    match c {
        JsonCell::Str(s) => Some(s@),
        _ => None,
    }
}

impl JsonCell {
    /// The cell as an unsigned integer, where it is one.
    pub fn as_u64(&self) -> (r: Option<u64>)
        ensures
            r == cell_u64(*self),
    {
        match self {
            JsonCell::PosInt(u) => Some(*u),
            _ => None,
        }
    }

    /// The cell as a signed integer, where it is one that fits.
    pub fn as_i64(&self) -> (r: Option<i64>)
        ensures
            r == cell_i64(*self),
    {
        match self {
            JsonCell::PosInt(u) => {
                if *u <= i64::MAX as u64 {
                    Some(*u as i64)
                } else {
                    None
                }
            },
            JsonCell::NegInt(i) => Some(*i),
            _ => None,
        }
    }

    /// The cell's text, where it is a string.
    pub fn as_str(&self) -> (r: Option<&str>)
        ensures
            r matches Some(t) ==> cell_text(*self) == Some(t@),
            r is None ==> cell_text(*self) is None,
    {
        match self {
            JsonCell::Str(s) => Some(s.as_str()),
            _ => None,
        }
    }

    /// The cell as a boolean, where it is one.
    pub fn as_bool(&self) -> (r: Option<bool>)
        ensures
            r == (match *self {
                JsonCell::Bool(b) => Some(b),
                _ => None,
            }),
    {
        match self {
            JsonCell::Bool(b) => Some(*b),
            _ => None,
        }
    }

    /// Whether the cell is `null`.
    pub fn is_null(&self) -> (r: bool)
        ensures
            r == (*self is Null),
    {
        match self {
            JsonCell::Null => true,
            _ => false,
        }
    }
}

} // verus!
