//! Why a text was not accepted as a UUID.

use vstd::prelude::*;

verus! {

/// The value, or values, that the parser looked for.
#[derive(Clone, Copy, Debug, PartialEq, Eq)]
pub enum Expected {
    /// Any one of the listed values.
    Any(&'static [usize]),
    /// Exactly this value.
    Exact(usize),
    /// Any value from `min` to `max`, both included.
    Range { min: usize, max: usize },
}

/// The defect for which the parser turned a text down, with what it found
/// and where.
#[derive(Clone, Copy, Debug, PartialEq, Eq)]
#[allow(inconsistent_fields)]
pub enum ParseError {
    /// A character that is neither a hexadecimal digit nor a hyphen.
    InvalidCharacter { expected: &'static str, found: char, index: usize },
    /// The wrong number of hyphen-separated groups.
    InvalidGroupCount { expected: Expected, found: usize },
    /// A group with the wrong number of digits; `group` counts from zero.
    InvalidGroupLength { expected: Expected, found: usize, group: usize },
    /// A text of a length that no accepted form has.
    InvalidLength { expected: Expected, found: usize },
}

} // verus!
