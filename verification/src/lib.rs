//! UUID values for request routing: a path segment or a form value is parsed
//! into a [`Uuid`], and a [`Uuid`] is rendered in the canonical hyphenated
//! form. The text is parsed and rendered by the `uuid` crate; what the
//! library makes of the outcome is verified.

pub mod error;
pub mod laws;
pub mod ops;
pub mod order;
pub mod parser;
pub mod text;
pub mod value;

pub use crate::error::{Expected, ParseError};
pub use crate::value::Uuid;
