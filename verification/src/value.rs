//! The UUID value and the two ways in which a request hands one in: as a
//! path segment and as a form value.

use crate::error::ParseError;
use crate::parser::{is_length_defect, outcome_view, parse_text, parsed, render_bytes};
use crate::text::{byte_length, canonical_text, has_wrong_length};
use vstd::prelude::*;

verus! {

/// A UUID: 16 bytes, the most significant first. A value comes from text
/// that the parser accepted, and is never changed afterwards.
#[derive(Clone, Copy, Debug, Ord)]
pub struct Uuid {
    bytes: [u8; 16],
}

impl View for Uuid {
    type V = Seq<u8>;

    closed spec fn view(&self) -> Seq<u8> {
        self.bytes@
    }
}

/// What an entry point returns, with the UUID as its bytes.
pub open spec fn result_view<E>(r: Result<Uuid, E>) -> Result<Seq<u8>, E> {
    match r {
        Ok(id) => Ok(id@),
        Err(e) => Err(e),
    }
}

/// What the path-segment entry point returns for `text`: the parser's
/// outcome as it is, the defect included.
pub open spec fn param_result(text: Seq<char>) -> Result<Seq<u8>, ParseError> {
    parsed(text)
}

/// What the form-value entry point makes of the parser's outcome for the
/// text `raw`: the UUID where there is one, else `raw` itself, whatever the
/// defect was.
pub open spec fn form_value_result<'v>(
    outcome: Result<Seq<u8>, ParseError>,
    raw: &'v str,
) -> Result<Seq<u8>, &'v str> {
    match outcome {
        Ok(bytes) => Ok(bytes),
        Err(_) => Err(raw),
    }
}

impl Uuid {
    /// Every UUID has 16 bytes, and two with the same bytes are the same.
    pub proof fn lemma_view(self, other: Uuid)
        ensures
            self@.len() == 16,
            self@ == other@ ==> self == other,
    {
        if self@ == other@ {
            assert(self.bytes =~= other.bytes);
        }
    }

    /// Wraps what the parser returned.
    pub fn from_outcome(outcome: Result<[u8; 16], ParseError>) -> (r: Result<Uuid, ParseError>)
        ensures
            result_view(r) == outcome_view(outcome),
    {
        match outcome {
            Ok(bytes) => Ok(Uuid { bytes }),
            Err(e) => Err(e),
        }
    }

    /// Parses `s`: the UUID where the parser accepts `s`, else the parser's
    /// own error.
    pub fn from_str(s: &str) -> (r: Result<Uuid, ParseError>)
        ensures
            result_view(r) == parsed(s@),
            has_wrong_length(s@) ==> is_length_defect(result_view(r), byte_length(s@)),
    {
        Uuid::from_outcome(parse_text(s))
    }

    /// Parses a path segment: the UUID where the parser accepts `param`,
    /// else the parser's own error.
    pub fn from_param(param: &str) -> (r: Result<Uuid, ParseError>)
        ensures
            result_view(r) == param_result(param@),
            has_wrong_length(param@) ==> is_length_defect(result_view(r), byte_length(param@)),
    {
        Uuid::from_str(param)
    }

    /// Turns the outcome of parsing `raw` into what a form field reports:
    /// a defect is dropped, and `raw` is handed back in its place.
    pub fn form_value_from_outcome<'v>(outcome: Result<Uuid, ParseError>, raw: &'v str) -> (r:
        Result<Uuid, &'v str>)
        ensures
            result_view(r) == form_value_result(result_view(outcome), raw),
    {
        match outcome {
            Ok(id) => Ok(id),
            Err(_) => Err(raw),
        }
    }

    /// Parses a form value: the UUID where the parser accepts `form_value`,
    /// else `form_value` itself.
    pub fn from_form_value<'v>(form_value: &'v str) -> (r: Result<Uuid, &'v str>)
        ensures
            result_view(r) == form_value_result(parsed(form_value@), form_value),
    {
        Uuid::form_value_from_outcome(Uuid::from_str(form_value), form_value)
    }

    /// The canonical text: hyphenated, in lower case.
    pub fn to_string(&self) -> (text: String)
        ensures
            text@ == canonical_text(self@),
    {
        render_bytes(&self.bytes)
    }

    /// The bytes, by reference.
    pub fn as_bytes(&self) -> (bytes: &[u8; 16])
        ensures
            bytes@ == self@,
    {
        &self.bytes
    }

    /// Gives up the wrapper for the bytes inside.
    pub fn into_inner(self) -> (bytes: [u8; 16])
        ensures
            bytes@ == self@,
    {
        self.bytes
    }
}

} // verus!
