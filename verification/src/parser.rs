//! The calls into the `uuid` crate, which parses and renders the text of a
//! UUID. Verus takes the contracts of `parse_text` and `render_bytes` on
//! trust: they state what the source of `uuid` 0.7 shows, and are not
//! proved.

use crate::error::{Expected, ParseError};
use crate::text::{accepted_bytes, byte_length, canonical_text, has_wrong_length};
use uuid::parser::Expected as Wanted;
use uuid::parser::ParseError as Refusal;
use vstd::prelude::*;

verus! {

/// The defect that `uuid::Uuid::parse_str` reports for a text that it
/// refuses.
pub uninterp spec fn defect(text: Seq<char>) -> ParseError;

/// What `uuid::Uuid::parse_str` returns for `text`: the bytes that the text
/// spells where it is in hyphenated, simple or URN form, and a defect for
/// any other text.
pub open spec fn parsed(text: Seq<char>) -> Result<Seq<u8>, ParseError> {
    match accepted_bytes(text) {
        Some(bytes) => Ok(bytes),
        None => Err(defect(text)),
    }
}

/// True where `outcome` is the defect of a text whose length, `n` bytes, is
/// that of no form.
pub open spec fn is_length_defect(outcome: Result<Seq<u8>, ParseError>, n: nat) -> bool {
    outcome matches Err(ParseError::InvalidLength { expected: Expected::Any(lengths), found })
        && found == n && lengths@ == seq![36usize, 32usize]
}

/// The outcome of a parse, with the bytes as a sequence.
pub open spec fn outcome_view(r: Result<[u8; 16], ParseError>) -> Result<Seq<u8>, ParseError> {
    match r {
        Ok(bytes) => Ok(bytes@),
        Err(e) => Err(e),
    }
}

/// Calls `uuid::Uuid::parse_str` on `text` and hands back the bytes of the
/// UUID, read by `uuid::Uuid::as_bytes`, or the defect with its fields as
/// they came.
///
/// Trusted, of `parse_str`:
/// - It accepts the hyphenated, the simple and the URN form, and nothing
///   else. It goes on only with 32 or 36 bytes, or with the 36 that follow
///   `urn:uuid:` in a text of 45. Of these it wants 32 digits in all, and a
///   hyphen only after 8, 12, 16 or 20 of them: so 32 bytes hold no hyphen,
///   and 36 hold the four.
/// - Of an accepted text it yields the bytes that the digits spell, two
///   digits of either case to a byte.
/// - The defect of a refused text depends on the text alone.
/// - A length other than 32, 36 and 45 bytes is reported as
///   `InvalidLength`, with the length found and the lengths 36 and 32 as
///   expected.
#[verifier::external_body]
pub(crate) fn parse_text(text: &str) -> (r: Result<[u8; 16], ParseError>)
    ensures
        r is Ok <==> accepted_bytes(text@) is Some,
        r is Ok ==> r->Ok_0@ == accepted_bytes(text@)->Some_0,
        r is Err ==> r->Err_0 == defect(text@),
        has_wrong_length(text@) ==> is_length_defect(outcome_view(r), byte_length(text@)),
{
    let wanted = |w| match w {
        Wanted::Any(list) => Expected::Any(list),
        Wanted::Exact(n) => Expected::Exact(n),
        Wanted::Range { min, max } => Expected::Range { min, max }
    };
    match uuid::Uuid::parse_str(text) {
        Ok(id) => Ok(*id.as_bytes()),
        Err(Refusal::InvalidCharacter { expected, found, index }) => Err(ParseError::InvalidCharacter { expected, found, index }),
        Err(Refusal::InvalidGroupCount { expected, found }) => Err(ParseError::InvalidGroupCount { expected: wanted(expected), found }),
        Err(Refusal::InvalidGroupLength { expected, found, group }) => Err(ParseError::InvalidGroupLength { expected: wanted(expected), found, group }),
        Err(Refusal::InvalidLength { expected, found }) => Err(ParseError::InvalidLength { expected: wanted(expected), found })
    }
}

/// Makes a `uuid::Uuid` of `bytes` by `uuid::Uuid::from_bytes` and renders
/// it by its `Display`.
///
/// Trusted: the text is the canonical one: the 32 digits of the bytes in
/// lower case, the high half of each byte first, with hyphens after the
/// digits 8, 12, 16 and 20.
#[verifier::external_body]
pub(crate) fn render_bytes(bytes: &[u8; 16]) -> (text: String)
    ensures
        text@ == canonical_text(bytes@),
{
    uuid::Uuid::from_bytes(*bytes).to_string()
}

} // verus!
