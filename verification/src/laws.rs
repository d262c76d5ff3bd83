//! What holds of parsing, rendering and comparing taken together.

use crate::parser::parsed;
use crate::text::{
    canonical_text, has_wrong_length, hyphenated_digits, is_canonical, is_hyphenated,
    lemma_accepted_length, lemma_canonical_is_hyphenated, lemma_canonical_is_lower,
    lemma_canonical_text_is_canonical, lemma_spelled_bytes_of_text, lemma_text_of_spelled_bytes,
    lower_text, urn_prefix,
};
use crate::value::{form_value_result, param_result, Uuid};
use vstd::prelude::*;
use vstd::std_specs::cmp::PartialEqSpec;

verus! {

/// A text in canonical form is accepted, and the UUID that it gives is
/// rendered as that very text.
pub proof fn lemma_parse_then_render(s: Seq<char>)
    requires
        is_canonical(s),
    ensures
        parsed(s) is Ok,
        canonical_text(parsed(s)->Ok_0) == s,
{
    lemma_canonical_is_hyphenated(s);
    lemma_text_of_spelled_bytes(s);
    lemma_canonical_is_lower(s);
}

/// A text in hyphenated form is accepted whatever the case of its digits,
/// and the UUID that it gives is rendered as that text in lower case.
pub proof fn lemma_case_is_ignored(s: Seq<char>)
    requires
        is_hyphenated(s),
    ensures
        parsed(s) is Ok,
        canonical_text(parsed(s)->Ok_0) == lower_text(s),
        is_canonical(lower_text(s)),
        parsed(lower_text(s)) == parsed(s),
{
    lemma_text_of_spelled_bytes(s);
    let b = parsed(s)->Ok_0;
    assert(b.len() == 16);
    lemma_canonical_text_is_canonical(b);
    lemma_canonical_is_hyphenated(lower_text(s));
    lemma_spelled_bytes_of_text(b);
}

/// The text of a UUID is in canonical form, and parsing it gives the UUID
/// back.
pub proof fn lemma_render_then_parse(id: Uuid)
    ensures
        is_canonical(canonical_text(id@)),
        parsed(canonical_text(id@)) is Ok,
        parsed(canonical_text(id@))->Ok_0 == id@,
{
    id.lemma_view(id);
    lemma_canonical_text_is_canonical(id@);
    lemma_canonical_is_hyphenated(canonical_text(id@));
    lemma_spelled_bytes_of_text(id@);
}

/// The simple form and the URN form of a text in hyphenated form give the
/// UUID that the text itself gives.
pub proof fn lemma_forms_agree(s: Seq<char>)
    requires
        is_hyphenated(s),
    ensures
        parsed(hyphenated_digits(s)) == parsed(s),
        parsed(urn_prefix() + s) == parsed(s),
{
    let d = hyphenated_digits(s);
    assert forall|n: int| 0 <= n < 32 implies crate::text::is_hex_digit(#[trigger] d[n]) by {
        let p = crate::text::digit_position(n);
        assert(!crate::text::is_hyphen_position(p));
        assert(crate::text::is_hex_digit(s[p]));
    }
    let u = urn_prefix() + s;
    assert(u.subrange(0, 9) =~= urn_prefix());
    assert(u.subrange(9, 45) =~= s);
}

/// A text whose length in bytes is that of none of the three forms is
/// refused at both entry points.
pub proof fn lemma_wrong_length_is_refused(raw: &str)
    requires
        has_wrong_length(raw@),
    ensures
        param_result(raw@) is Err,
        form_value_result(parsed(raw@), raw) is Err,
        form_value_result(parsed(raw@), raw)->Err_0 == raw,
{
    if parsed(raw@) is Ok {
        lemma_accepted_length(raw@);
    }
}

/// Where the parser accepts a text, both entry points accept it, and the
/// UUID of each is the one that the parser returned.
pub proof fn lemma_accepted_text(raw: &str)
    requires
        parsed(raw@) is Ok,
    ensures
        param_result(raw@) is Ok,
        param_result(raw@)->Ok_0 == parsed(raw@)->Ok_0,
        form_value_result(parsed(raw@), raw) is Ok,
        form_value_result(parsed(raw@), raw)->Ok_0 == parsed(raw@)->Ok_0,
{
}

/// Where the parser refuses a text, both entry points refuse it: the path
/// segment with the parser's own error, the form value with the text as
/// it came.
pub proof fn lemma_refused_text(raw: &str)
    requires
        parsed(raw@) is Err,
    ensures
        param_result(raw@) is Err,
        param_result(raw@)->Err_0 == parsed(raw@)->Err_0,
        form_value_result(parsed(raw@), raw) is Err,
        form_value_result(parsed(raw@), raw)->Err_0 == raw,
        form_value_result(parsed(raw@), raw)->Err_0@ == raw@,
{
}

/// Two UUIDs parsed from one text are equal, and each is equal to the bytes
/// that the parser returned for that text.
pub proof fn lemma_same_text_equal(s: Seq<char>, a: Uuid, b: Uuid, direct: [u8; 16])
    requires
        parsed(s) is Ok,
        a@ == parsed(s)->Ok_0,
        b@ == parsed(s)->Ok_0,
        direct@ == parsed(s)->Ok_0,
    ensures
        a == b,
        a.eq_spec(&b),
        a.eq_spec(&direct),
        b.eq_spec(&direct),
{
    a.lemma_view(b);
}

} // verus!
