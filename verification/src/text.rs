//! The text forms of a UUID. The hyphenated form has 32 hexadecimal digits
//! in groups of 8, 4, 4, 4 and 12, with a hyphen between two groups; in
//! lower case it is the canonical form, the only one that is written. The
//! simple form has the 32 digits alone, and the URN form is the hyphenated
//! one after `urn:uuid:`.

use vstd::prelude::*;

verus! {

/// The positions of the hyphenated form that hold a hyphen.
pub open spec fn is_hyphen_position(p: int) -> bool {
    p == 8 || p == 13 || p == 18 || p == 23
}

/// How many hyphens stand before position `p` of the hyphenated form.
pub open spec fn hyphens_before(p: int) -> int {
    if p <= 8 {
        0
    } else if p <= 13 {
        1
    } else if p <= 18 {
        2
    } else if p <= 23 {
        3
    } else {
        4
    }
}

/// The position in the hyphenated form of the digit with index `n`, where
/// the digits are counted from 0 to 31 and hyphens are not counted.
pub open spec fn digit_position(n: int) -> int {
    if n < 8 {
        n
    } else if n < 12 {
        n + 1
    } else if n < 16 {
        n + 2
    } else if n < 20 {
        n + 3
    } else {
        n + 4
    }
}

/// The lower-case hexadecimal digit for a value from 0 to 15.
pub open spec fn lower_hex_digit(v: int) -> char {
    if v < 10 {
        (v + 48) as char
    } else {
        (v + 87) as char
    }
}

/// True for `0` to `9` and `a` to `f`.
pub open spec fn is_lower_hex_digit(c: char) -> bool {
    ('0' <= c && c <= '9') || ('a' <= c && c <= 'f')
}

/// True for a hexadecimal digit of either case.
pub open spec fn is_hex_digit(c: char) -> bool {
    is_lower_hex_digit(c) || ('A' <= c && c <= 'F')
}

/// The value of a hexadecimal digit of either case.
pub open spec fn hex_value(c: char) -> int
    recommends
        is_hex_digit(c),
{
    if '0' <= c && c <= '9' {
        c as int - 48
    } else if 'a' <= c && c <= 'f' {
        c as int - 87
    } else {
        c as int - 55
    }
}

/// The digit with index `n` of the bytes `b`: the high half of a byte comes
/// before its low half.
pub open spec fn nibble(b: Seq<u8>, n: int) -> int
    recommends
        0 <= n < 2 * b.len(),
{
    if n % 2 == 0 {
        b[n / 2] as int / 16
    } else {
        b[n / 2] as int % 16
    }
}

/// The canonical text of the 16 bytes `b`: hyphenated, in lower case.
pub open spec fn canonical_text(b: Seq<u8>) -> Seq<char>
    recommends
        b.len() == 16,
{
    Seq::new(
        36,
        |p: int|
            if is_hyphen_position(p) {
                '-'
            } else {
                lower_hex_digit(nibble(b, p - hyphens_before(p)))
            },
    )
}

/// The lower-case letter for an upper-case one; any other character as it
/// is.
pub open spec fn lower_case(c: char) -> char {
    if 'A' <= c && c <= 'Z' {
        (c as int + 32) as char
    } else {
        c
    }
}

/// The text with its upper-case letters in lower case.
pub open spec fn lower_text(t: Seq<char>) -> Seq<char> {
    Seq::new(t.len(), |p: int| lower_case(t[p]))
}

/// True for a text in hyphenated form, with digits of either case.
pub open spec fn is_hyphenated(t: Seq<char>) -> bool {
    &&& t.len() == 36
    &&& forall|p: int|
        0 <= p < 36 ==> if is_hyphen_position(p) {
            #[trigger] t[p] == '-'
        } else {
            is_hex_digit(t[p])
        }
}

/// True for a text in canonical form: hyphenated, with digits in lower case.
pub open spec fn is_canonical(t: Seq<char>) -> bool {
    &&& t.len() == 36
    &&& forall|p: int|
        0 <= p < 36 ==> if is_hyphen_position(p) {
            #[trigger] t[p] == '-'
        } else {
            is_lower_hex_digit(t[p])
        }
}

/// True for a text in simple form: 32 digits of either case.
pub open spec fn is_simple(t: Seq<char>) -> bool {
    &&& t.len() == 32
    &&& forall|p: int| 0 <= p < 32 ==> is_hex_digit(#[trigger] t[p])
}

/// The characters of `urn:uuid:`.
pub open spec fn urn_prefix() -> Seq<char> {
    seq!['u', 'r', 'n', ':', 'u', 'u', 'i', 'd', ':']
}

/// True for a text in URN form: the hyphenated form after `urn:uuid:`.
pub open spec fn is_urn(t: Seq<char>) -> bool {
    &&& t.len() == 45
    &&& t.subrange(0, 9) == urn_prefix()
    &&& is_hyphenated(t.subrange(9, 45))
}

/// The 32 digits of a text in hyphenated form, without the hyphens.
pub open spec fn hyphenated_digits(t: Seq<char>) -> Seq<char>
    recommends
        is_hyphenated(t),
{
    Seq::new(32, |n: int| t[digit_position(n)])
}

/// The 16 bytes that 32 digits spell: two digits to a byte, the high half
/// first.
pub open spec fn digits_bytes(d: Seq<char>) -> Seq<u8>
    recommends
        is_simple(d),
{
    Seq::new(16, |k: int| (16 * hex_value(d[2 * k]) + hex_value(d[2 * k + 1])) as u8)
}

/// The 16 bytes that a text in hyphenated form spells.
pub open spec fn spelled_bytes(t: Seq<char>) -> Seq<u8>
    recommends
        is_hyphenated(t),
{
    digits_bytes(hyphenated_digits(t))
}

/// The bytes that `t` spells where it is in one of the three forms, and
/// `None` where it is in none.
pub open spec fn accepted_bytes(t: Seq<char>) -> Option<Seq<u8>> {
    if is_hyphenated(t) {
        Some(spelled_bytes(t))
    } else if is_simple(t) {
        Some(digits_bytes(t))
    } else if is_urn(t) {
        Some(spelled_bytes(t.subrange(9, 45)))
    } else {
        None
    }
}

/// The length of `t` in bytes, as UTF-8.
pub open spec fn byte_length(t: Seq<char>) -> nat {
    vstd::utf8::encode_utf8(t).len()
}

/// True where the length of `t` in bytes is that of none of the three
/// forms.
pub open spec fn has_wrong_length(t: Seq<char>) -> bool {
    byte_length(t) != 32 && byte_length(t) != 36 && byte_length(t) != 45
}

/// A canonical text is a hyphenated one.
pub proof fn lemma_canonical_is_hyphenated(t: Seq<char>)
    requires
        is_canonical(t),
    ensures
        is_hyphenated(t),
{
    assert forall|p: int| 0 <= p < 36 implies if is_hyphen_position(p) {
        #[trigger] t[p] == '-'
    } else {
        is_hex_digit(t[p])
    } by {
        if !is_hyphen_position(p) {
            assert(is_lower_hex_digit(t[p]));
        }
    }
}

/// The canonical text of any 16 bytes is in canonical form.
pub proof fn lemma_canonical_text_is_canonical(b: Seq<u8>)
    requires
        b.len() == 16,
    ensures
        is_canonical(canonical_text(b)),
{
    let t = canonical_text(b);
    assert forall|p: int| 0 <= p < 36 implies if is_hyphen_position(p) {
        #[trigger] t[p] == '-'
    } else {
        is_lower_hex_digit(t[p])
    } by {
        if !is_hyphen_position(p) {
            let n = p - hyphens_before(p);
            let v = nibble(b, n);
            assert(0 <= n < 32);
            assert(0 <= v < 16);
        }
    }
}

/// The bytes that a hyphenated text spells have that text, in lower case,
/// as their canonical text.
pub proof fn lemma_text_of_spelled_bytes(t: Seq<char>)
    requires
        is_hyphenated(t),
    ensures
        canonical_text(spelled_bytes(t)) == lower_text(t),
{
    let b = spelled_bytes(t);
    let u = canonical_text(b);
    let l = lower_text(t);
    assert forall|p: int| 0 <= p < 36 implies u[p] == l[p] by {
        if is_hyphen_position(p) {
            assert(t[p] == '-');
        } else {
            let n = p - hyphens_before(p);
            let k = n / 2;
            assert(0 <= n < 32);
            assert(digit_position(n) == p);
            let hi = t[digit_position(2 * k)];
            let lo = t[digit_position(2 * k + 1)];
            assert(is_hex_digit(hi));
            assert(is_hex_digit(lo));
            assert(is_hex_digit(t[p]));
            assert(b[k] as int == 16 * hex_value(hi) + hex_value(lo));
        }
    }
    assert(u =~= l);
}

/// A canonical text is its own lower case.
pub proof fn lemma_canonical_is_lower(t: Seq<char>)
    requires
        is_canonical(t),
    ensures
        lower_text(t) == t,
{
    let l = lower_text(t);
    assert forall|p: int| 0 <= p < 36 implies l[p] == t[p] by {
        if is_hyphen_position(p) {
            assert(t[p] == '-');
        } else {
            assert(is_lower_hex_digit(t[p]));
        }
    }
    assert(l =~= t);
}

/// The canonical text of 16 bytes spells those bytes.
pub proof fn lemma_spelled_bytes_of_text(b: Seq<u8>)
    requires
        b.len() == 16,
    ensures
        spelled_bytes(canonical_text(b)) == b,
{
    let t = canonical_text(b);
    let c = spelled_bytes(t);
    assert forall|k: int| 0 <= k < 16 implies c[k] == b[k] by {
        let ph = digit_position(2 * k);
        let pl = digit_position(2 * k + 1);
        assert(!is_hyphen_position(ph) && ph - hyphens_before(ph) == 2 * k);
        assert(!is_hyphen_position(pl) && pl - hyphens_before(pl) == 2 * k + 1);
        assert(hex_value(t[ph]) == b[k] as int / 16);
        assert(hex_value(t[pl]) == b[k] as int % 16);
    }
    assert(c =~= b);
}

/// A text in one of the three forms has the length in bytes of that form:
/// a text of another length is in none.
pub proof fn lemma_accepted_length(t: Seq<char>)
    requires
        accepted_bytes(t) is Some,
    ensures
        byte_length(t) == t.len(),
        !has_wrong_length(t),
        accepted_bytes(t)->Some_0.len() == 16,
{
    assert forall|i: int| 0 <= i < t.len() implies '\0' <= #[trigger] t[i] <= '\u{7f}' by {
        if is_hyphenated(t) {
            if !is_hyphen_position(i) {
                assert(is_hex_digit(t[i]));
            }
        } else if is_simple(t) {
            assert(is_hex_digit(t[i]));
        } else {
            if i < 9 {
                assert(t.subrange(0, 9)[i] == urn_prefix()[i]);
            } else {
                let h = t.subrange(9, 45);
                assert(h[i - 9] == t[i]);
                if !is_hyphen_position(i - 9) {
                    assert(is_hex_digit(h[i - 9]));
                }
            }
        }
    }
    vstd::utf8::is_ascii_chars_encode_utf8(t);
}

} // verus!
