use vstd::prelude::*;

verus! {

/// Whether `c` is an ASCII hexadecimal digit, in either case.
pub open spec fn is_hex_digit(c: char) -> bool {
    ('0' <= c && c <= '9') || ('a' <= c && c <= 'f') || ('A' <= c && c <= 'F')
}

/// The value, 0 to 15, of a hexadecimal digit.
pub open spec fn hex_digit_value(c: char) -> int {
    if '0' <= c && c <= '9' {
        c as int - '0' as int
    } else if 'a' <= c && c <= 'f' {
        c as int - 'a' as int + 10
    } else {
        c as int - 'A' as int + 10
    }
}

/// The lower-case digit for a value `n` in `0..16`.
pub open spec fn hex_digit_char(n: int) -> char {
    if n < 10 {
        (n + '0' as int) as char
    } else {
        (n - 10 + 'a' as int) as char
    }
}

/// A text that decodes: an even number of hexadecimal digits.
pub open spec fn is_hex(s: Seq<char>) -> bool {
    &&& s.len() % 2 == 0
    &&& forall|i: int| 0 <= i < s.len() ==> is_hex_digit(#[trigger] s[i])
}

/// The bytes that a hexadecimal text stands for, two digits per byte, high digit first.
pub open spec fn hex_decoded(s: Seq<char>) -> Seq<u8> {
    Seq::new(
        (s.len() / 2) as nat,
        |i: int| (hex_digit_value(s[2 * i]) * 16 + hex_digit_value(s[2 * i + 1])) as u8,
    )
}

/// The lower-case hexadecimal text of a byte sequence.
pub open spec fn hex_encoded(b: Seq<u8>) -> Seq<char> {
    Seq::new(
        2 * b.len(),
        |i: int|
            if i % 2 == 0 {
                hex_digit_char(b[i / 2] as int / 16)
            } else {
                hex_digit_char(b[i / 2] as int % 16)
            },
    )
}

proof fn lemma_digit_round_trip(n: int)
    requires
        0 <= n < 16,
    ensures
        is_hex_digit(hex_digit_char(n)),
        hex_digit_value(hex_digit_char(n)) == n,
{
}

/// Decoding the hexadecimal text of any byte sequence gives the sequence back.
pub proof fn lemma_hex_round_trip(b: Seq<u8>)
    ensures
        is_hex(hex_encoded(b)),
        hex_decoded(hex_encoded(b)) == b,
{
    let s = hex_encoded(b);
    assert forall|i: int| 0 <= i < s.len() implies is_hex_digit(#[trigger] s[i]) by {
        lemma_digit_round_trip(b[i / 2] as int / 16);
        lemma_digit_round_trip(b[i / 2] as int % 16);
    }
    assert forall|i: int| 0 <= i < b.len() implies #[trigger] hex_decoded(s)[i] == b[i] by {
        assert((2 * i) / 2 == i);
        assert((2 * i + 1) / 2 == i);
        assert((2 * i) % 2 == 0);
        assert((2 * i + 1) % 2 == 1);
        lemma_digit_round_trip(b[i] as int / 16);
        lemma_digit_round_trip(b[i] as int % 16);
    }
    assert(hex_decoded(s) =~= b);
}

/// Relies on `hex::decode`: `Ok` exactly for an even number of hexadecimal digits
/// (either case), and then two digits per byte, high digit first. It reads the
/// text's UTF-8 bytes, where a character outside ASCII is never a digit.
#[verifier::external_body]
pub(crate) fn decode_hex(s: &str) -> (r: Result<Vec<u8>, hex::FromHexError>)
    ensures
        r is Ok <==> is_hex(s@),
        r is Ok ==> r->Ok_0@ == hex_decoded(s@),
{
    hex::decode(s)
}

/// Relies on `hex::encode`: two lower-case digits per byte, high digit first.
#[verifier::external_body]
pub(crate) fn encode_hex(b: &[u8]) -> (r: String)
    ensures
        r@ == hex_encoded(b@),
{
    hex::encode(b)
}

#[verifier::external_type_specification]
#[verifier::external_body]
pub struct ExFromHexError(hex::FromHexError);

} // verus!
