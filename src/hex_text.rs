use vstd::prelude::*;

verus! {

/// The lowercase hex digits, indexed by their value.
pub open spec fn hex_digits() -> Seq<char> {
    seq!['0', '1', '2', '3', '4', '5', '6', '7', '8', '9', 'a', 'b', 'c', 'd', 'e', 'f']
}

/// The uppercase form of an ASCII letter from `a` to `f`; any other character is kept.
pub open spec fn upper_hex_letter(c: char) -> char {
    if c == 'a' {
        'A'
    } else if c == 'b' {
        'B'
    } else if c == 'c' {
        'C'
    } else if c == 'd' {
        'D'
    } else if c == 'e' {
        'E'
    } else if c == 'f' {
        'F'
    } else {
        c
    }
}

pub open spec fn is_hex_char(c: char) -> bool {
    ('0' <= c <= '9') || ('a' <= c <= 'f') || ('A' <= c <= 'F')
}

/// The value of a hex digit, in either case.
pub open spec fn hex_value(c: char) -> int {
    if '0' <= c <= '9' {
        c as int - '0' as int
    } else if 'a' <= c <= 'f' {
        c as int - 'a' as int + 10
    } else {
        c as int - 'A' as int + 10
    }
}

/// Text that decodes: an even number of hex digits.
pub open spec fn is_hex_text(s: Seq<char>) -> bool {
    s.len() % 2 == 0 && forall|i: int| 0 <= i < s.len() ==> is_hex_char(#[trigger] s[i])
}

/// The bytes that hex text stands for, two digits each, high digit first.
pub open spec fn hex_decoded(s: Seq<char>) -> Seq<u8> {
    Seq::new(s.len() / 2, |i: int| (16 * hex_value(s[2 * i]) + hex_value(s[2 * i + 1])) as u8)
}

/// The digit of `b` at position `i` of its two-digit lowercase text.
pub open spec fn hex_digit_of(b: Seq<u8>, i: int) -> char {
    if i % 2 == 0 {
        hex_digits()[(b[i / 2] / 16) as int]
    } else {
        hex_digits()[(b[i / 2] % 16) as int]
    }
}

/// Lowercase hex text of `b`, two digits per byte, no prefix.
pub open spec fn hex_encoded(b: Seq<u8>) -> Seq<char> {
    Seq::new(2 * b.len(), |i: int| hex_digit_of(b, i))
}

/// Text that spells `b` in hex with each letter in either case.
pub open spec fn spells_in_any_case(t: Seq<char>, b: Seq<u8>) -> bool {
    &&& t.len() == 2 * b.len()
    &&& forall|i: int|
        0 <= i < t.len() ==> #[trigger] t[i] == hex_digit_of(b, i) || t[i] == upper_hex_letter(
            hex_digit_of(b, i),
        )
}

#[verifier::external_type_specification]
#[verifier::external_body]
pub struct ExFromHexError(hex::FromHexError);

/// Relies on hex::decode: it accepts an even number of digits `0-9`, `a-f`, `A-F`,
/// and returns one byte per pair, high digit first.
#[verifier::external_body]
fn decode_hex(digits: &[char]) -> (r: Result<Vec<u8>, hex::FromHexError>)
    ensures
        r is Ok <==> is_hex_text(digits@),
        r matches Ok(b) ==> b@ == hex_decoded(digits@),
{
    let text: String = digits.iter().collect();
    hex::decode(text)
}

/// Relies on hex::encode: two lowercase digits per byte.
#[verifier::external_body]
pub(crate) fn encode_hex(b: &[u8]) -> (r: String)
    ensures
        r@ == hex_encoded(b@),
{
    hex::encode(b)
}

/// Decodes hex text, with or without a leading `0x`; `None` where it is not hex.
pub fn decode_hex_text(input: &str) -> (r: Option<Vec<u8>>)
    ensures
        r is Some <==> is_hex_text(strip_hex_prefix(input@)),
        r matches Some(b) ==> b@ == hex_decoded(strip_hex_prefix(input@)),
{
    let chars = crate::text::chars_of(input);
    let digits = strip_prefix_chars(&chars);
    match decode_hex(digits.as_slice()) {
        Ok(b) => Some(b),
        Err(_) => None,
    }
}

fn strip_prefix_chars(chars: &Vec<char>) -> (r: Vec<char>)
    ensures
        r@ == strip_hex_prefix(chars@),
{
    if chars.len() >= 2 && chars[0] == '0' && chars[1] == 'x' {
        let mut r: Vec<char> = Vec::new();
        let mut i: usize = 2;
        while i < chars.len()
            invariant
                2 <= i <= chars.len(),
                r@ == chars@.subrange(2, i as int),
            decreases chars.len() - i,
        {
            r.push(chars[i]);
            i = i + 1;
            assert(r@ =~= chars@.subrange(2, i as int));
        }
        r
    } else {
        chars.clone()
    }
}

/// `s` without one leading `0x`, if it has one.
pub open spec fn strip_hex_prefix(s: Seq<char>) -> Seq<char> {
    if s.len() >= 2 && s[0] == '0' && s[1] == 'x' {
        s.subrange(2, s.len() as int)
    } else {
        s
    }
}

} // verus!
