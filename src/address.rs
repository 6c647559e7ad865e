use vstd::prelude::*;

use crate::error::RuthError;
use crate::hex_text::{
    decode_hex_text, encode_hex, hex_decoded, hex_digit_of, hex_digits, hex_encoded, hex_value,
    is_hex_char, is_hex_text, spells_in_any_case, strip_hex_prefix, upper_hex_letter,
};

verus! {

/// An account address: exactly 20 bytes.
#[derive(Clone, Copy, Debug, PartialEq, Eq)]
pub struct Address {
    pub bytes: [u8; 20],
}

/// A transaction hash: exactly 32 bytes.
#[derive(Clone, Copy, Debug, PartialEq, Eq)]
pub struct TxHash {
    pub bytes: [u8; 32],
}

impl View for Address {
    type V = Seq<u8>;

    open spec fn view(&self) -> Seq<u8> {
        self.bytes@
    }
}

impl View for TxHash {
    type V = Seq<u8>;

    open spec fn view(&self) -> Seq<u8> {
        self.bytes@
    }
}

/// `input`, with or without `0x`, is hex text of exactly `n` bytes.
pub open spec fn decodes_to_length(input: Seq<char>, n: nat) -> bool {
    is_hex_text(strip_hex_prefix(input)) && hex_decoded(strip_hex_prefix(input)).len() == n
}

/// The bytes that `input` stands for, with or without `0x`.
pub open spec fn decoded_input(input: Seq<char>) -> Seq<u8> {
    hex_decoded(strip_hex_prefix(input))
}

/// The error owed for `input` when it is not hex text of exactly `n` bytes.
pub open spec fn is_parse_fault(e: RuthError, input: Seq<char>, n: nat) -> bool {
    if !is_hex_text(strip_hex_prefix(input)) {
        e matches RuthError::InvalidHex { input: i } && i@ == input
    } else {
        e matches RuthError::InvalidLength { input: i, expected, found } && i@ == input
            && expected == n && found == decoded_input(input).len()
    }
}

/// Decodes `input` (with or without `0x`) into exactly `n` bytes, never truncating or padding.
pub fn parse_fixed(input: &str, n: usize) -> (r: Result<Vec<u8>, RuthError>)
    ensures
        r is Ok <==> decodes_to_length(input@, n as nat),
        r matches Ok(b) ==> b@ == decoded_input(input@),
        r matches Err(e) ==> is_parse_fault(e, input@, n as nat),
{
    match decode_hex_text(input) {
        None => Err(RuthError::InvalidHex { input: input.to_owned() }),
        Some(b) => {
            if b.len() != n {
                Err(RuthError::InvalidLength { input: input.to_owned(), expected: n, found: b.len() })
            } else {
                Ok(b)
            }
        },
    }
}

fn to_array<const N: usize>(v: &Vec<u8>) -> (r: [u8; N])
    requires
        v@.len() == N,
    ensures
        r@ == v@,
{
    let mut a = [0u8; N];
    for i in 0..N
        invariant
            v@.len() == N,
            forall|j: int| 0 <= j < i ==> a@[j] == v@[j],
    {
        a[i] = v[i];
    }
    assert(a@ =~= v@);
    a
}

/// Parses a 20-byte address given as hex, with or without `0x`.
pub fn parse_address(input: &str) -> (r: Result<Address, RuthError>)
    ensures
        r is Ok <==> decodes_to_length(input@, 20),
        r matches Ok(a) ==> a@ == decoded_input(input@),
        r matches Err(e) ==> is_parse_fault(e, input@, 20),
{
    match parse_fixed(input, 20) {
        Ok(b) => Ok(Address { bytes: to_array(&b) }),
        Err(e) => Err(e),
    }
}

/// Parses a 32-byte transaction hash given as hex, with or without `0x`.
pub fn parse_hash32(input: &str) -> (r: Result<TxHash, RuthError>)
    ensures
        r is Ok <==> decodes_to_length(input@, 32),
        r matches Ok(h) ==> h@ == decoded_input(input@),
        r matches Err(e) ==> is_parse_fault(e, input@, 32),
{
    match parse_fixed(input, 32) {
        Ok(b) => Ok(TxHash { bytes: to_array(&b) }),
        Err(e) => Err(e),
    }
}

/// The mixed-case checksum text of an address.
pub uninterp spec fn checksum_of(b: Seq<u8>) -> Seq<char>;

/// `t` is `0x` and then the hex digits of `b`, each letter in either case.
pub open spec fn is_address_spelling(t: Seq<char>, b: Seq<u8>) -> bool {
    &&& t.len() >= 2
    &&& t[0] == '0'
    &&& t[1] == 'x'
    &&& spells_in_any_case(t.subrange(2, t.len() as int), b)
}

/// Relies on ethers::utils::to_checksum with no chain id: `0x`, then the lowercase hex
/// digits of the address, each letter raised to uppercase or kept as the hash decides.
#[verifier::external_body]
fn checksum_text(b: [u8; 20]) -> (r: String)
    ensures
        r@ == checksum_of(b@),
        is_address_spelling(r@, b@),
{
    ethers::utils::to_checksum(&ethers::types::Address::from(b), None)
}

/// The text of an address: checksummed, or `0x` and lowercase hex.
pub open spec fn address_text(b: Seq<u8>, checksummed: bool) -> Seq<char> {
    if checksummed {
        checksum_of(b)
    } else {
        seq!['0', 'x'] + hex_encoded(b)
    }
}

/// Renders an address with a leading `0x`, checksum-cased where asked.
pub fn format_address(addr: &Address, checksummed: bool) -> (r: String)
    ensures
        r@ == address_text(addr@, checksummed),
        is_address_spelling(r@, addr@),
{
    if checksummed {
        checksum_text(addr.bytes)
    } else {
        let digits = encode_hex(addr.bytes.as_slice());
        let r = crate::text::with_hex_prefix(digits.as_str());
        proof {
            lemma_lowercase_spelling(addr@);
            assert(r@.subrange(2, r@.len() as int) =~= hex_encoded(addr@));
        }
        r
    }
}

/// The text of a transaction hash: `0x` and lowercase hex.
pub fn format_tx_hash(h: &TxHash) -> (r: String)
    ensures
        r@ == seq!['0', 'x'] + hex_encoded(h@),
{
    let digits = encode_hex(h.bytes.as_slice());
    crate::text::with_hex_prefix(digits.as_str())
}

proof fn lemma_nibble(n: int)
    requires
        0 <= n < 16,
    ensures
        is_hex_char(hex_digits()[n]),
        hex_value(hex_digits()[n]) == n,
        is_hex_char(upper_hex_letter(hex_digits()[n])),
        hex_value(upper_hex_letter(hex_digits()[n])) == n,
{
}

proof fn lemma_lowercase_spelling(b: Seq<u8>)
    ensures
        spells_in_any_case(hex_encoded(b), b),
{
}

/// Hex text that spells `b` in any mix of cases decodes to `b`.
pub proof fn lemma_spelling_decodes(t: Seq<char>, b: Seq<u8>)
    requires
        spells_in_any_case(t, b),
    ensures
        is_hex_text(t),
        hex_decoded(t) == b,
{
    assert forall|i: int| 0 <= i < t.len() implies is_hex_char(#[trigger] t[i])
        && hex_value(t[i]) == (if i % 2 == 0 { b[i / 2] / 16 } else { b[i / 2] % 16 }) by {
        let v = if i % 2 == 0 { b[i / 2] / 16 } else { b[i / 2] % 16 };
        lemma_nibble(v as int);
    }
    assert forall|k: int| 0 <= k < b.len() implies #[trigger] hex_decoded(t)[k] == b[k] by {
        assert(t[2 * k] == t[2 * k]);
        assert(t[2 * k + 1] == t[2 * k + 1]);
        assert((2 * k) / 2 == k && (2 * k + 1) / 2 == k && (2 * k) % 2 == 0 && (2 * k + 1) % 2 == 1);
    }
    assert(hex_decoded(t) =~= b);
}

/// Parsing the text of an address gives back that address, so formatting the parsed
/// value again, in the same case, gives the same text.
pub proof fn lemma_address_round_trip(a: Address, checksummed: bool, t: Seq<char>)
    requires
        t == address_text(a@, checksummed),
        is_address_spelling(t, a@),
    ensures
        decodes_to_length(t, 20),
        decoded_input(t) == a@,
        address_text(decoded_input(t), checksummed) == t,
{
    assert(strip_hex_prefix(t) == t.subrange(2, t.len() as int));
    lemma_spelling_decodes(t.subrange(2, t.len() as int), a@);
}

} // verus!
