use vstd::prelude::*;

use ethers::signers::Signer;

use crate::address::Address;
use crate::hex_text::{encode_hex, hex_encoded};

verus! {

/// Relies on rand::random: one byte from the thread-local generator, which the
/// operating system seeds. Nothing is known of its value.
#[verifier::external_body]
fn draw_byte() -> (r: u8) {
    rand::random::<u8>()
}

/// The value of bytes read as a big-endian number.
pub open spec fn big_endian_value(b: Seq<u8>) -> nat
    decreases b.len(),
{
    if b.len() == 0 {
        0
    } else {
        big_endian_value(b.drop_last()) * 256 + b.last() as nat
    }
}

/// The order of the secp256k1 group.
pub open spec fn secp256k1_order() -> nat {
    let limb: nat = 0x1_0000_0000_0000_0000;
    ((0xFFFF_FFFF_FFFF_FFFFnat * limb + 0xFFFF_FFFF_FFFF_FFFEnat) * limb
        + 0xBAAE_DCE6_AF48_A03Bnat) * limb + 0xBFD2_5E8C_D036_4141nat
}

/// A secp256k1 secret key: 32 big-endian bytes of a value above zero and below the
/// group order.
pub open spec fn is_secret_key(k: Seq<u8>) -> bool {
    k.len() == 32 && 0 < big_endian_value(k) < secp256k1_order()
}

/// The address that a secret key controls.
pub uninterp spec fn key_address(k: Seq<u8>) -> Seq<u8>;

/// Relies on ethers' Wallet::new with the thread-local generator, whose key is a
/// random nonzero scalar, and on the key's big-endian encoding (`to_bytes`).
#[verifier::external_body]
fn fresh_secret_key() -> (k: [u8; 32])
    ensures
        is_secret_key(k@),
{
    let wallet = ethers::signers::LocalWallet::new(&mut rand::thread_rng());
    wallet.signer().to_bytes().into()
}

/// Relies on ethers' Wallet::from_bytes, which accepts exactly the keys above zero and
/// below the group order, and on its `address`: the address derived from the key.
#[verifier::external_body]
fn address_of_key(k: [u8; 32]) -> (r: Address)
    requires
        is_secret_key(k@),
    ensures
        r@ == key_address(k@),
{
    let wallet = ethers::signers::LocalWallet::from_bytes(&k).expect("a valid secret key");
    Address { bytes: wallet.address().to_fixed_bytes() }
}

/// `length` freshly drawn random bytes.
pub fn random_byte_vec(length: u32) -> (r: Vec<u8>)
    ensures
        r@.len() == length,
{
    let mut r: Vec<u8> = Vec::new();
    for i in 0..length
        invariant
            r@.len() == i,
    {
        r.push(draw_byte());
    }
    r
}

/// `length` random bytes as lowercase hex, without a prefix.
pub fn random_bytes(length: u32) -> (r: String)
    ensures
        exists|b: Seq<u8>| b.len() == length && r@ == hex_encoded(b),
        r@.len() == 2 * length,
{
    let b = random_byte_vec(length);
    let r = encode_hex(b.as_slice());
    assert(r@ == hex_encoded(b@));
    r
}

/// The address of a freshly generated secret key; the key is not kept.
pub fn random_address() -> (r: Address)
    ensures
        exists|k: Seq<u8>| is_secret_key(k) && r@ == #[trigger] key_address(k),
{
    let k = fresh_secret_key();
    address_of_key(k)
}

} // verus!
