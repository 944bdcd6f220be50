use vstd::prelude::*;
use vstd::arithmetic::div_mod::{lemma_add_mod_noop_right, lemma_mod_pos_bound};

verus! {

/// The order of the prime-order subgroup of Ed25519, 2^252 + 27742317777372353535851937790883648493.
pub open spec fn group_order() -> nat {
    7237005577332262213973186563042994240857116359379907606001950938285454250989nat
}

/// The unsigned integer that a byte string encodes, least significant byte first.
pub open spec fn le_value(b: Seq<u8>) -> nat
    decreases b.len(),
{
    if b.len() == 0 {
        0
    } else {
        b[0] as nat + 256 * le_value(b.drop_first())
    }
}

/// A 32-byte string that encodes a scalar in its reduced form, below the group order.
pub open spec fn is_canonical_scalar(b: Seq<u8>) -> bool {
    b.len() == 32 && le_value(b) < group_order()
}

/// Calls `curve25519_dalek::scalar::Scalar::from_bytes_mod_order` and returns the
/// little-endian encoding of the result. Believed: the encoded value is the input's
/// value reduced modulo the group order, as the crate documents.
#[verifier::external_body]
fn scalar_bytes_mod_order(bytes: [u8; 32]) -> (r: [u8; 32])
    ensures
        le_value(r@) == le_value(bytes@) % group_order(),
{
    curve25519_dalek::scalar::Scalar::from_bytes_mod_order(bytes).to_bytes()
}

/// Calls the addition of `monero::PrivateKey` on two keys read with
/// `monero::PrivateKey::from_slice`, and returns the sum's bytes. Believed: for two
/// canonical keys (the only ones `from_slice` accepts) the sum encodes
/// `(a + b) mod l`, which curve25519-dalek's scalar addition computes for reduced inputs.
#[verifier::external_body]
fn private_key_sum(a: [u8; 32], b: [u8; 32]) -> (r: [u8; 32])
    requires
        le_value(a@) < group_order(),
        le_value(b@) < group_order(),
    ensures
        le_value(r@) == (le_value(a@) + le_value(b@)) % group_order(),
{
    let a = monero::PrivateKey::from_slice(&a).unwrap();
    let b = monero::PrivateKey::from_slice(&b).unwrap();
    (a + b).to_bytes()
}

/// The Monero spend key of the locked output, rebuilt from Alice's share `s_a` (a reduced
/// scalar) and the bytes of Bob's share `s_b` as recovered from his signature, which are
/// reduced modulo the group order first: `s_a + (s_b mod l) (mod l)`.
pub fn monero_spend_key(s_a: [u8; 32], s_b: [u8; 32]) -> (k: [u8; 32])
    requires
        le_value(s_a@) < group_order(),
    ensures
        le_value(k@) == (le_value(s_a@) + le_value(s_b@)) % group_order(),
{
    let s_b_reduced = scalar_bytes_mod_order(s_b);
    proof {
        lemma_mod_pos_bound(le_value(s_b@) as int, group_order() as int);
        lemma_add_mod_noop_right(le_value(s_a@) as int, le_value(s_b@) as int, group_order() as int);
    }
    private_key_sum(s_a, s_b_reduced)
}

} // verus!
