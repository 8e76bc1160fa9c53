//! The three primitives on field elements. The arithmetic is the work of the
//! `starknet-crypto` crate; what it returns is named here, and everything
//! around the calls is verified.

use vstd::prelude::*;
use starknet_crypto::{FieldElement, VerifyError};
use crate::bytes::be_value;
use crate::felt::{is_canonical, modulus, Felt};

verus! {

/// The Pedersen hash of two field elements.
pub uninterp spec fn pedersen_of(a: nat, b: nat) -> nat;

/// The Poseidon permutation of a state of three field elements.
pub uninterp spec fn poseidon_of(s0: nat, s1: nat, s2: nat) -> (nat, nat, nat);

/// What signature verification says of a public key, a message hash and the
/// two components of a signature.
pub uninterp spec fn ecdsa_outcome(public_key: nat, message: nat, r: nat, s: nat) -> Result<
    bool,
    VerifyFailure,
>;

/// Why signature verification could give no verdict.
#[derive(Clone, Copy, Debug, PartialEq, Eq)]
pub enum VerifyFailure {
    /// The public key is not the x coordinate of a point of the curve.
    InvalidPublicKey,
    /// The message hash is out of range.
    InvalidMessageHash,
    /// The component `r` is out of range.
    InvalidR,
    /// The component `s` is out of range.
    InvalidS,
}

/// Whether a signature is accepted: verification gives a verdict, and the
/// verdict is that the signature is valid.
pub open spec fn accepts(public_key: nat, message: nat, r: nat, s: nat) -> bool {
    ecdsa_outcome(public_key, message, r, s) == Ok::<bool, VerifyFailure>(true)
}

/// Calls `starknet_crypto::pedersen_hash` on the elements that the two
/// buffers hold, going in through `FieldElement::from_bytes_be` and out
/// through `FieldElement::to_bytes_be`. Trusted, not proved: a canonical
/// buffer is accepted on the way in, the bytes that come out are canonical,
/// and the element they hold depends on the two elements alone.
#[verifier::external_body]
fn pedersen_hash_bytes(a: &[u8; 32], b: &[u8; 32]) -> (h: [u8; 32])
    requires
        is_canonical(a@),
        is_canonical(b@),
    ensures
        is_canonical(h@),
        be_value(h@) == pedersen_of(be_value(a@), be_value(b@)),
{
    let x = FieldElement::from_bytes_be(a).unwrap();
    let y = FieldElement::from_bytes_be(b).unwrap();
    starknet_crypto::pedersen_hash(&x, &y).to_bytes_be()
}

/// Calls `starknet_crypto::poseidon_permute_comp` on the state that the three
/// buffers hold, in their order, going in through
/// `FieldElement::from_bytes_be` and out through `FieldElement::to_bytes_be`.
/// Trusted, not proved: a canonical buffer is accepted on the way in, the
/// three buffers that come out are canonical, and the state they hold depends
/// on the state given alone.
#[verifier::external_body]
fn poseidon_permute_bytes(s0: &[u8; 32], s1: &[u8; 32], s2: &[u8; 32]) -> (t: (
    [u8; 32],
    [u8; 32],
    [u8; 32],
))
    requires
        is_canonical(s0@),
        is_canonical(s1@),
        is_canonical(s2@),
    ensures
        is_canonical(t.0@),
        is_canonical(t.1@),
        is_canonical(t.2@),
        (be_value(t.0@), be_value(t.1@), be_value(t.2@)) == poseidon_of(
            be_value(s0@),
            be_value(s1@),
            be_value(s2@),
        ),
{
    let mut state = [
        FieldElement::from_bytes_be(s0).unwrap(),
        FieldElement::from_bytes_be(s1).unwrap(),
        FieldElement::from_bytes_be(s2).unwrap(),
    ];
    starknet_crypto::poseidon_permute_comp(&mut state);
    (state[0].to_bytes_be(), state[1].to_bytes_be(), state[2].to_bytes_be())
}

/// Calls `starknet_crypto::verify` on the elements that the four buffers
/// hold, going in through `FieldElement::from_bytes_be`, and hands its
/// `VerifyError` on variant by variant. Trusted, not proved: a canonical
/// buffer is accepted on the way in, the outcome depends on the four elements
/// alone, and a signature of which `r` or `s` is zero gets an error, never a
/// verdict.
#[verifier::external_body]
fn verify_bytes(public_key: &[u8; 32], message: &[u8; 32], r: &[u8; 32], s: &[u8; 32]) -> (out:
    Result<bool, VerifyFailure>)
    requires
        is_canonical(public_key@),
        is_canonical(message@),
        is_canonical(r@),
        is_canonical(s@),
    ensures
        out == ecdsa_outcome(be_value(public_key@), be_value(message@), be_value(r@), be_value(s@)),
        be_value(r@) == 0 || be_value(s@) == 0 ==> out is Err,
{
    let k = FieldElement::from_bytes_be(public_key).unwrap();
    let m = FieldElement::from_bytes_be(message).unwrap();
    let r = FieldElement::from_bytes_be(r).unwrap();
    let s = FieldElement::from_bytes_be(s).unwrap();
    match starknet_crypto::verify(&k, &m, &r, &s) {
        Ok(valid) => Ok(valid),
        Err(VerifyError::InvalidPublicKey) => Err(VerifyFailure::InvalidPublicKey),
        Err(VerifyError::InvalidMessageHash) => Err(VerifyFailure::InvalidMessageHash),
        Err(VerifyError::InvalidR) => Err(VerifyFailure::InvalidR),
        Err(VerifyError::InvalidS) => Err(VerifyFailure::InvalidS),
    }
}

/// The Pedersen hash of `a` and `b`.
pub fn hash(a: &Felt, b: &Felt) -> (h: Felt)
    ensures
        h@ == pedersen_of(a@, b@),
        h@ < modulus(),
{
    let x = a.to_bytes_be();
    let y = b.to_bytes_be();
    Felt::from_canonical(pedersen_hash_bytes(&x, &y))
}

/// The Poseidon permutation of the ordered state `(s0, s1, s2)`.
pub fn permute(s0: &Felt, s1: &Felt, s2: &Felt) -> (t: (Felt, Felt, Felt))
    ensures
        (t.0@, t.1@, t.2@) == poseidon_of(s0@, s1@, s2@),
        t.0@ < modulus(),
        t.1@ < modulus(),
        t.2@ < modulus(),
{
    let x = s0.to_bytes_be();
    let y = s1.to_bytes_be();
    let z = s2.to_bytes_be();
    let t = poseidon_permute_bytes(&x, &y, &z);
    (Felt::from_canonical(t.0), Felt::from_canonical(t.1), Felt::from_canonical(t.2))
}

/// Collapses the outcome of signature verification into a boolean, failing
/// closed: `true` for the verdict "valid", `false` for the verdict "invalid"
/// and for every failure to give a verdict.
pub fn collapse(outcome: Result<bool, VerifyFailure>) -> (ok: bool)
    ensures
        ok == (outcome == Ok::<bool, VerifyFailure>(true)),
        outcome is Err ==> !ok,
{
    match outcome {
        Ok(valid) => valid,
        Err(_) => false,
    }
}

/// What signature verification says of the four elements: a verdict, or why
/// it could give none.
pub fn verify_outcome(public_key: &Felt, message: &Felt, r: &Felt, s: &Felt) -> (out: Result<
    bool,
    VerifyFailure,
>)
    ensures
        out == ecdsa_outcome(public_key@, message@, r@, s@),
        r@ == 0 || s@ == 0 ==> out is Err,
{
    let k = public_key.to_bytes_be();
    let m = message.to_bytes_be();
    let x = r.to_bytes_be();
    let y = s.to_bytes_be();
    verify_bytes(&k, &m, &x, &y)
}

/// Whether `(r, s)` is accepted as a signature of `message` under
/// `public_key`. A signature that cannot be judged is not accepted.
pub fn verify(public_key: &Felt, message: &Felt, r: &Felt, s: &Felt) -> (ok: bool)
    ensures
        ok == accepts(public_key@, message@, r@, s@),
        r@ == 0 || s@ == 0 ==> !ok,
{
    collapse(verify_outcome(public_key, message, r, s))
}

} // verus!
